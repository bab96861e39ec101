//! LV2-shaped port and plugin descriptions that lower to the format-neutral
//! plugin descriptor.
use vstd::prelude::*;
use vstd::string::StringExecFns;
use crate::descriptor::{
    PACKAGE_VENDOR, PACKAGE_VERSION, PluginDescriptor, PluginId, PortDecl, port_value, port_values,
};
use crate::error::Error;
use crate::text::{is_blank, is_blank_text, lemma_not_blank};
use crate::wire::{PluginFormat, PortDir, PortMedia};

verus! {

/// The LV2 port class of an LV2 port, mapped onto a graph port medium.
#[derive(Clone, Copy, Debug, PartialEq, Eq, Structural)]
pub enum Lv2PortKind {
    /// An LV2 audio port, mapped to audio.
    Audio,
    /// An LV2 control port, mapped to control.
    Control,
    /// An LV2 atom-sequence (event) port, mapped to events.
    AtomSequence,
}

/// The graph medium of an LV2 port class.
pub open spec fn lv2_kind_media(kind: Lv2PortKind) -> PortMedia {
    match kind {
        Lv2PortKind::Audio => PortMedia::Audio,
        Lv2PortKind::Control => PortMedia::Control,
        Lv2PortKind::AtomSequence => PortMedia::Event,
    }
}

impl Lv2PortKind {
    /// Returns the graph medium of this port class.
    pub fn media(self) -> (res: PortMedia)
        ensures
            res == lv2_kind_media(self),
    {
        match self {
            Lv2PortKind::Audio => PortMedia::Audio,
            Lv2PortKind::Control => PortMedia::Control,
            Lv2PortKind::AtomSequence => PortMedia::Event,
        }
    }
}

/// One declared port of an LV2 plugin description.
#[derive(Clone, Debug, PartialEq, Eq)]
pub struct Lv2Port {
    /// The LV2 port index within its plugin.
    pub index: u32,
    /// The LV2 port symbol, used as the graph port name.
    pub symbol: String,
    /// The human-readable port name.
    pub name: String,
    /// The LV2 port class.
    pub kind: Lv2PortKind,
    /// The signal direction (input or output).
    pub dir: PortDir,
    /// The number of graph lanes (channels) this port exposes.
    pub channels: u16,
}

/// The graph port declaration an LV2 port lowers to.
pub open spec fn lv2_port_decl_value(port: Lv2Port) -> (Seq<char>, PortMedia, PortDir, u16) {
    (port.symbol@, lv2_kind_media(port.kind), port.dir, port.channels)
}

/// The LV2 ports a constructor accepts: a non-blank symbol and name and at
/// least one lane.
pub open spec fn lv2_port_accepted(symbol: Seq<char>, name: Seq<char>, channels: u16) -> bool {
    !is_blank_text(symbol) && !is_blank_text(name) && channels > 0
}

/// The message an LV2 port constructor refuses its arguments with.
pub open spec fn lv2_port_refusal(symbol: Seq<char>, name: Seq<char>) -> Seq<char> {
    if is_blank_text(symbol) {
        "LV2 port symbol cannot be empty"@
    } else if is_blank_text(name) {
        "LV2 port name cannot be empty"@
    } else {
        "LV2 port "@ + symbol + " must expose at least one graph lane"@
    }
}

impl Lv2Port {
    /// Builds a port from its fields, validating symbol, name, and channels.
    pub fn new(
        index: u32,
        symbol: String,
        name: String,
        kind: Lv2PortKind,
        dir: PortDir,
        channels: u16,
    ) -> (res: Result<Lv2Port, Error>)
        ensures
            res is Ok <==> lv2_port_accepted(symbol@, name@, channels),
            res matches Ok(p) ==> p.index == index && p.symbol@ == symbol@ && p.name@ == name@
                && p.kind == kind && p.dir == dir && p.channels == channels,
            res matches Err(e) ==> e is Eval && e->Eval_0@ == lv2_port_refusal(symbol@, name@),
    {
        if is_blank(symbol.as_str()) {
            return Err(Error::eval("LV2 port symbol cannot be empty"));
        }
        if is_blank(name.as_str()) {
            return Err(Error::eval("LV2 port name cannot be empty"));
        }
        if channels == 0 {
            return Err(
                Error::eval3("LV2 port ", symbol.as_str(), " must expose at least one graph lane"),
            );
        }
        Ok(Lv2Port { index, symbol, name, kind, dir, channels })
    }

    /// Builds an audio input port named "Audio Input" with `channels` lanes.
    pub fn audio_input(index: u32, symbol: String, channels: u16) -> (res: Result<Lv2Port, Error>)
        ensures
            res is Ok <==> lv2_port_accepted(symbol@, "Audio Input"@, channels),
            res matches Ok(p) ==> p.index == index && p.symbol@ == symbol@ && p.name@
                == "Audio Input"@ && p.kind == Lv2PortKind::Audio && p.dir == PortDir::In
                && p.channels == channels,
            res matches Err(e) ==> e is Eval && e->Eval_0@ == lv2_port_refusal(
                symbol@,
                "Audio Input"@,
            ),
    {
        Lv2Port::new(
            index,
            symbol,
            String::from_str("Audio Input"),
            Lv2PortKind::Audio,
            PortDir::In,
            channels,
        )
    }

    /// Builds an audio output port named "Audio Output" with `channels` lanes.
    pub fn audio_output(index: u32, symbol: String, channels: u16) -> (res: Result<Lv2Port, Error>)
        ensures
            res is Ok <==> lv2_port_accepted(symbol@, "Audio Output"@, channels),
            res matches Ok(p) ==> p.index == index && p.symbol@ == symbol@ && p.name@
                == "Audio Output"@ && p.kind == Lv2PortKind::Audio && p.dir == PortDir::Out
                && p.channels == channels,
            res matches Err(e) ==> e is Eval && e->Eval_0@ == lv2_port_refusal(
                symbol@,
                "Audio Output"@,
            ),
    {
        Lv2Port::new(
            index,
            symbol,
            String::from_str("Audio Output"),
            Lv2PortKind::Audio,
            PortDir::Out,
            channels,
        )
    }

    /// Builds a single-lane control input port with the given `name`.
    pub fn control_input(index: u32, symbol: String, name: String) -> (res: Result<Lv2Port, Error>)
        ensures
            res is Ok <==> lv2_port_accepted(symbol@, name@, 1),
            res matches Ok(p) ==> p.index == index && p.symbol@ == symbol@ && p.name@ == name@
                && p.kind == Lv2PortKind::Control && p.dir == PortDir::In && p.channels == 1,
            res matches Err(e) ==> e is Eval && e->Eval_0@ == lv2_port_refusal(symbol@, name@),
    {
        Lv2Port::new(index, symbol, name, Lv2PortKind::Control, PortDir::In, 1)
    }

    /// Builds a single-lane atom-sequence input port named "Events In".
    pub fn atom_input(index: u32, symbol: String) -> (res: Result<Lv2Port, Error>)
        ensures
            res is Ok <==> lv2_port_accepted(symbol@, "Events In"@, 1),
            res matches Ok(p) ==> p.index == index && p.symbol@ == symbol@ && p.name@
                == "Events In"@ && p.kind == Lv2PortKind::AtomSequence && p.dir == PortDir::In
                && p.channels == 1,
            res matches Err(e) ==> e is Eval && e->Eval_0@ == lv2_port_refusal(
                symbol@,
                "Events In"@,
            ),
    {
        Lv2Port::new(
            index,
            symbol,
            String::from_str("Events In"),
            Lv2PortKind::AtomSequence,
            PortDir::In,
            1,
        )
    }

    /// Lowers this port to a graph port declaration.
    pub fn to_port_decl(&self) -> (res: PortDecl)
        ensures
            port_value(res) == lv2_port_decl_value(*self),
    {
        PortDecl::new(self.symbol.clone(), self.kind.media(), self.dir, self.channels)
    }
}

/// An LV2-shaped plugin description that lowers to a format-neutral plugin
/// descriptor.
#[derive(Clone, Debug, PartialEq)]
pub struct Lv2PluginDescriptor<P> {
    /// The plugin's LV2 URI, used as its stable id.
    pub uri: String,
    /// The human-readable plugin name.
    pub name: String,
    /// The vendor string (defaults to `sim`).
    pub vendor: String,
    /// The plugin version (defaults to this crate's version).
    pub version: String,
    /// The declared ports, in index order.
    pub ports: Vec<Lv2Port>,
    /// The declared automatable parameters.
    pub parameters: Vec<P>,
}

/// The graph port declarations a sequence of LV2 ports lowers to.
pub open spec fn lv2_port_decl_values(ports: Seq<Lv2Port>) -> Seq<
    (Seq<char>, PortMedia, PortDir, u16),
> {
    ports.map_values(|p: Lv2Port| lv2_port_decl_value(p))
}

impl<P> Lv2PluginDescriptor<P> {
    /// Builds a descriptor from a `uri` and `name`, with empty ports and
    /// parameters, vendor `sim` and this crate's version.
    pub fn new(uri: String, name: String) -> (res: Result<Lv2PluginDescriptor<P>, Error>)
        ensures
            res is Ok <==> !is_blank_text(uri@) && !is_blank_text(name@),
            res matches Ok(d) ==> d.uri@ == uri@ && d.name@ == name@ && d.vendor@
                == PACKAGE_VENDOR@ && d.version@ == PACKAGE_VERSION@ && d.ports@.len() == 0
                && d.parameters@.len() == 0,
            res matches Err(e) ==> e is Eval && (if is_blank_text(uri@) {
                e->Eval_0@ == "LV2 plugin URI cannot be empty"@
            } else {
                e->Eval_0@ == "LV2 plugin name cannot be empty"@
            }),
    {
        if is_blank(uri.as_str()) {
            return Err(Error::eval("LV2 plugin URI cannot be empty"));
        }
        if is_blank(name.as_str()) {
            return Err(Error::eval("LV2 plugin name cannot be empty"));
        }
        Ok(
            Lv2PluginDescriptor {
                uri,
                name,
                vendor: String::from_str(PACKAGE_VENDOR),
                version: String::from_str(PACKAGE_VERSION),
                ports: Vec::new(),
                parameters: Vec::new(),
            },
        )
    }

    /// Appends `port` and returns the updated descriptor.
    pub fn with_port(self, port: Lv2Port) -> (res: Lv2PluginDescriptor<P>)
        ensures
            res.uri == self.uri && res.name == self.name && res.vendor == self.vendor
                && res.version == self.version && res.parameters == self.parameters,
            res.ports@ == self.ports@.push(port),
    {
        let mut d = self;
        d.ports.push(port);
        d
    }

    /// Appends `parameter` and returns the updated descriptor.
    pub fn with_parameter(self, parameter: P) -> (res: Lv2PluginDescriptor<P>)
        ensures
            res.uri == self.uri && res.name == self.name && res.vendor == self.vendor
                && res.version == self.version && res.ports == self.ports,
            res.parameters@ == self.parameters@.push(parameter),
    {
        let mut d = self;
        d.parameters.push(parameter);
        d
    }

    /// Lowers every declared port to a graph port declaration, in index order.
    pub fn port_decls(&self) -> (res: Vec<PortDecl>)
        ensures
            port_values(res@) == lv2_port_decl_values(self.ports@),
    {
        let mut out: Vec<PortDecl> = Vec::new();
        let n = self.ports.len();
        let mut i: usize = 0;
        while i < n
            invariant
                n == self.ports@.len(),
                i <= n,
                port_values(out@) == lv2_port_decl_values(self.ports@.take(i as int)),
            decreases n - i,
        {
            let decl = self.ports[i].to_port_decl();
            let ghost before = out@;
            out.push(decl);
            assert(self.ports@.take(i as int + 1) =~= self.ports@.take(i as int).push(
                self.ports@[i as int],
            ));
            assert(port_values(out@) =~= port_values(before).push(port_value(decl)));
            assert(lv2_port_decl_values(self.ports@.take(i as int + 1)) =~= lv2_port_decl_values(
                self.ports@.take(i as int),
            ).push(lv2_port_decl_value(self.ports@[i as int])));
            i = i + 1;
        }
        assert(self.ports@.take(n as int) == self.ports@);
        out
    }
}

impl<P: Clone> Lv2PluginDescriptor<P> {
    /// Converts this LV2 description to a format-neutral plugin descriptor
    /// whose stable id is the URI.
    pub fn to_plugin_descriptor(&self) -> (res: Result<PluginDescriptor<P>, Error>)
        ensures
            res is Ok <==> !is_blank_text(self.uri@) && !is_blank_text(self.name@),
            res matches Ok(d) ==> d.id.format == PluginFormat::Lv2 && d.id.stable_id@
                == self.uri@ && d.name@ == self.name@ && d.vendor@ == self.vendor@ && d.version@
                == self.version@ && port_values(d.ports@) == lv2_port_decl_values(self.ports@)
                && d.latency_frames == 0 && d.parameters@.len() == self.parameters@.len()
                && (forall|i: int|
                0 <= i < self.parameters@.len() ==> cloned::<P>(
                    self.parameters@[i],
                    #[trigger] d.parameters@[i],
                )),
            res matches Err(e) ==> e is Eval && (if is_blank_text(self.uri@) {
                e->Eval_0@ == "plugin stable id cannot be empty"@
            } else {
                e->Eval_0@ == "plugin name cannot be empty"@
            }),
    {
        let id = match PluginId::new(PluginFormat::Lv2, self.uri.clone()) {
            Ok(id) => id,
            Err(e) => return Err(e),
        };
        let mut descriptor: PluginDescriptor<P> = match PluginDescriptor::new(
            id,
            self.name.clone(),
            self.vendor.clone(),
            self.version.clone(),
        ) {
            Ok(d) => d,
            Err(e) => return Err(e),
        };
        descriptor.ports = self.port_decls();
        descriptor.parameters = self.parameters.clone();
        Ok(descriptor)
    }
}

/// The LV2 ports of the built-in gain plugin: stereo audio in and out and a
/// gain control, at indices 0, 1 and 2.
pub open spec fn lv2_gain_ports(ports: Seq<Lv2Port>) -> bool {
    &&& ports.len() == 3
    &&& ports[0].index == 0 && ports[0].symbol@ == "audio-in"@ && ports[0].name@ == "Audio Input"@
        && ports[0].kind == Lv2PortKind::Audio && ports[0].dir == PortDir::In
        && ports[0].channels == 2
    &&& ports[1].index == 1 && ports[1].symbol@ == "audio-out"@ && ports[1].name@
        == "Audio Output"@ && ports[1].kind == Lv2PortKind::Audio && ports[1].dir == PortDir::Out
        && ports[1].channels == 2
    &&& ports[2].index == 2 && ports[2].symbol@ == "gain"@ && ports[2].name@ == "Gain"@
        && ports[2].kind == Lv2PortKind::Control && ports[2].dir == PortDir::In
        && ports[2].channels == 1
}

/// Builds the built-in gain plugin's LV2 description, with `gain` as its
/// one parameter; it is always valid.
pub fn lv2_gain_lv2_descriptor<P>(gain: P) -> (res: Result<Lv2PluginDescriptor<P>, Error>)
    ensures
        res matches Ok(d) && d.uri@ == "https://sim.dev/lv2/gain"@ && d.name@ == "SIM LV2 Gain"@
            && d.vendor@ == PACKAGE_VENDOR@ && d.version@ == PACKAGE_VERSION@ && lv2_gain_ports(
            d.ports@,
        ) && d.parameters@ == seq![gain],
{
    proof {
        reveal_strlit("https://sim.dev/lv2/gain");
        reveal_strlit("SIM LV2 Gain");
        reveal_strlit("audio-in");
        reveal_strlit("audio-out");
        reveal_strlit("gain");
        reveal_strlit("Gain");
        reveal_strlit("Audio Input");
        reveal_strlit("Audio Output");
        lemma_not_blank("https://sim.dev/lv2/gain"@, 0);
        lemma_not_blank("SIM LV2 Gain"@, 0);
        lemma_not_blank("audio-in"@, 0);
        lemma_not_blank("audio-out"@, 0);
        lemma_not_blank("gain"@, 0);
        lemma_not_blank("Gain"@, 0);
        lemma_not_blank("Audio Input"@, 0);
        lemma_not_blank("Audio Output"@, 0);
    }
    let descriptor: Lv2PluginDescriptor<P> = match Lv2PluginDescriptor::new(
        String::from_str("https://sim.dev/lv2/gain"),
        String::from_str("SIM LV2 Gain"),
    ) {
        Ok(d) => d,
        Err(e) => return Err(e),
    };
    let audio_in = match Lv2Port::audio_input(0, String::from_str("audio-in"), 2) {
        Ok(p) => p,
        Err(e) => return Err(e),
    };
    let audio_out = match Lv2Port::audio_output(1, String::from_str("audio-out"), 2) {
        Ok(p) => p,
        Err(e) => return Err(e),
    };
    let control = match Lv2Port::control_input(2, String::from_str("gain"), String::from_str("Gain")) {
        Ok(p) => p,
        Err(e) => return Err(e),
    };
    let d = descriptor.with_port(audio_in).with_port(audio_out).with_port(control).with_parameter(gain);
    assert(d.parameters@ =~= seq![gain]);
    Ok(d)
}

/// Builds the built-in gain plugin's format-neutral descriptor: format
/// `lv2`, stable id the plugin URI, and the LV2 ports lowered to graph
/// ports.
pub fn lv2_gain_descriptor<P: Clone>(gain: P) -> (res: Result<PluginDescriptor<P>, Error>)
    ensures
        res matches Ok(d) && d.id.format == PluginFormat::Lv2 && d.id.stable_id@
            == "https://sim.dev/lv2/gain"@ && d.name@ == "SIM LV2 Gain"@ && port_values(d.ports@)
            == seq![
            ("audio-in"@, PortMedia::Audio, PortDir::In, 2u16),
            ("audio-out"@, PortMedia::Audio, PortDir::Out, 2u16),
            ("gain"@, PortMedia::Control, PortDir::In, 1u16),
        ] && d.parameters@.len() == 1 && cloned::<P>(gain, d.parameters@[0]),
{
    let lv2 = match lv2_gain_lv2_descriptor(gain) {
        Ok(d) => d,
        Err(e) => return Err(e),
    };
    let res = lv2.to_plugin_descriptor();
    proof {
        reveal_strlit("https://sim.dev/lv2/gain");
        reveal_strlit("SIM LV2 Gain");
        lemma_not_blank("https://sim.dev/lv2/gain"@, 0);
        lemma_not_blank("SIM LV2 Gain"@, 0);
        assert(lv2_port_decl_values(lv2.ports@) =~= seq![
            ("audio-in"@, PortMedia::Audio, PortDir::In, 2u16),
            ("audio-out"@, PortMedia::Audio, PortDir::Out, 2u16),
            ("gain"@, PortMedia::Control, PortDir::In, 1u16),
        ]);
    }
    res
}

/// Checks the plugin URI an LV2 state patch is addressed to: it must not
/// be blank.
pub fn check_state_patch_uri(uri: &str) -> (res: Result<(), Error>)
    ensures
        res is Ok <==> !is_blank_text(uri@),
        res matches Err(e) ==> e is Eval && e->Eval_0@ == "LV2 state patch plugin URI cannot be empty"@,
{
    if is_blank(uri) {
        return Err(Error::eval("LV2 state patch plugin URI cannot be empty"));
    }
    Ok(())
}

} // verus!
