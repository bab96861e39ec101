//! VST3-shaped buses, plugin descriptions, parameter-id maps and the
//! native-support scope record.
use vstd::prelude::*;
use vstd::string::StringExecFns;
use std::collections::BTreeMap;
use crate::descriptor::{
    PACKAGE_VENDOR, PACKAGE_VERSION, PluginDescriptor, PluginId, PortDecl, port_value, port_values,
};
use crate::error::Error;
use crate::text::{is_blank, is_blank_text, lemma_not_blank};
use crate::wire::{PluginFormat, PortDir, PortMedia};

verus! {

broadcast use {vstd::laws_cmp::group_laws_cmp, vstd::std_specs::btree::group_btree_axioms};

/// The medium carried by a VST3 bus.
#[derive(Clone, Copy, Debug, PartialEq, Eq, Structural)]
pub enum Vst3BusKind {
    /// An audio bus carrying sample lanes.
    Audio,
    /// An event bus carrying note and control events.
    Event,
}

/// The graph medium of a VST3 bus kind.
pub open spec fn vst3_kind_media(kind: Vst3BusKind) -> PortMedia {
    match kind {
        Vst3BusKind::Audio => PortMedia::Audio,
        Vst3BusKind::Event => PortMedia::Event,
    }
}

impl Vst3BusKind {
    /// Returns the graph medium of this bus kind.
    pub fn media(self) -> (res: PortMedia)
        ensures
            res == vst3_kind_media(self),
    {
        match self {
            Vst3BusKind::Audio => PortMedia::Audio,
            Vst3BusKind::Event => PortMedia::Event,
        }
    }
}

/// A VST3 input or output bus.
#[derive(Clone, Debug, PartialEq, Eq)]
pub struct Vst3Bus {
    /// The display name of the bus.
    pub name: String,
    /// Whether the bus carries audio or events.
    pub kind: Vst3BusKind,
    /// The data direction (input or output) of the bus.
    pub dir: PortDir,
    /// The number of graph lanes (channels) the bus exposes.
    pub channels: u16,
}

/// The graph port declaration a VST3 bus lowers to.
pub open spec fn vst3_bus_decl_value(bus: Vst3Bus) -> (Seq<char>, PortMedia, PortDir, u16) {
    (bus.name@, vst3_kind_media(bus.kind), bus.dir, bus.channels)
}

/// The graph port declarations a sequence of VST3 buses lowers to.
pub open spec fn vst3_bus_decl_values(buses: Seq<Vst3Bus>) -> Seq<
    (Seq<char>, PortMedia, PortDir, u16),
> {
    buses.map_values(|b: Vst3Bus| vst3_bus_decl_value(b))
}

/// The message a VST3 bus constructor refuses its arguments with.
pub open spec fn vst3_bus_refusal(name: Seq<char>) -> Seq<char> {
    if is_blank_text(name) {
        "VST3 bus name cannot be empty"@
    } else {
        "VST3 bus "@ + name + " must expose at least one graph lane"@
    }
}

impl Vst3Bus {
    /// Builds a bus, validating that `name` is not blank and `channels` is
    /// non-zero.
    pub fn new(name: String, kind: Vst3BusKind, dir: PortDir, channels: u16) -> (res: Result<
        Vst3Bus,
        Error,
    >)
        ensures
            res is Ok <==> !is_blank_text(name@) && channels > 0,
            res matches Ok(b) ==> b.name@ == name@ && b.kind == kind && b.dir == dir && b.channels
                == channels,
            res matches Err(e) ==> e is Eval && e->Eval_0@ == vst3_bus_refusal(name@),
    {
        if is_blank(name.as_str()) {
            return Err(Error::eval("VST3 bus name cannot be empty"));
        }
        if channels == 0 {
            return Err(Error::eval3("VST3 bus ", name.as_str(), " must expose at least one graph lane"));
        }
        Ok(Vst3Bus { name, kind, dir, channels })
    }

    /// Builds an audio input bus named `name` with `channels` lanes.
    pub fn audio_input(name: String, channels: u16) -> (res: Result<Vst3Bus, Error>)
        ensures
            res is Ok <==> !is_blank_text(name@) && channels > 0,
            res matches Ok(b) ==> b.name@ == name@ && b.kind == Vst3BusKind::Audio && b.dir
                == PortDir::In && b.channels == channels,
            res matches Err(e) ==> e is Eval && e->Eval_0@ == vst3_bus_refusal(name@),
    {
        Vst3Bus::new(name, Vst3BusKind::Audio, PortDir::In, channels)
    }

    /// Builds an audio output bus named `name` with `channels` lanes.
    pub fn audio_output(name: String, channels: u16) -> (res: Result<Vst3Bus, Error>)
        ensures
            res is Ok <==> !is_blank_text(name@) && channels > 0,
            res matches Ok(b) ==> b.name@ == name@ && b.kind == Vst3BusKind::Audio && b.dir
                == PortDir::Out && b.channels == channels,
            res matches Err(e) ==> e is Eval && e->Eval_0@ == vst3_bus_refusal(name@),
    {
        Vst3Bus::new(name, Vst3BusKind::Audio, PortDir::Out, channels)
    }

    /// Builds a single-lane event input bus named `name`.
    pub fn event_input(name: String) -> (res: Result<Vst3Bus, Error>)
        ensures
            res is Ok <==> !is_blank_text(name@),
            res matches Ok(b) ==> b.name@ == name@ && b.kind == Vst3BusKind::Event && b.dir
                == PortDir::In && b.channels == 1,
            res matches Err(e) ==> e is Eval && e->Eval_0@ == vst3_bus_refusal(name@),
    {
        Vst3Bus::new(name, Vst3BusKind::Event, PortDir::In, 1)
    }

    /// Lowers this bus into a graph port declaration with matching media,
    /// direction, and lane count.
    pub fn to_port_decl(&self) -> (res: PortDecl)
        ensures
            port_value(res) == vst3_bus_decl_value(*self),
    {
        PortDecl::new(self.name.clone(), self.kind.media(), self.dir, self.channels)
    }
}

/// Checks the texts a VST3 parameter is declared with: its stable id and
/// its title must not be blank. (Its numeric range is checked where the
/// values are held.)
pub fn check_vst3_param_labels(stable_id: &str, title: &str) -> (res: Result<(), Error>)
    ensures
        res is Ok <==> !is_blank_text(stable_id@) && !is_blank_text(title@),
        res matches Err(e) ==> e is Eval && (if is_blank_text(stable_id@) {
            e->Eval_0@ == "VST3 parameter stable id cannot be empty"@
        } else {
            e->Eval_0@ == "VST3 parameter title cannot be empty"@
        }),
{
    if is_blank(stable_id) {
        return Err(Error::eval("VST3 parameter stable id cannot be empty"));
    }
    if is_blank(title) {
        return Err(Error::eval("VST3 parameter title cannot be empty"));
    }
    Ok(())
}

/// A VST3-shaped plugin descriptor: class identity, bus layout and
/// parameter set.
#[derive(Clone, Debug, PartialEq)]
pub struct Vst3PluginDescriptor<P> {
    /// The VST3 class id identifying the plugin.
    pub class_id: String,
    /// The plugin display name.
    pub name: String,
    /// The vendor name (defaults to `sim`).
    pub vendor: String,
    /// The plugin version (defaults to this crate's version).
    pub version: String,
    /// The declared input and output buses.
    pub buses: Vec<Vst3Bus>,
    /// The declared parameters.
    pub parameters: Vec<P>,
}

impl<P> Vst3PluginDescriptor<P> {
    /// Builds an empty descriptor with the given `class_id` and `name`,
    /// vendor `sim` and this crate's version.
    pub fn new(class_id: String, name: String) -> (res: Result<Vst3PluginDescriptor<P>, Error>)
        ensures
            res is Ok <==> !is_blank_text(class_id@) && !is_blank_text(name@),
            res matches Ok(d) ==> d.class_id@ == class_id@ && d.name@ == name@ && d.vendor@
                == PACKAGE_VENDOR@ && d.version@ == PACKAGE_VERSION@ && d.buses@.len() == 0
                && d.parameters@.len() == 0,
            res matches Err(e) ==> e is Eval && (if is_blank_text(class_id@) {
                e->Eval_0@ == "VST3 class id cannot be empty"@
            } else {
                e->Eval_0@ == "VST3 plugin name cannot be empty"@
            }),
    {
        if is_blank(class_id.as_str()) {
            return Err(Error::eval("VST3 class id cannot be empty"));
        }
        if is_blank(name.as_str()) {
            return Err(Error::eval("VST3 plugin name cannot be empty"));
        }
        Ok(
            Vst3PluginDescriptor {
                class_id,
                name,
                vendor: String::from_str(PACKAGE_VENDOR),
                version: String::from_str(PACKAGE_VERSION),
                buses: Vec::new(),
                parameters: Vec::new(),
            },
        )
    }

    /// Appends `bus` to the descriptor and returns it.
    pub fn with_bus(self, bus: Vst3Bus) -> (res: Vst3PluginDescriptor<P>)
        ensures
            res.class_id == self.class_id && res.name == self.name && res.vendor == self.vendor
                && res.version == self.version && res.parameters == self.parameters,
            res.buses@ == self.buses@.push(bus),
    {
        let mut d = self;
        d.buses.push(bus);
        d
    }

    /// Appends `parameter` to the descriptor and returns it.
    pub fn with_parameter(self, parameter: P) -> (res: Vst3PluginDescriptor<P>)
        ensures
            res.class_id == self.class_id && res.name == self.name && res.vendor == self.vendor
                && res.version == self.version && res.buses == self.buses,
            res.parameters@ == self.parameters@.push(parameter),
    {
        let mut d = self;
        d.parameters.push(parameter);
        d
    }

    /// Lowers every declared bus into a graph port declaration.
    pub fn port_decls(&self) -> (res: Vec<PortDecl>)
        ensures
            port_values(res@) == vst3_bus_decl_values(self.buses@),
    {
        let mut out: Vec<PortDecl> = Vec::new();
        let n = self.buses.len();
        let mut i: usize = 0;
        while i < n
            invariant
                n == self.buses@.len(),
                i <= n,
                port_values(out@) == vst3_bus_decl_values(self.buses@.take(i as int)),
            decreases n - i,
        {
            let decl = self.buses[i].to_port_decl();
            let ghost before = out@;
            out.push(decl);
            assert(self.buses@.take(i as int + 1) =~= self.buses@.take(i as int).push(
                self.buses@[i as int],
            ));
            assert(port_values(out@) =~= port_values(before).push(port_value(decl)));
            assert(vst3_bus_decl_values(self.buses@.take(i as int + 1)) =~= vst3_bus_decl_values(
                self.buses@.take(i as int),
            ).push(vst3_bus_decl_value(self.buses@[i as int])));
            i = i + 1;
        }
        assert(self.buses@.take(n as int) == self.buses@);
        out
    }
}

impl<P: Clone> Vst3PluginDescriptor<P> {
    /// Lowers this description to a format-neutral plugin descriptor whose
    /// stable id is the class id; the parameters are carried over as they
    /// are.
    pub fn to_plugin_descriptor(&self) -> (res: Result<PluginDescriptor<P>, Error>)
        ensures
            res is Ok <==> !is_blank_text(self.class_id@) && !is_blank_text(self.name@),
            res matches Ok(d) ==> d.id.format == PluginFormat::Vst3 && d.id.stable_id@
                == self.class_id@ && d.name@ == self.name@ && d.vendor@ == self.vendor@
                && d.version@ == self.version@ && port_values(d.ports@) == vst3_bus_decl_values(
                self.buses@,
            ) && d.latency_frames == 0 && d.parameters@.len() == self.parameters@.len() && (
            forall|i: int|
                0 <= i < self.parameters@.len() ==> cloned::<P>(
                    self.parameters@[i],
                    #[trigger] d.parameters@[i],
                )),
            res matches Err(e) ==> e is Eval && (if is_blank_text(self.class_id@) {
                e->Eval_0@ == "plugin stable id cannot be empty"@
            } else {
                e->Eval_0@ == "plugin name cannot be empty"@
            }),
    {
        let id = match PluginId::new(PluginFormat::Vst3, self.class_id.clone()) {
            Ok(id) => id,
            Err(e) => return Err(e),
        };
        let mut descriptor: PluginDescriptor<P> = match PluginDescriptor::new(
            id,
            self.name.clone(),
            self.vendor.clone(),
            self.version.clone(),
        ) {
            Ok(d) => d,
            Err(e) => return Err(e),
        };
        descriptor.ports = self.port_decls();
        descriptor.parameters = self.parameters.clone();
        Ok(descriptor)
    }
}

/// The buses of the built-in VST3 gain fixture: stereo audio in and out and
/// an event input.
pub open spec fn vst3_gain_buses(buses: Seq<Vst3Bus>) -> bool {
    &&& buses.len() == 3
    &&& buses[0].name@ == "audio-in"@ && buses[0].kind == Vst3BusKind::Audio && buses[0].dir
        == PortDir::In && buses[0].channels == 2
    &&& buses[1].name@ == "audio-out"@ && buses[1].kind == Vst3BusKind::Audio && buses[1].dir
        == PortDir::Out && buses[1].channels == 2
    &&& buses[2].name@ == "events-in"@ && buses[2].kind == Vst3BusKind::Event && buses[2].dir
        == PortDir::In && buses[2].channels == 1
}

/// Builds the built-in VST3 gain fixture, with `gain` as its one
/// parameter; it is always valid.
pub fn vst3_gain_vst3_descriptor<P>(gain: P) -> (res: Result<Vst3PluginDescriptor<P>, Error>)
    ensures
        res matches Ok(d) && d.class_id@ == "53494d2d4741494e2d56535433000001"@ && d.name@
            == "SIM VST3 Gain"@ && d.vendor@ == PACKAGE_VENDOR@ && d.version@ == PACKAGE_VERSION@
            && vst3_gain_buses(d.buses@) && d.parameters@ == seq![gain],
{
    proof {
        reveal_strlit("53494d2d4741494e2d56535433000001");
        reveal_strlit("SIM VST3 Gain");
        reveal_strlit("audio-in");
        reveal_strlit("audio-out");
        reveal_strlit("events-in");
        lemma_not_blank("53494d2d4741494e2d56535433000001"@, 0);
        lemma_not_blank("SIM VST3 Gain"@, 0);
        lemma_not_blank("audio-in"@, 0);
        lemma_not_blank("audio-out"@, 0);
        lemma_not_blank("events-in"@, 0);
    }
    let descriptor: Vst3PluginDescriptor<P> = match Vst3PluginDescriptor::new(
        String::from_str("53494d2d4741494e2d56535433000001"),
        String::from_str("SIM VST3 Gain"),
    ) {
        Ok(d) => d,
        Err(e) => return Err(e),
    };
    let audio_in = match Vst3Bus::audio_input(String::from_str("audio-in"), 2) {
        Ok(b) => b,
        Err(e) => return Err(e),
    };
    let audio_out = match Vst3Bus::audio_output(String::from_str("audio-out"), 2) {
        Ok(b) => b,
        Err(e) => return Err(e),
    };
    let events = match Vst3Bus::event_input(String::from_str("events-in")) {
        Ok(b) => b,
        Err(e) => return Err(e),
    };
    let d = descriptor.with_bus(audio_in).with_bus(audio_out).with_bus(events).with_parameter(gain);
    assert(d.parameters@ =~= seq![gain]);
    Ok(d)
}

/// Builds the gain fixture as a format-neutral plugin descriptor: format
/// `vst3`, stable id the class id, and the buses lowered to graph ports.
pub fn vst3_gain_descriptor<P: Clone>(gain: P) -> (res: Result<PluginDescriptor<P>, Error>)
    ensures
        res matches Ok(d) && d.id.format == PluginFormat::Vst3 && d.id.stable_id@
            == "53494d2d4741494e2d56535433000001"@ && d.name@ == "SIM VST3 Gain"@ && port_values(
            d.ports@,
        ) == seq![
            ("audio-in"@, PortMedia::Audio, PortDir::In, 2u16),
            ("audio-out"@, PortMedia::Audio, PortDir::Out, 2u16),
            ("events-in"@, PortMedia::Event, PortDir::In, 1u16),
        ] && d.parameters@.len() == 1 && cloned::<P>(gain, d.parameters@[0]),
{
    let vst3 = match vst3_gain_vst3_descriptor(gain) {
        Ok(d) => d,
        Err(e) => return Err(e),
    };
    let res = vst3.to_plugin_descriptor();
    proof {
        reveal_strlit("53494d2d4741494e2d56535433000001");
        reveal_strlit("SIM VST3 Gain");
        lemma_not_blank("53494d2d4741494e2d56535433000001"@, 0);
        lemma_not_blank("SIM VST3 Gain"@, 0);
        assert(vst3_bus_decl_values(vst3.buses@) =~= seq![
            ("audio-in"@, PortMedia::Audio, PortDir::In, 2u16),
            ("audio-out"@, PortMedia::Audio, PortDir::Out, 2u16),
            ("events-in"@, PortMedia::Event, PortDir::In, 1u16),
        ]);
    }
    res
}

/// A mapping from host-facing VST3 parameter ids to SIM parameter ids;
/// unmapped ids pass through unchanged.
#[derive(Clone, Debug, PartialEq, Eq)]
pub struct Vst3ParamMap {
    vst3_to_sim: BTreeMap<u32, u32>,
}

/// The SIM parameter id a map assigns to a VST3 id: the mapped id, or the
/// VST3 id itself when it is unmapped.
pub open spec fn sim_param_of(map: Map<u32, u32>, vst3_param_id: u32) -> u32 {
    if map.contains_key(vst3_param_id) {
        map[vst3_param_id]
    } else {
        vst3_param_id
    }
}

impl View for Vst3ParamMap {
    type V = Map<u32, u32>;

    closed spec fn view(&self) -> Map<u32, u32> {
        self.vst3_to_sim@
    }
}

impl Vst3ParamMap {
    /// Creates an empty map (every id passes through unchanged).
    pub fn new() -> (res: Vst3ParamMap)
        ensures
            res@ == Map::<u32, u32>::empty(),
    {
        Vst3ParamMap { vst3_to_sim: BTreeMap::new() }
    }

    /// Creates a map where each id in `ids` maps to itself.
    pub fn identity(ids: &[u32]) -> (res: Vst3ParamMap)
        ensures
            forall|k: u32| #[trigger] res@.contains_key(k) <==> ids@.contains(k),
            forall|k: u32| #[trigger] res@.contains_key(k) ==> res@[k] == k,
    {
        let mut map = Vst3ParamMap::new();
        let n = ids.len();
        let mut i: usize = 0;
        while i < n
            invariant
                n == ids@.len(),
                i <= n,
                forall|k: u32| #[trigger]
                    map@.contains_key(k) <==> ids@.take(i as int).contains(k),
                forall|k: u32| #[trigger] map@.contains_key(k) ==> map@[k] == k,
            decreases n - i,
        {
            let id = ids[i];
            map.insert(id, id);
            assert(ids@.take(i as int + 1) =~= ids@.take(i as int).push(id));
            assert forall|k: u32| #[trigger]
                map@.contains_key(k) <==> ids@.take(i as int + 1).contains(k) by {
                if ids@.take(i as int + 1).contains(k) && k != id {
                    let j = choose|j: int|
                        0 <= j < i + 1 && #[trigger] ids@.take(i as int + 1)[j] == k;
                    assert(ids@.take(i as int)[j] == k);
                }
                if ids@.take(i as int).contains(k) {
                    let j = choose|j: int| 0 <= j < i && #[trigger] ids@.take(i as int)[j] == k;
                    assert(ids@.take(i as int + 1)[j] == k);
                }
                if k == id {
                    assert(ids@.take(i as int + 1)[i as int] == k);
                }
            }
            i = i + 1;
        }
        assert(ids@.take(n as int) =~= ids@);
        map
    }

    /// Records that `vst3_param_id` maps to `sim_param_id`.
    pub fn insert(&mut self, vst3_param_id: u32, sim_param_id: u32)
        ensures
            final(self)@ == old(self)@.insert(vst3_param_id, sim_param_id),
    {
        self.vst3_to_sim.insert(vst3_param_id, sim_param_id);
    }

    /// Returns the SIM parameter id for `vst3_param_id`, or the input id
    /// itself when it is unmapped.
    pub fn sim_param_for(&self, vst3_param_id: u32) -> (res: u32)
        ensures
            res == sim_param_of(self@, vst3_param_id),
    {
        match self.vst3_to_sim.get(&vst3_param_id) {
            Some(id) => *id,
            None => vst3_param_id,
        }
    }
}

impl Default for Vst3ParamMap {
    fn default() -> (res: Vst3ParamMap)
        ensures
            res@ == Map::<u32, u32>::empty(),
    {
        Vst3ParamMap::new()
    }
}

/// An identity map translates every parameter id to itself, mapped or not.
pub proof fn lemma_identity_map_is_identity(map: Map<u32, u32>, ids: Seq<u32>, id: u32)
    requires
        forall|k: u32| #[trigger] map.contains_key(k) <==> ids.contains(k),
        forall|k: u32| #[trigger] map.contains_key(k) ==> map[k] == k,
    ensures
        sim_param_of(map, id) == id,
{
}

/// After recording `vst3 -> sim`, the map translates `vst3` to `sim` and
/// every other id as before.
pub proof fn lemma_insert_then_lookup(map: Map<u32, u32>, vst3: u32, sim: u32, other: u32)
    ensures
        sim_param_of(map.insert(vst3, sim), vst3) == sim,
        other != vst3 ==> sim_param_of(map.insert(vst3, sim), other) == sim_param_of(map, other),
{
}

/// The map that recording each `(vst3, sim)` pair of `inserts`, in order,
/// builds from an empty map.
pub open spec fn map_after_inserts(inserts: Seq<(u32, u32)>) -> Map<u32, u32>
    decreases inserts.len(),
{
    if inserts.len() == 0 {
        Map::empty()
    } else {
        map_after_inserts(inserts.drop_last()).insert(inserts.last().0, inserts.last().1)
    }
}

/// The SIM id last recorded for `vst3` among `inserts`, if any.
pub open spec fn last_recorded(inserts: Seq<(u32, u32)>, vst3: u32) -> Option<u32>
    decreases inserts.len(),
{
    if inserts.len() == 0 {
        None
    } else if inserts.last().0 == vst3 {
        Some(inserts.last().1)
    } else {
        last_recorded(inserts.drop_last(), vst3)
    }
}

/// After any number of recordings into a new map, the map translates an id
/// to the SIM id last recorded for it, and an id never recorded to itself;
/// in particular the new map is the identity.
pub proof fn lemma_inserts_then_lookup(inserts: Seq<(u32, u32)>, vst3: u32)
    ensures
        sim_param_of(map_after_inserts(inserts), vst3) == match last_recorded(inserts, vst3) {
            Some(sim) => sim,
            None => vst3,
        },
    decreases inserts.len(),
{
    if inserts.len() > 0 {
        lemma_inserts_then_lookup(inserts.drop_last(), vst3);
    }
}

/// The current stance on native VST3 plugin hosting.
#[derive(Clone, Copy, Debug, PartialEq, Eq, Structural)]
pub enum Vst3HostingDecision {
    /// Native hosting is deferred pending external approvals.
    Deferred,
}

/// A record of what VST3 support is and is not in scope.
#[derive(Clone, Debug, PartialEq, Eq)]
pub struct Vst3ScopeDecision {
    /// The reason native bundle export is unavailable; empty when supported.
    pub native_export_blocker: String,
    /// The current native-hosting decision.
    pub hosting: Vst3HostingDecision,
    /// The rationale behind the hosting decision.
    pub hosting_reason: String,
    /// The external SDK and tooling requirements native support would need.
    pub sdk_requirements: Vec<String>,
}

impl Vst3ScopeDecision {
    /// Returns `true` when native bundle export is supported (no blocker set).
    pub fn native_export_supported(&self) -> (res: bool)
        ensures
            res == (self.native_export_blocker@.len() == 0),
    {
        self.native_export_blocker.as_str().is_empty()
    }
}

/// The blocker text of the current VST3 scope.
pub open spec fn vst3_export_blocker_text() -> Seq<char> {
    "native .vst3 bundle export needs the Steinberg VST3 SDK, platform bundle layout, and host validator/signing policy outside this repo"@
}

/// The hosting rationale of the current VST3 scope.
pub open spec fn vst3_hosting_reason_text() -> Seq<char> {
    "native VST3 hosting is deferred until SDK licensing, binary loading, and host lifecycle ownership are approved"@
}

/// Returns the current VST3 scope decision: native export and hosting are
/// deferred, and the record names the blockers and SDK requirements.
pub fn current_vst3_scope() -> (res: Vst3ScopeDecision)
    ensures
        res.native_export_blocker@ == vst3_export_blocker_text(),
        res.hosting == Vst3HostingDecision::Deferred,
        res.hosting_reason@ == vst3_hosting_reason_text(),
        res.sdk_requirements@.len() == 3,
        res.sdk_requirements@[0]@ == "Steinberg VST3 SDK"@,
        res.sdk_requirements@[1]@ == "platform .vst3 bundle layout"@,
        res.sdk_requirements@[2]@ == "host validator or smoke host"@,
{
    let mut sdk_requirements: Vec<String> = Vec::new();
    sdk_requirements.push(String::from_str("Steinberg VST3 SDK"));
    sdk_requirements.push(String::from_str("platform .vst3 bundle layout"));
    sdk_requirements.push(String::from_str("host validator or smoke host"));
    Vst3ScopeDecision {
        native_export_blocker: String::from_str(
            "native .vst3 bundle export needs the Steinberg VST3 SDK, platform bundle layout, and host validator/signing policy outside this repo",
        ),
        hosting: Vst3HostingDecision::Deferred,
        hosting_reason: String::from_str(
            "native VST3 hosting is deferred until SDK licensing, binary loading, and host lifecycle ownership are approved",
        ),
        sdk_requirements,
    }
}

/// The current scope reports native export as unsupported: its blocker is
/// not empty.
pub proof fn lemma_current_scope_blocks_native_export()
    ensures
        vst3_export_blocker_text().len() != 0,
{
    reveal_strlit(
        "native .vst3 bundle export needs the Steinberg VST3 SDK, platform bundle layout, and host validator/signing policy outside this repo",
    );
}

} // verus!
