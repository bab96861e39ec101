//! Plugin identities, load requests, graph port declarations and the
//! format-neutral plugin descriptor.
use vstd::prelude::*;
use vstd::string::StringExecFns;
use crate::error::Error;
use crate::stream_host::{first_index, lemma_first_index};
use crate::text::{is_blank, is_blank_text};
use crate::wire::{PluginFormat, PortDir, PortMedia, format_wire_name};

verus! {

/// The version string that descriptors built by this crate carry.
pub const PACKAGE_VERSION: &'static str = "0.1.0";

/// The vendor string that descriptors built by this crate carry.
pub const PACKAGE_VENDOR: &'static str = "sim";

/// A plugin's stable identity: its format paired with a backend-stable id.
#[derive(Clone, Debug, PartialEq, Eq)]
pub struct PluginId {
    /// The host backend format this id refers to.
    pub format: PluginFormat,
    /// The format-stable identifier string for the plugin.
    pub stable_id: String,
}

impl PluginId {
    /// Builds a plugin id, rejecting an empty or whitespace-only stable id.
    pub fn new(format: PluginFormat, stable_id: String) -> (res: Result<PluginId, Error>)
        ensures
            res is Ok <==> !is_blank_text(stable_id@),
            res matches Ok(id) ==> id.format == format && id.stable_id@ == stable_id@,
            res matches Err(e) ==> e is Eval && e->Eval_0@ == "plugin stable id cannot be empty"@,
    {
        if is_blank(stable_id.as_str()) {
            return Err(Error::eval("plugin stable id cannot be empty"));
        }
        Ok(PluginId { format, stable_id })
    }
}

/// A request to load a plugin through a specific backend format.
#[derive(Clone, Debug, PartialEq, Eq)]
pub struct PluginLoadSpec {
    format: PluginFormat,
    location: String,
}

impl PluginLoadSpec {
    /// The requested backend format.
    pub closed spec fn spec_format(&self) -> PluginFormat {
        self.format
    }

    /// The backend-specific load location.
    pub closed spec fn spec_location(&self) -> Seq<char> {
        self.location@
    }

    /// Builds a plugin load request, rejecting an empty or whitespace-only
    /// location.
    pub fn new(format: PluginFormat, location: String) -> (res: Result<PluginLoadSpec, Error>)
        ensures
            res is Ok <==> !is_blank_text(location@),
            res matches Ok(spec) ==> spec.spec_format() == format && spec.spec_location()
                == location@,
            res matches Err(e) ==> e is Eval && e->Eval_0@
                == "plugin load location cannot be empty"@,
    {
        if is_blank(location.as_str()) {
            return Err(Error::eval("plugin load location cannot be empty"));
        }
        Ok(PluginLoadSpec { format, location })
    }

    /// Returns the backend format requested by this load.
    pub fn format(&self) -> (res: PluginFormat)
        ensures
            res == self.spec_format(),
    {
        self.format
    }

    /// Returns the backend-specific load location.
    pub fn location(&self) -> (res: &str)
        ensures
            res@ == self.spec_location(),
    {
        self.location.as_str()
    }

    /// Requires a specific backend format for this load request.
    pub fn require_format(&self, expected: PluginFormat) -> (res: Result<(), Error>)
        ensures
            res is Ok <==> self.spec_format() == expected,
            res matches Err(e) ==> e matches Error::TypeMismatch { expected: x, found: f }
                && x@ == format_wire_name(expected) && f@ == format_wire_name(self.spec_format()),
    {
        if self.format == expected {
            Ok(())
        } else {
            Err(Error::TypeMismatch { expected: expected.as_str(), found: self.format.as_str() })
        }
    }
}

/// Checks the texts a parameter is declared with: its stable id and its
/// name must not be blank. (Its numeric range is checked where the values
/// are held.)
pub fn check_parameter_labels(stable_id: &str, name: &str) -> (res: Result<(), Error>)
    ensures
        res is Ok <==> !is_blank_text(stable_id@) && !is_blank_text(name@),
        res matches Err(e) ==> e is Eval && (if is_blank_text(stable_id@) {
            e->Eval_0@ == "parameter stable id cannot be empty"@
        } else {
            e->Eval_0@ == "parameter name cannot be empty"@
        }),
{
    if is_blank(stable_id) {
        return Err(Error::eval("parameter stable id cannot be empty"));
    }
    if is_blank(name) {
        return Err(Error::eval("parameter name cannot be empty"));
    }
    Ok(())
}

/// One declared port of a graph processor.
#[derive(Clone, Debug, PartialEq, Eq)]
pub struct PortDecl {
    /// The port name.
    pub name: String,
    /// The signal the port carries.
    pub media: PortMedia,
    /// Whether the port is an input or an output.
    pub dir: PortDir,
    /// The number of lanes (channels) the port exposes.
    pub channels: u16,
}

/// The value of a port declaration: name, medium, direction and lanes.
pub open spec fn port_value(port: PortDecl) -> (Seq<char>, PortMedia, PortDir, u16) {
    (port.name@, port.media, port.dir, port.channels)
}

/// The values of a sequence of port declarations.
pub open spec fn port_values(ports: Seq<PortDecl>) -> Seq<(Seq<char>, PortMedia, PortDir, u16)> {
    ports.map_values(|p: PortDecl| port_value(p))
}

impl PortDecl {
    /// Builds a port declaration.
    pub fn new(name: String, media: PortMedia, dir: PortDir, channels: u16) -> (res: PortDecl)
        ensures
            port_value(res) == (name@, media, dir, channels),
    {
        PortDecl { name, media, dir, channels }
    }

    /// Builds a port declaration from a borrowed name.
    pub fn named(name: &str, media: PortMedia, dir: PortDir, channels: u16) -> (res: PortDecl)
        ensures
            port_value(res) == (name@, media, dir, channels),
    {
        PortDecl { name: String::from_str(name), media, dir, channels }
    }
}

/// The standard port layout of an audio effect with `channels` lanes per
/// audio port.
pub open spec fn audio_effect_ports(channels: u16) -> Seq<(Seq<char>, PortMedia, PortDir, u16)> {
    seq![
        ("audio-in"@, PortMedia::Audio, PortDir::In, channels),
        ("audio-out"@, PortMedia::Audio, PortDir::Out, channels),
        ("events-in"@, PortMedia::Event, PortDir::In, 1u16),
        ("events-out"@, PortMedia::Event, PortDir::Out, 1u16),
    ]
}

/// A plugin's full static description: identity, metadata, ports,
/// parameters, and reported latency.
///
/// The parameter type `P` is the parameter descriptor of the embedding
/// host; the descriptor only stores and appends parameters.
#[derive(Clone, Debug, PartialEq)]
pub struct PluginDescriptor<P> {
    /// The plugin's stable identity.
    pub id: PluginId,
    /// The human-readable plugin name.
    pub name: String,
    /// The vendor string.
    pub vendor: String,
    /// The version string.
    pub version: String,
    /// The plugin's declared audio and event ports.
    pub ports: Vec<PortDecl>,
    /// The plugin's automatable parameters.
    pub parameters: Vec<P>,
    /// The reported processing latency in frames.
    pub latency_frames: u32,
}

impl<P> PluginDescriptor<P> {
    /// Builds a descriptor with no ports, no parameters, and zero latency.
    pub fn new(id: PluginId, name: String, vendor: String, version: String) -> (res: Result<
        PluginDescriptor<P>,
        Error,
    >)
        ensures
            res is Ok <==> !is_blank_text(name@),
            res matches Ok(d) ==> d.id == id && d.name@ == name@ && d.vendor@ == vendor@
                && d.version@ == version@ && d.ports@.len() == 0 && d.parameters@.len() == 0
                && d.latency_frames == 0,
            res matches Err(e) ==> e is Eval && e->Eval_0@ == "plugin name cannot be empty"@,
    {
        if is_blank(name.as_str()) {
            return Err(Error::eval("plugin name cannot be empty"));
        }
        Ok(
            PluginDescriptor {
                id,
                name,
                vendor,
                version,
                ports: Vec::new(),
                parameters: Vec::new(),
                latency_frames: 0,
            },
        )
    }

    /// Builds a stereo-capable audio-effect descriptor with the standard port
    /// layout: `channels`-wide `audio-in`/`audio-out` ports plus
    /// single-channel `events-in`/`events-out` ports, vendor `sim` and this
    /// crate's version.
    pub fn audio_effect(format: PluginFormat, stable_id: String, name: String, channels: u16) -> (res:
        Result<PluginDescriptor<P>, Error>)
        ensures
            res is Ok <==> !is_blank_text(stable_id@) && !is_blank_text(name@),
            res matches Ok(d) ==> d.id.format == format && d.id.stable_id@ == stable_id@
                && d.name@ == name@ && d.vendor@ == PACKAGE_VENDOR@ && d.version@
                == PACKAGE_VERSION@ && port_values(d.ports@) == audio_effect_ports(channels)
                && d.parameters@.len() == 0 && d.latency_frames == 0,
            res matches Err(e) ==> e is Eval && (if is_blank_text(stable_id@) {
                e->Eval_0@ == "plugin stable id cannot be empty"@
            } else {
                e->Eval_0@ == "plugin name cannot be empty"@
            }),
    {
        let id = match PluginId::new(format, stable_id) {
            Ok(id) => id,
            Err(e) => return Err(e),
        };
        let mut descriptor = match PluginDescriptor::new(
            id,
            name,
            String::from_str(PACKAGE_VENDOR),
            String::from_str(PACKAGE_VERSION),
        ) {
            Ok(d) => d,
            Err(e) => return Err(e),
        };
        descriptor.ports.push(PortDecl::named("audio-in", PortMedia::Audio, PortDir::In, channels));
        descriptor.ports.push(
            PortDecl::named("audio-out", PortMedia::Audio, PortDir::Out, channels),
        );
        descriptor.ports.push(PortDecl::named("events-in", PortMedia::Event, PortDir::In, 1));
        descriptor.ports.push(PortDecl::named("events-out", PortMedia::Event, PortDir::Out, 1));
        assert(port_values(descriptor.ports@) =~= audio_effect_ports(channels));
        Ok(descriptor)
    }

    /// Returns the descriptor with `parameter` appended to its parameter list.
    pub fn with_parameter(self, parameter: P) -> (res: PluginDescriptor<P>)
        ensures
            res.id == self.id && res.name == self.name && res.vendor == self.vendor && res.version
                == self.version && res.ports == self.ports && res.latency_frames
                == self.latency_frames,
            res.parameters@ == self.parameters@.push(parameter),
    {
        let mut descriptor = self;
        descriptor.parameters.push(parameter);
        descriptor
    }

    /// Returns the first parameter whose id is `id`, if any. The embedding
    /// host reads each parameter's id and passes them as `ids`, in the
    /// order of `parameters`.
    pub fn parameter(&self, ids: &[u32], id: u32) -> (res: Option<&P>)
        ensures
            match first_index(ids@, |x: u32| x == id) {
                Some(i) => if i < self.parameters@.len() {
                    res == Some(&self.parameters@[i])
                } else {
                    res is None
                },
                None => res is None,
            },
    {
        let mut i: usize = 0;
        while i < ids.len()
            invariant
                i <= ids@.len(),
                forall|j: int| 0 <= j < i ==> ids@[j] != id,
            decreases ids@.len() - i,
        {
            if ids[i] == id {
                proof {
                    lemma_first_index(ids@, |x: u32| x == id, i as int);
                }
                if i < self.parameters.len() {
                    return Some(&self.parameters[i]);
                } else {
                    return None;
                }
            }
            i = i + 1;
        }
        proof {
            lemma_first_index(ids@, |x: u32| x == id, 0);
        }
        None
    }
}

} // verus!
