//! Plugin formats, parameter kinds and graph port media/directions with the
//! lowercase wire names under which descriptors encode them.
use vstd::prelude::*;
use crate::error::Error;
use crate::text::text_eq;

verus! {

/// The host backend format a plugin is loaded through.
#[derive(Clone, Copy, Debug, PartialEq, Eq, Structural)]
pub enum PluginFormat {
    /// The CLAP plugin format.
    Clap,
    /// The LV2 plugin format.
    Lv2,
    /// The VST3 plugin format.
    Vst3,
    /// A WebAssembly-hosted plugin.
    Wasm,
    /// The native SIM plugin format.
    Sim,
}

/// The value domain a parameter exposes.
#[derive(Clone, Copy, Debug, PartialEq, Eq, Structural)]
pub enum ParameterKind {
    /// A continuous floating-point parameter.
    Float,
    /// A discrete integer-valued parameter.
    Integer,
    /// A two-state on/off parameter.
    Boolean,
}

/// The signal a graph port carries.
#[derive(Clone, Copy, Debug, PartialEq, Eq, Structural)]
pub enum PortMedia {
    /// Sample lanes.
    Audio,
    /// Control values.
    Control,
    /// Note and control events.
    Event,
}

/// The direction of a graph port.
#[derive(Clone, Copy, Debug, PartialEq, Eq, Structural)]
pub enum PortDir {
    /// An input port.
    In,
    /// An output port.
    Out,
}

/// The wire name of a plugin format.
pub open spec fn format_wire_name(format: PluginFormat) -> Seq<char> {
    match format {
        PluginFormat::Clap => "clap"@,
        PluginFormat::Lv2 => "lv2"@,
        PluginFormat::Vst3 => "vst3"@,
        PluginFormat::Wasm => "wasm"@,
        PluginFormat::Sim => "sim"@,
    }
}

/// The plugin format a wire name denotes, if any.
pub open spec fn format_from_wire(text: Seq<char>) -> Option<PluginFormat> {
    if text == "clap"@ {
        Some(PluginFormat::Clap)
    } else if text == "lv2"@ {
        Some(PluginFormat::Lv2)
    } else if text == "vst3"@ {
        Some(PluginFormat::Vst3)
    } else if text == "wasm"@ {
        Some(PluginFormat::Wasm)
    } else if text == "sim"@ {
        Some(PluginFormat::Sim)
    } else {
        None
    }
}

/// The wire name of a parameter kind.
pub open spec fn parameter_kind_wire_name(kind: ParameterKind) -> Seq<char> {
    match kind {
        ParameterKind::Float => "float"@,
        ParameterKind::Integer => "integer"@,
        ParameterKind::Boolean => "boolean"@,
    }
}

/// The parameter kind a wire name denotes, if any.
pub open spec fn parameter_kind_from_wire(text: Seq<char>) -> Option<ParameterKind> {
    if text == "float"@ {
        Some(ParameterKind::Float)
    } else if text == "integer"@ {
        Some(ParameterKind::Integer)
    } else if text == "boolean"@ {
        Some(ParameterKind::Boolean)
    } else {
        None
    }
}

/// The wire name of a port medium.
pub open spec fn port_media_wire_name(media: PortMedia) -> Seq<char> {
    match media {
        PortMedia::Audio => "audio"@,
        PortMedia::Control => "control"@,
        PortMedia::Event => "event"@,
    }
}

/// The port medium a wire name denotes, if any.
pub open spec fn port_media_from_wire(text: Seq<char>) -> Option<PortMedia> {
    if text == "audio"@ {
        Some(PortMedia::Audio)
    } else if text == "control"@ {
        Some(PortMedia::Control)
    } else if text == "event"@ {
        Some(PortMedia::Event)
    } else {
        None
    }
}

/// The wire name of a port direction.
pub open spec fn port_dir_wire_name(dir: PortDir) -> Seq<char> {
    match dir {
        PortDir::In => "in"@,
        PortDir::Out => "out"@,
    }
}

/// The port direction a wire name denotes, if any.
pub open spec fn port_dir_from_wire(text: Seq<char>) -> Option<PortDir> {
    if text == "in"@ {
        Some(PortDir::In)
    } else if text == "out"@ {
        Some(PortDir::Out)
    } else {
        None
    }
}

impl PluginFormat {
    /// Returns the lowercase wire name for this format.
    pub fn as_str(self) -> (res: &'static str)
        ensures
            res@ == format_wire_name(self),
    {
        match self {
            PluginFormat::Clap => "clap",
            PluginFormat::Lv2 => "lv2",
            PluginFormat::Vst3 => "vst3",
            PluginFormat::Wasm => "wasm",
            PluginFormat::Sim => "sim",
        }
    }
}

/// Parses a plugin format from its wire name.
pub fn plugin_format(text: &str) -> (res: Result<PluginFormat, Error>)
    ensures
        format_from_wire(text@) matches Some(f) ==> res == Ok::<PluginFormat, Error>(f),
        format_from_wire(text@) is None ==> (res matches Err(e) && e is Eval
            && e->Eval_0@ == "unknown plugin format: "@ + text@),
{
    if text_eq(text, "clap") {
        Ok(PluginFormat::Clap)
    } else if text_eq(text, "lv2") {
        Ok(PluginFormat::Lv2)
    } else if text_eq(text, "vst3") {
        Ok(PluginFormat::Vst3)
    } else if text_eq(text, "wasm") {
        Ok(PluginFormat::Wasm)
    } else if text_eq(text, "sim") {
        Ok(PluginFormat::Sim)
    } else {
        Err(Error::eval2("unknown plugin format: ", text))
    }
}

/// Returns the lowercase wire name of a parameter kind.
pub fn parameter_kind_name(kind: ParameterKind) -> (res: &'static str)
    ensures
        res@ == parameter_kind_wire_name(kind),
{
    match kind {
        ParameterKind::Float => "float",
        ParameterKind::Integer => "integer",
        ParameterKind::Boolean => "boolean",
    }
}

/// Parses a parameter kind from its wire name.
pub fn parameter_kind(text: &str) -> (res: Result<ParameterKind, Error>)
    ensures
        parameter_kind_from_wire(text@) matches Some(k) ==> res == Ok::<ParameterKind, Error>(k),
        parameter_kind_from_wire(text@) is None ==> (res matches Err(e) && e is Eval
            && e->Eval_0@ == "unknown plugin parameter kind: "@ + text@),
{
    if text_eq(text, "float") {
        Ok(ParameterKind::Float)
    } else if text_eq(text, "integer") {
        Ok(ParameterKind::Integer)
    } else if text_eq(text, "boolean") {
        Ok(ParameterKind::Boolean)
    } else {
        Err(Error::eval2("unknown plugin parameter kind: ", text))
    }
}

/// Returns the lowercase wire name of a port medium.
pub fn port_media_name(media: PortMedia) -> (res: &'static str)
    ensures
        res@ == port_media_wire_name(media),
{
    match media {
        PortMedia::Audio => "audio",
        PortMedia::Control => "control",
        PortMedia::Event => "event",
    }
}

/// Parses a port medium from its wire name.
pub fn port_media(text: &str) -> (res: Result<PortMedia, Error>)
    ensures
        port_media_from_wire(text@) matches Some(m) ==> res == Ok::<PortMedia, Error>(m),
        port_media_from_wire(text@) is None ==> (res matches Err(e) && e is Eval
            && e->Eval_0@ == "unknown plugin port media: "@ + text@),
{
    if text_eq(text, "audio") {
        Ok(PortMedia::Audio)
    } else if text_eq(text, "control") {
        Ok(PortMedia::Control)
    } else if text_eq(text, "event") {
        Ok(PortMedia::Event)
    } else {
        Err(Error::eval2("unknown plugin port media: ", text))
    }
}

/// Returns the lowercase wire name of a port direction.
pub fn port_dir_name(dir: PortDir) -> (res: &'static str)
    ensures
        res@ == port_dir_wire_name(dir),
{
    match dir {
        PortDir::In => "in",
        PortDir::Out => "out",
    }
}

/// Parses a port direction from its wire name.
pub fn port_dir(text: &str) -> (res: Result<PortDir, Error>)
    ensures
        port_dir_from_wire(text@) matches Some(d) ==> res == Ok::<PortDir, Error>(d),
        port_dir_from_wire(text@) is None ==> (res matches Err(e) && e is Eval
            && e->Eval_0@ == "unknown plugin port direction: "@ + text@),
{
    if text_eq(text, "in") {
        Ok(PortDir::In)
    } else if text_eq(text, "out") {
        Ok(PortDir::Out)
    } else {
        Err(Error::eval2("unknown plugin port direction: ", text))
    }
}

/// Decoding the wire name of any plugin format gives that format back, so
/// the five wire names are also pairwise distinct.
pub proof fn lemma_format_wire_round_trip(format: PluginFormat)
    ensures
        format_from_wire(format_wire_name(format)) == Some(format),
{
    reveal_strlit("clap");
    reveal_strlit("lv2");
    reveal_strlit("vst3");
    reveal_strlit("wasm");
    reveal_strlit("sim");
    assert("clap"@[0] == 'c' && "lv2"@[0] == 'l' && "vst3"@[0] == 'v' && "wasm"@[0] == 'w'
        && "sim"@[0] == 's');
}

/// Encoding the format a wire name decodes to gives that wire name back.
pub proof fn lemma_format_wire_canonical(text: Seq<char>)
    ensures
        format_from_wire(text) matches Some(f) ==> format_wire_name(f) == text,
{
}

/// Decoding the wire name of any parameter kind gives that kind back.
pub proof fn lemma_parameter_kind_wire_round_trip(kind: ParameterKind)
    ensures
        parameter_kind_from_wire(parameter_kind_wire_name(kind)) == Some(kind),
{
    reveal_strlit("float");
    reveal_strlit("integer");
    reveal_strlit("boolean");
    assert("float"@[0] == 'f' && "integer"@[0] == 'i' && "boolean"@[0] == 'b');
}

/// Decoding the wire name of any port medium gives that medium back.
pub proof fn lemma_port_media_wire_round_trip(media: PortMedia)
    ensures
        port_media_from_wire(port_media_wire_name(media)) == Some(media),
{
    reveal_strlit("audio");
    reveal_strlit("control");
    reveal_strlit("event");
    assert("audio"@[0] == 'a' && "control"@[0] == 'c' && "event"@[0] == 'e');
}

/// Decoding the wire name of any port direction gives that direction back.
pub proof fn lemma_port_dir_wire_round_trip(dir: PortDir)
    ensures
        port_dir_from_wire(port_dir_wire_name(dir)) == Some(dir),
{
    reveal_strlit("in");
    reveal_strlit("out");
    assert("in"@[0] == 'i' && "out"@[0] == 'o');
}

} // verus!
