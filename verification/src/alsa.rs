//! The modeled ALSA stream-host adapter: PCM names, PCM devices and the
//! backend that serves provider-reported devices.
use vstd::prelude::*;
use vstd::string::StringExecFns;
use crate::error::Error;
use crate::stream_host::{
    HostBackendCapability, HostDirection, HostLatency, HostOpenPlan, HostOpenRequest,
    PcmSampleFormat, direction_compatible, direction_serves, first_index, latency_for, latency_of,
    lemma_first_index, HostDeviceInventory, HostDeviceSpec, HostPortSpec, device_spec_is,
    port_spec_is,
};
use crate::symbol::{symbol_text, symbol_value};
use crate::symbol::Symbol;
use crate::text::{contains_whitespace, has_prefix, has_white_space, strip_prefix, text_eq};

verus! {

/// Supported ALSA PCM name family.
#[derive(Clone, Copy, Debug, PartialEq, Eq, Structural)]
pub enum AlsaPcmNameKind {
    /// The ALSA `default` PCM, a routed fallback device.
    Default,
    /// A raw `hw:*` device addressed by card or `card,device`.
    Hw,
    /// A `plughw:*` device that adds automatic format and rate conversion.
    PlugHw,
}

/// An accepted `hw:`/`plughw:` tail: not empty and free of white space.
pub open spec fn pcm_tail_accepted(tail: Seq<char>) -> bool {
    tail.len() > 0 && !has_white_space(tail)
}

/// The family of an ALSA PCM name, if the name is accepted: `default`, or
/// `hw:`/`plughw:` followed by an accepted tail.
pub open spec fn alsa_name_kind(raw: Seq<char>) -> Option<AlsaPcmNameKind> {
    if raw == "default"@ {
        Some(AlsaPcmNameKind::Default)
    } else if has_prefix(raw, "hw:"@) {
        if pcm_tail_accepted(raw.subrange(3, raw.len() as int)) {
            Some(AlsaPcmNameKind::Hw)
        } else {
            None
        }
    } else if has_prefix(raw, "plughw:"@) {
        if pcm_tail_accepted(raw.subrange(7, raw.len() as int)) {
            Some(AlsaPcmNameKind::PlugHw)
        } else {
            None
        }
    } else {
        None
    }
}

/// The message a refused `hw:`/`plughw:` tail is reported with.
pub open spec fn pcm_tail_refusal(family: Seq<char>, tail: Seq<char>) -> Seq<char> {
    if tail.len() == 0 {
        "ALSA "@ + family + ": name must include a card or card,device tail"@
    } else {
        "ALSA "@ + family + ": name must not contain whitespace"@
    }
}

/// The message a refused ALSA PCM name is reported with.
pub open spec fn alsa_name_refusal(raw: Seq<char>) -> Seq<char> {
    if has_prefix(raw, "hw:"@) {
        pcm_tail_refusal("hw"@, raw.subrange(3, raw.len() as int))
    } else if has_prefix(raw, "plughw:"@) {
        pcm_tail_refusal("plughw"@, raw.subrange(7, raw.len() as int))
    } else {
        "unsupported ALSA PCM name "@ + raw + "; expected default, hw:*, or plughw:*"@
    }
}

/// Validates the tail of a `hw:`/`plughw:` name.
pub fn validate_pcm_tail(tail: &str, family: &str) -> (res: Result<(), Error>)
    ensures
        res is Ok <==> pcm_tail_accepted(tail@),
        res matches Err(e) ==> e is Eval && e->Eval_0@ == pcm_tail_refusal(family@, tail@),
{
    if tail.is_empty() {
        return Err(Error::eval3("ALSA ", family, ": name must include a card or card,device tail"));
    }
    if contains_whitespace(tail) {
        return Err(Error::eval3("ALSA ", family, ": name must not contain whitespace"));
    }
    Ok(())
}

/// Parsed ALSA PCM name accepted by this adapter.
#[derive(Debug, PartialEq, Eq)]
pub struct AlsaPcmName {
    raw: String,
    kind: AlsaPcmNameKind,
}

impl AlsaPcmName {
    #[verifier::type_invariant]
    spec fn well_formed(self) -> bool {
        alsa_name_kind(self.raw@) == Some(self.kind)
    }

    /// The name as parsed.
    pub closed spec fn spec_raw(&self) -> Seq<char> {
        self.raw@
    }

    /// The parsed family.
    pub closed spec fn spec_kind(&self) -> AlsaPcmNameKind {
        self.kind
    }

    /// Parses an ALSA PCM name, accepting `default`, `hw:*`, and `plughw:*`;
    /// the `hw:*` and `plughw:*` tails must be non-empty and free of white
    /// space.
    pub fn parse(raw: String) -> (res: Result<AlsaPcmName, Error>)
        ensures
            res is Ok <==> alsa_name_kind(raw@) is Some,
            res matches Ok(name) ==> name.spec_raw() == raw@ && Some(name.spec_kind())
                == alsa_name_kind(raw@),
            res matches Err(e) ==> e is Eval && e->Eval_0@ == alsa_name_refusal(raw@),
    {
        proof {
            reveal_strlit("default");
            reveal_strlit("hw:");
            reveal_strlit("plughw:");
            assert("default"@.len() == 7 && "default"@[0] == 'd');
            assert("hw:"@.len() == 3 && "hw:"@[0] == 'h');
            assert("plughw:"@.len() == 7 && "plughw:"@[0] == 'p');
            if has_prefix(raw@, "hw:"@) {
                assert(raw@[0] == raw@.subrange(0, 3)[0]);
            }
            if has_prefix(raw@, "plughw:"@) {
                assert(raw@[0] == raw@.subrange(0, 7)[0]);
            }
            if raw@ == "default"@ {
                assert(raw@.subrange(0, 3)[0] == 'd');
                assert(raw@.subrange(0, 7)[0] == 'd');
            }
        }
        let kind = if text_eq(raw.as_str(), "default") {
            AlsaPcmNameKind::Default
        } else if let Some(rest) = strip_prefix(raw.as_str(), "hw:") {
            match validate_pcm_tail(rest, "hw") {
                Ok(()) => {},
                Err(e) => return Err(e),
            }
            assert(alsa_name_kind(raw@) == Some(AlsaPcmNameKind::Hw));
            AlsaPcmNameKind::Hw
        } else if let Some(rest) = strip_prefix(raw.as_str(), "plughw:") {
            match validate_pcm_tail(rest, "plughw") {
                Ok(()) => {},
                Err(e) => return Err(e),
            }
            assert(alsa_name_kind(raw@) == Some(AlsaPcmNameKind::PlugHw));
            AlsaPcmNameKind::PlugHw
        } else {
            return Err(
                Error::eval3(
                    "unsupported ALSA PCM name ",
                    raw.as_str(),
                    "; expected default, hw:*, or plughw:*",
                ),
            );
        };
        Ok(AlsaPcmName { raw, kind })
    }

    /// Returns the PCM name string exactly as it was parsed.
    pub fn raw(&self) -> (res: &str)
        ensures
            res@ == self.spec_raw(),
    {
        self.raw.as_str()
    }

    /// Returns the parsed name family.
    pub fn kind(&self) -> (res: AlsaPcmNameKind)
        ensures
            res == self.spec_kind(),
            Some(res) == alsa_name_kind(self.spec_raw()),
    {
        proof {
            use_type_invariant(self);
        }
        self.kind
    }

    /// Returns `true` when this is the ALSA `default` PCM.
    pub fn is_default(&self) -> (res: bool)
        ensures
            res == (self.spec_kind() == AlsaPcmNameKind::Default),
    {
        self.kind == AlsaPcmNameKind::Default
    }

    /// Builds the device symbol `alsa/<raw>/<role>` for this PCM name, with
    /// role `capture`, `playback`, or `duplex`.
    pub fn device_symbol(&self, direction: HostDirection) -> (res: Symbol)
        ensures
            res.namespace is None,
            res.name@ == alsa_device_id_text(self.spec_raw(), direction),
    {
        let suffix = match direction {
            HostDirection::Input => "capture",
            HostDirection::Output => "playback",
            HostDirection::Duplex => "duplex",
        };
        Symbol::new(String::from_str("alsa/").concat(self.raw.as_str()).concat("/").concat(suffix))
    }
}

impl Clone for AlsaPcmName {
    fn clone(&self) -> (res: AlsaPcmName)
        ensures
            res == *self,
    {
        proof {
            use_type_invariant(self);
        }
        AlsaPcmName { raw: self.raw.clone(), kind: self.kind }
    }
}

/// The role suffix of an ALSA device symbol.
pub open spec fn alsa_role_text(direction: HostDirection) -> Seq<char> {
    match direction {
        HostDirection::Input => "capture"@,
        HostDirection::Output => "playback"@,
        HostDirection::Duplex => "duplex"@,
    }
}

/// The device symbol text of a PCM name in a direction.
pub open spec fn alsa_device_id_text(raw: Seq<char>, direction: HostDirection) -> Seq<char> {
    "alsa/"@ + raw + "/"@ + alsa_role_text(direction)
}

} // verus!

verus! {

/// SIM-visible ALSA PCM device metadata.
#[derive(Debug, PartialEq, Eq)]
pub struct AlsaPcmDevice {
    id: Symbol,
    pcm_name: AlsaPcmName,
    display_name: String,
    direction: HostDirection,
    channels: usize,
    sample_rate_hz: u32,
    sample_format: PcmSampleFormat,
    buffer_frames: usize,
}

impl AlsaPcmDevice {
    #[verifier::type_invariant]
    spec fn well_formed(self) -> bool {
        &&& self.channels > 0
        &&& self.sample_rate_hz > 0
        &&& self.buffer_frames > 0
        &&& self.id.namespace is None
        &&& self.id.name@ == alsa_device_id_text(self.pcm_name.spec_raw(), self.direction)
    }

    /// The device's identity symbol.
    pub closed spec fn spec_id(&self) -> Symbol {
        self.id
    }

    /// The device's parsed PCM name.
    pub closed spec fn spec_pcm_name(&self) -> AlsaPcmName {
        self.pcm_name
    }

    /// The device's display name.
    pub closed spec fn spec_display_name(&self) -> Seq<char> {
        self.display_name@
    }

    /// The device's direction.
    pub closed spec fn spec_direction(&self) -> HostDirection {
        self.direction
    }

    /// The device's channel count.
    pub closed spec fn spec_channels(&self) -> usize {
        self.channels
    }

    /// The device's sample rate in hertz.
    pub closed spec fn spec_sample_rate_hz(&self) -> u32 {
        self.sample_rate_hz
    }

    /// The device's sample format.
    pub closed spec fn spec_sample_format(&self) -> PcmSampleFormat {
        self.sample_format
    }

    /// The device's buffer size in frames.
    pub closed spec fn spec_buffer_frames(&self) -> usize {
        self.buffer_frames
    }

    /// Builds a PCM device from explicit parts, with a 256-frame buffer and
    /// the symbol `alsa/<raw>/<role>`.
    pub fn new(
        pcm_name: AlsaPcmName,
        display_name: String,
        direction: HostDirection,
        channels: usize,
        sample_rate_hz: u32,
        sample_format: PcmSampleFormat,
    ) -> (res: Result<AlsaPcmDevice, Error>)
        ensures
            res is Ok <==> channels > 0 && sample_rate_hz > 0,
            res matches Ok(d) ==> d.spec_pcm_name() == pcm_name && d.spec_display_name()
                == display_name@ && d.spec_direction() == direction && d.spec_channels()
                == channels && d.spec_sample_rate_hz() == sample_rate_hz && d.spec_sample_format()
                == sample_format && d.spec_buffer_frames() == 256,
            res matches Err(e) ==> e is Eval && (if channels == 0 {
                e->Eval_0@ == "ALSA PCM channel count must be greater than zero"@
            } else {
                e->Eval_0@ == "ALSA PCM sample rate must be greater than zero"@
            }),
    {
        if channels == 0 {
            return Err(Error::eval("ALSA PCM channel count must be greater than zero"));
        }
        if sample_rate_hz == 0 {
            return Err(Error::eval("ALSA PCM sample rate must be greater than zero"));
        }
        let id = pcm_name.device_symbol(direction);
        Ok(
            AlsaPcmDevice {
                id,
                pcm_name,
                display_name,
                direction,
                channels,
                sample_rate_hz,
                sample_format,
                buffer_frames: 256,
            },
        )
    }

    /// Builds an output (playback) PCM device with the F32 sample format.
    pub fn playback(pcm_name: String, display_name: String, channels: usize, sample_rate_hz: u32) -> (res:
        Result<AlsaPcmDevice, Error>)
        ensures
            res is Ok <==> alsa_name_kind(pcm_name@) is Some && channels > 0 && sample_rate_hz > 0,
            res matches Ok(d) ==> d.spec_pcm_name().spec_raw() == pcm_name@ && Some(
                d.spec_pcm_name().spec_kind(),
            ) == alsa_name_kind(pcm_name@) && d.spec_display_name() == display_name@ && d.spec_direction()
                == HostDirection::Output && d.spec_channels() == channels
                && d.spec_sample_rate_hz() == sample_rate_hz && d.spec_sample_format()
                == PcmSampleFormat::F32 && d.spec_buffer_frames() == 256,
            res matches Err(e) ==> e is Eval,
            alsa_name_kind(pcm_name@) is None ==> (res matches Err(e) && e->Eval_0@
                == alsa_name_refusal(pcm_name@)),
    {
        let name = match AlsaPcmName::parse(pcm_name) {
            Ok(name) => name,
            Err(e) => return Err(e),
        };
        AlsaPcmDevice::new(
            name,
            display_name,
            HostDirection::Output,
            channels,
            sample_rate_hz,
            PcmSampleFormat::F32,
        )
    }

    /// Builds an input (capture) PCM device with the F32 sample format.
    pub fn capture(pcm_name: String, display_name: String, channels: usize, sample_rate_hz: u32) -> (res:
        Result<AlsaPcmDevice, Error>)
        ensures
            res is Ok <==> alsa_name_kind(pcm_name@) is Some && channels > 0 && sample_rate_hz > 0,
            res matches Ok(d) ==> d.spec_pcm_name().spec_raw() == pcm_name@ && Some(
                d.spec_pcm_name().spec_kind(),
            ) == alsa_name_kind(pcm_name@) && d.spec_display_name() == display_name@ && d.spec_direction()
                == HostDirection::Input && d.spec_channels() == channels
                && d.spec_sample_rate_hz() == sample_rate_hz && d.spec_sample_format()
                == PcmSampleFormat::F32 && d.spec_buffer_frames() == 256,
            res matches Err(e) ==> e is Eval,
            alsa_name_kind(pcm_name@) is None ==> (res matches Err(e) && e->Eval_0@
                == alsa_name_refusal(pcm_name@)),
    {
        let name = match AlsaPcmName::parse(pcm_name) {
            Ok(name) => name,
            Err(e) => return Err(e),
        };
        AlsaPcmDevice::new(
            name,
            display_name,
            HostDirection::Input,
            channels,
            sample_rate_hz,
            PcmSampleFormat::F32,
        )
    }

    /// Builds the routed `default` PCM device for playback, named
    /// "ALSA Default Playback".
    pub fn default_playback(channels: usize, sample_rate_hz: u32) -> (res: Result<
        AlsaPcmDevice,
        Error,
    >)
        ensures
            res is Ok <==> channels > 0 && sample_rate_hz > 0,
            res matches Ok(d) ==> d.spec_pcm_name().spec_raw() == "default"@
                && d.spec_pcm_name().spec_kind() == AlsaPcmNameKind::Default
                && d.spec_display_name() == "ALSA Default Playback"@ && d.spec_direction()
                == HostDirection::Output && d.spec_channels() == channels
                && d.spec_sample_rate_hz() == sample_rate_hz && d.spec_sample_format()
                == PcmSampleFormat::F32 && d.spec_buffer_frames() == 256,
            res matches Err(e) ==> e is Eval,
    {
        let res = AlsaPcmDevice::playback(
            String::from_str("default"),
            String::from_str("ALSA Default Playback"),
            channels,
            sample_rate_hz,
        );
        res
    }

    /// Builds the routed `default` PCM device for capture, named
    /// "ALSA Default Capture".
    pub fn default_capture(channels: usize, sample_rate_hz: u32) -> (res: Result<
        AlsaPcmDevice,
        Error,
    >)
        ensures
            res is Ok <==> channels > 0 && sample_rate_hz > 0,
            res matches Ok(d) ==> d.spec_pcm_name().spec_raw() == "default"@
                && d.spec_pcm_name().spec_kind() == AlsaPcmNameKind::Default
                && d.spec_display_name() == "ALSA Default Capture"@ && d.spec_direction()
                == HostDirection::Input && d.spec_channels() == channels
                && d.spec_sample_rate_hz() == sample_rate_hz && d.spec_sample_format()
                == PcmSampleFormat::F32 && d.spec_buffer_frames() == 256,
            res matches Err(e) ==> e is Eval,
    {
        let res = AlsaPcmDevice::capture(
            String::from_str("default"),
            String::from_str("ALSA Default Capture"),
            channels,
            sample_rate_hz,
        );
        res
    }

    /// Returns this device with its buffer set to `buffer_frames`, which
    /// must be greater than zero.
    pub fn with_buffer_frames(self, buffer_frames: usize) -> (res: Result<AlsaPcmDevice, Error>)
        ensures
            res is Ok <==> buffer_frames > 0,
            res matches Ok(d) ==> d.spec_id() == self.spec_id() && d.spec_pcm_name()
                == self.spec_pcm_name() && d.spec_display_name() == self.spec_display_name()
                && d.spec_direction() == self.spec_direction() && d.spec_channels()
                == self.spec_channels() && d.spec_sample_rate_hz() == self.spec_sample_rate_hz()
                && d.spec_sample_format() == self.spec_sample_format() && d.spec_buffer_frames()
                == buffer_frames,
            res matches Err(e) ==> e is Eval && e->Eval_0@
                == "ALSA PCM buffer frame count must be greater than zero"@,
    {
        proof {
            use_type_invariant(&self);
        }
        if buffer_frames == 0 {
            return Err(Error::eval("ALSA PCM buffer frame count must be greater than zero"));
        }
        Ok(
            AlsaPcmDevice {
                id: self.id,
                pcm_name: self.pcm_name,
                display_name: self.display_name,
                direction: self.direction,
                channels: self.channels,
                sample_rate_hz: self.sample_rate_hz,
                sample_format: self.sample_format,
                buffer_frames,
            },
        )
    }

    /// Returns the device's stable identity symbol.
    pub fn id(&self) -> (res: &Symbol)
        ensures
            *res == self.spec_id(),
    {
        &self.id
    }

    /// Returns the parsed ALSA PCM name.
    pub fn pcm_name(&self) -> (res: &AlsaPcmName)
        ensures
            *res == self.spec_pcm_name(),
    {
        &self.pcm_name
    }

    /// Returns the human-readable display name.
    pub fn display_name(&self) -> (res: &str)
        ensures
            res@ == self.spec_display_name(),
    {
        self.display_name.as_str()
    }

    /// Returns the device direction (input, output, or duplex).
    pub fn direction(&self) -> (res: HostDirection)
        ensures
            res == self.spec_direction(),
    {
        self.direction
    }

    /// Returns the channel count.
    pub fn channels(&self) -> (res: usize)
        ensures
            res == self.spec_channels(),
            res > 0,
    {
        proof {
            use_type_invariant(self);
        }
        self.channels
    }

    /// Returns the sample rate in hertz.
    pub fn sample_rate_hz(&self) -> (res: u32)
        ensures
            res == self.spec_sample_rate_hz(),
            res > 0,
    {
        proof {
            use_type_invariant(self);
        }
        self.sample_rate_hz
    }

    /// Returns the PCM sample format.
    pub fn sample_format(&self) -> (res: PcmSampleFormat)
        ensures
            res == self.spec_sample_format(),
    {
        self.sample_format
    }

    /// Returns the configured buffer size in frames.
    pub fn buffer_frames(&self) -> (res: usize)
        ensures
            res == self.spec_buffer_frames(),
            res > 0,
    {
        proof {
            use_type_invariant(self);
        }
        self.buffer_frames
    }

    /// Returns `true` when this device wraps the ALSA `default` PCM.
    pub fn is_default(&self) -> (res: bool)
        ensures
            res == (self.spec_pcm_name().spec_kind() == AlsaPcmNameKind::Default),
    {
        self.pcm_name.is_default()
    }

    /// Returns `true` when the device can serve the `requested` direction; a
    /// duplex device serves any direction.
    pub fn is_compatible_with(&self, requested: HostDirection) -> (res: bool)
        ensures
            res == direction_serves(self.spec_direction(), requested),
    {
        direction_compatible(self.direction, requested)
    }

    /// Returns the device's port symbol, the device symbol with a `/port`
    /// suffix.
    pub fn port_symbol(&self) -> (res: Symbol)
        ensures
            res.namespace is None,
            res.name@ == self.spec_id().name@ + "/port"@,
    {
        Symbol::new(self.id.name.clone().concat("/port"))
    }
}

impl Clone for AlsaPcmDevice {
    fn clone(&self) -> (res: AlsaPcmDevice)
        ensures
            res == *self,
    {
        proof {
            use_type_invariant(self);
        }
        AlsaPcmDevice {
            id: self.id.clone(),
            pcm_name: self.pcm_name.clone(),
            display_name: self.display_name.clone(),
            direction: self.direction,
            channels: self.channels,
            sample_rate_hz: self.sample_rate_hz,
            sample_format: self.sample_format,
            buffer_frames: self.buffer_frames,
        }
    }
}

} // verus!

verus! {

/// The ALSA backend symbol `stream/host` `alsa`.
pub open spec fn alsa_backend_value() -> (Option<Seq<char>>, Seq<char>) {
    (Some("stream/host"@), "alsa"@)
}

/// Returns the backend identity symbol (namespace `stream/host`, name
/// `alsa`).
pub fn alsa_backend_symbol() -> (res: Symbol)
    ensures
        symbol_value(res) == alsa_backend_value(),
{
    Symbol::qualified("stream/host", "alsa")
}

/// Returns the transport identity symbol (namespace `stream/transport`,
/// name `alsa`).
pub fn alsa_transport_symbol() -> (res: Symbol)
    ensures
        symbol_value(res) == (Some("stream/transport"@), "alsa"@),
{
    Symbol::qualified("stream/transport", "alsa")
}

/// Returns the candidate name under which configuration probes know this
/// backend.
pub fn alsa_audio_backend_candidate() -> (res: &'static str)
    ensures
        res@ == "alsa"@,
{
    "alsa"
}

/// Some device of the sequence can serve `direction`.
pub open spec fn alsa_any_serves(devices: Seq<AlsaPcmDevice>, direction: HostDirection) -> bool {
    exists|i: int| 0 <= i < devices.len() && direction_serves(#[trigger] devices[i].spec_direction(), direction)
}

/// Some device of the sequence is a duplex device.
pub open spec fn alsa_any_duplex(devices: Seq<AlsaPcmDevice>) -> bool {
    exists|i: int| 0 <= i < devices.len() && #[trigger] devices[i].spec_direction() == HostDirection::Duplex
}

/// The capabilities an ALSA backend over `devices` advertises: playback,
/// capture and duplex as the devices allow, reconnect, and for a fake
/// backend offline and fake.
pub open spec fn alsa_capabilities(devices: Seq<AlsaPcmDevice>, fake: bool) -> Seq<HostBackendCapability> {
    (if alsa_any_serves(devices, HostDirection::Output) {
        seq![HostBackendCapability::AudioOutput]
    } else {
        Seq::empty()
    }) + (if alsa_any_serves(devices, HostDirection::Input) {
        seq![HostBackendCapability::AudioInput]
    } else {
        Seq::empty()
    }) + (if alsa_any_duplex(devices) {
        seq![HostBackendCapability::Duplex]
    } else {
        Seq::empty()
    }) + seq![HostBackendCapability::Reconnect] + (if fake {
        seq![HostBackendCapability::Offline, HostBackendCapability::Fake]
    } else {
        Seq::empty()
    })
}

fn alsa_any_serves_exec(devices: &[AlsaPcmDevice], direction: HostDirection) -> (res: bool)
    ensures
        res == alsa_any_serves(devices@, direction),
{
    let n = devices.len();
    let mut i: usize = 0;
    while i < n
        invariant
            n == devices@.len(),
            i <= n,
            forall|j: int| 0 <= j < i ==> !direction_serves(#[trigger] devices@[j].spec_direction(), direction),
        decreases n - i,
    {
        if devices[i].is_compatible_with(direction) {
            return true;
        }
        i = i + 1;
    }
    false
}

fn alsa_any_duplex_exec(devices: &[AlsaPcmDevice]) -> (res: bool)
    ensures
        res == alsa_any_duplex(devices@),
{
    let n = devices.len();
    let mut i: usize = 0;
    while i < n
        invariant
            n == devices@.len(),
            i <= n,
            forall|j: int| 0 <= j < i ==> #[trigger] devices@[j].spec_direction() != HostDirection::Duplex,
        decreases n - i,
    {
        if devices[i].direction() == HostDirection::Duplex {
            return true;
        }
        i = i + 1;
    }
    false
}

/// Derives the capabilities an ALSA backend over `devices` advertises.
pub fn alsa_capabilities_for(devices: &[AlsaPcmDevice], fake: bool) -> (res: Vec<HostBackendCapability>)
    ensures
        res@ == alsa_capabilities(devices@, fake),
{
    let mut capabilities: Vec<HostBackendCapability> = Vec::new();
    if alsa_any_serves_exec(devices, HostDirection::Output) {
        capabilities.push(HostBackendCapability::AudioOutput);
    }
    if alsa_any_serves_exec(devices, HostDirection::Input) {
        capabilities.push(HostBackendCapability::AudioInput);
    }
    if alsa_any_duplex_exec(devices) {
        capabilities.push(HostBackendCapability::Duplex);
    }
    capabilities.push(HostBackendCapability::Reconnect);
    if fake {
        capabilities.push(HostBackendCapability::Offline);
        capabilities.push(HostBackendCapability::Fake);
    }
    assert(capabilities@ =~= alsa_capabilities(devices@, fake));
    capabilities
}

/// ALSA host backend with provider-supplied deterministic PCM devices.
#[derive(Debug)]
pub struct AlsaBackend {
    devices: Vec<AlsaPcmDevice>,
    hardware_required: bool,
    capabilities: Vec<HostBackendCapability>,
}

/// A default device that can serve `direction`.
pub open spec fn alsa_default_for(direction: HostDirection) -> spec_fn(AlsaPcmDevice) -> bool {
    |d: AlsaPcmDevice|
        d.spec_pcm_name().spec_kind() == AlsaPcmNameKind::Default && direction_serves(
            d.spec_direction(),
            direction,
        )
}

/// A device whose symbol is `id`.
pub open spec fn alsa_device_with_id(id: (Option<Seq<char>>, Seq<char>)) -> spec_fn(AlsaPcmDevice) -> bool {
    |d: AlsaPcmDevice| symbol_value(d.spec_id()) == id
}

impl AlsaBackend {
    #[verifier::type_invariant]
    spec fn well_formed(self) -> bool {
        self.capabilities@ == alsa_capabilities(self.devices@, !self.hardware_required)
    }

    /// The backend's devices in registration order.
    pub closed spec fn spec_devices(&self) -> Seq<AlsaPcmDevice> {
        self.devices@
    }

    /// Whether the backend needs real audio hardware.
    pub closed spec fn spec_hardware_required(&self) -> bool {
        self.hardware_required
    }

    /// The capabilities the backend advertises.
    pub closed spec fn spec_capabilities(&self) -> Seq<HostBackendCapability> {
        self.capabilities@
    }

    /// Builds a hardware-required backend over the supplied PCM `devices`;
    /// its capabilities are derived from the devices' directions.
    pub fn new(devices: Vec<AlsaPcmDevice>) -> (res: AlsaBackend)
        ensures
            res.spec_devices() == devices@,
            res.spec_hardware_required(),
            res.spec_capabilities() == alsa_capabilities(devices@, false),
    {
        let capabilities = alsa_capabilities_for(devices.as_slice(), false);
        AlsaBackend { devices, hardware_required: true, capabilities }
    }

    /// Builds an offline backend with four deterministic fake PCM devices:
    /// a default playback and a default capture device (stereo, 48 kHz,
    /// 128-frame buffers), a `hw:0,0` stereo playback device and a
    /// `plughw:1,0` mono capture device (48 kHz, 256-frame buffers). The
    /// backend needs no hardware and advertises offline and fake.
    pub fn fake() -> (res: AlsaBackend)
        ensures
            !res.spec_hardware_required(),
            res.spec_capabilities() == alsa_capabilities(res.spec_devices(), true),
            res.spec_devices().len() == 4,
            alsa_fake_device(res.spec_devices()[0], "default"@, "ALSA Default Playback"@,
                HostDirection::Output, 2, 128),
            alsa_fake_device(res.spec_devices()[1], "default"@, "ALSA Default Capture"@,
                HostDirection::Input, 2, 128),
            alsa_fake_device(res.spec_devices()[2], "hw:0,0"@, "Fake ALSA hw Playback"@,
                HostDirection::Output, 2, 256),
            alsa_fake_device(res.spec_devices()[3], "plughw:1,0"@, "Fake ALSA plughw Capture"@,
                HostDirection::Input, 1, 256),
    {
        proof {
            reveal_strlit("hw:0,0");
            reveal_strlit("plughw:1,0");
            reveal_strlit("hw:");
            reveal_strlit("plughw:");
            reveal_strlit("default");
            lemma_fake_names_accepted();
        }
        let default_playback = AlsaPcmDevice::default_playback(2, 48_000).unwrap().with_buffer_frames(
            128,
        ).unwrap();
        let default_capture = AlsaPcmDevice::default_capture(2, 48_000).unwrap().with_buffer_frames(
            128,
        ).unwrap();
        let hw = AlsaPcmDevice::playback(
            String::from_str("hw:0,0"),
            String::from_str("Fake ALSA hw Playback"),
            2,
            48_000,
        ).unwrap();
        let plughw = AlsaPcmDevice::capture(
            String::from_str("plughw:1,0"),
            String::from_str("Fake ALSA plughw Capture"),
            1,
            48_000,
        ).unwrap();
        let mut devices: Vec<AlsaPcmDevice> = Vec::new();
        devices.push(default_playback);
        devices.push(default_capture);
        devices.push(hw);
        devices.push(plughw);
        let capabilities = alsa_capabilities_for(devices.as_slice(), true);
        AlsaBackend { devices, hardware_required: false, capabilities }
    }

    /// Returns the backend's PCM devices in registration order.
    pub fn list_devices(&self) -> (res: &[AlsaPcmDevice])
        ensures
            res@ == self.spec_devices(),
    {
        self.devices.as_slice()
    }

    /// Returns whether the backend needs real audio hardware.
    pub fn hardware_required(&self) -> (res: bool)
        ensures
            res == self.spec_hardware_required(),
    {
        self.hardware_required
    }

    /// Returns the capabilities the backend advertises.
    pub fn capabilities(&self) -> (res: &[HostBackendCapability])
        ensures
            res@ == self.spec_capabilities(),
            res@ == alsa_capabilities(self.spec_devices(), !self.spec_hardware_required()),
    {
        proof {
            use_type_invariant(self);
        }
        self.capabilities.as_slice()
    }

    fn find_default(&self, direction: HostDirection) -> (res: Option<&AlsaPcmDevice>)
        ensures
            match first_index(self.spec_devices(), alsa_default_for(direction)) {
                Some(i) => res == Some(&self.spec_devices()[i]),
                None => res is None,
            },
    {
        let n = self.devices.len();
        let mut i: usize = 0;
        while i < n
            invariant
                n == self.devices@.len(),
                i <= n,
                forall|j: int| 0 <= j < i ==> !(#[trigger] alsa_default_for(direction)(self.devices@[j])),
            decreases n - i,
        {
            let d = &self.devices[i];
            if d.is_default() && d.is_compatible_with(direction) {
                proof {
                    lemma_first_index(self.devices@, alsa_default_for(direction), i as int);
                }
                return Some(d);
            }
            i = i + 1;
        }
        proof {
            lemma_first_index(self.devices@, alsa_default_for(direction), 0);
        }
        None
    }

    /// Returns the first default device that can serve output, if any.
    pub fn default_playback(&self) -> (res: Option<&AlsaPcmDevice>)
        ensures
            match first_index(self.spec_devices(), alsa_default_for(HostDirection::Output)) {
                Some(i) => res == Some(&self.spec_devices()[i]),
                None => res is None,
            },
    {
        self.find_default(HostDirection::Output)
    }

    /// Returns the first default device that can serve input, if any.
    pub fn default_capture(&self) -> (res: Option<&AlsaPcmDevice>)
        ensures
            match first_index(self.spec_devices(), alsa_default_for(HostDirection::Input)) {
                Some(i) => res == Some(&self.spec_devices()[i]),
                None => res is None,
            },
    {
        self.find_default(HostDirection::Input)
    }

    /// Finds the device with symbol `device_id` and checks that it can serve
    /// `direction`.
    pub fn require_device(&self, device_id: &Symbol, direction: HostDirection) -> (res: Result<
        &AlsaPcmDevice,
        Error,
    >)
        ensures
            match first_index(self.spec_devices(), alsa_device_with_id(symbol_value(*device_id))) {
                Some(i) => if direction_serves(self.spec_devices()[i].spec_direction(), direction) {
                    res == Ok::<&AlsaPcmDevice, Error>(&self.spec_devices()[i])
                } else {
                    res matches Err(e) && e == Error::TypeMismatch {
                        expected: "ALSA PCM device with requested direction",
                        found: "ALSA PCM device with another direction",
                    }
                },
                None => res matches Err(e) && e is Eval && e->Eval_0@ == "ALSA PCM device "@
                    + symbol_text(*device_id) + " was not found"@,
            },
    {
        let n = self.devices.len();
        let mut i: usize = 0;
        while i < n
            invariant
                n == self.devices@.len(),
                i <= n,
                forall|j: int| 0 <= j < i ==> !(#[trigger] alsa_device_with_id(symbol_value(*device_id))(self.devices@[j])),
            decreases n - i,
        {
            let d = &self.devices[i];
            if d.id().same_as(device_id) {
                proof {
                    lemma_first_index(self.devices@, alsa_device_with_id(symbol_value(*device_id)), i as int);
                }
                if !d.is_compatible_with(direction) {
                    return Err(
                        Error::TypeMismatch {
                            expected: "ALSA PCM device with requested direction",
                            found: "ALSA PCM device with another direction",
                        },
                    );
                }
                return Ok(d);
            }
            i = i + 1;
        }
        proof {
            lemma_first_index(self.devices@, alsa_device_with_id(symbol_value(*device_id)), 0);
        }
        Err(Error::eval3("ALSA PCM device ", device_id.to_text().as_str(), " was not found"))
    }

    /// Decides an open request: the request must address this backend and a
    /// PCM stream, and name a device that serves the requested direction.
    /// The stream then runs on the `clock`/`alsa` clock at the device's
    /// rate, with the device buffer as latency in the directions it uses.
    pub fn open(&self, request: &HostOpenRequest) -> (res: Result<HostOpenPlan, Error>)
        ensures
            symbol_value(request.backend) != alsa_backend_value() ==> (res matches Err(e) && e is Eval
                && e->Eval_0@ == "ALSA backend cannot open "@ + symbol_text(request.backend)
                + " requests"@),
            symbol_value(request.backend) == alsa_backend_value() && !request.pcm ==> (res matches Err(e)
                && e == Error::TypeMismatch {
                expected: "PCM stream request",
                found: "non-PCM stream request",
            }),
            symbol_value(request.backend) == alsa_backend_value() && request.pcm ==> match first_index(
                self.spec_devices(),
                alsa_device_with_id(symbol_value(request.device)),
            ) {
                Some(i) => {
                    let d = self.spec_devices()[i];
                    if direction_serves(d.spec_direction(), request.direction) {
                        res matches Ok(plan) && symbol_value(plan.backend) == alsa_backend_value()
                            && plan.device == request.device && plan.pcm && plan.direction
                            == request.direction && plan.buffer_capacity == request.buffer_capacity
                            && plan.latency == latency_of(
                            request.direction,
                            d.spec_buffer_frames() as u32,
                            d.spec_buffer_frames() as u32,
                        ) && symbol_value(plan.clock) == (Some("clock"@), "alsa"@)
                            && plan.sample_rate_hz == d.spec_sample_rate_hz()
                            && plan.deterministic_clock == !self.spec_hardware_required()
                    } else {
                        res matches Err(e) && e == Error::TypeMismatch {
                            expected: "ALSA PCM device with requested direction",
                            found: "ALSA PCM device with another direction",
                        }
                    }
                },
                None => res matches Err(e) && e is Eval && e->Eval_0@ == "ALSA PCM device "@
                    + symbol_text(request.device) + " was not found"@,
            },
    {
        let backend = alsa_backend_symbol();
        if !request.backend.same_as(&backend) {
            return Err(
                Error::eval3(
                    "ALSA backend cannot open ",
                    request.backend.to_text().as_str(),
                    " requests",
                ),
            );
        }
        if !request.pcm {
            return Err(
                Error::TypeMismatch {
                    expected: "PCM stream request",
                    found: "non-PCM stream request",
                },
            );
        }
        let device = match self.require_device(&request.device, request.direction) {
            Ok(d) => d,
            Err(e) => return Err(e),
        };
        let frames = device.buffer_frames() as u32;
        Ok(
            HostOpenPlan {
                backend,
                device: request.device.clone(),
                pcm: true,
                direction: request.direction,
                buffer_capacity: request.buffer_capacity,
                latency: latency_for(request.direction, frames, frames),
                clock: Symbol::qualified("clock", "alsa"),
                sample_rate_hz: device.sample_rate_hz(),
                deterministic_clock: !self.hardware_required,
            },
        )
    }

    /// Opens an output stream on the default playback device.
    pub fn open_default_playback(&self, capacity: usize) -> (res: Result<HostOpenPlan, Error>)
        ensures
            match first_index(self.spec_devices(), alsa_default_for(HostDirection::Output)) {
                Some(i) => self.opens_device(res, self.spec_devices()[i], HostDirection::Output, capacity),
                None => res matches Err(e) && e is Eval && e->Eval_0@
                    == "ALSA default playback PCM was not found"@,
            },
    {
        match self.default_playback() {
            Some(device) => self.open_on(device, HostDirection::Output, capacity),
            None => Err(Error::eval("ALSA default playback PCM was not found")),
        }
    }

    /// Opens an input stream on the default capture device.
    pub fn open_default_capture(&self, capacity: usize) -> (res: Result<HostOpenPlan, Error>)
        ensures
            match first_index(self.spec_devices(), alsa_default_for(HostDirection::Input)) {
                Some(i) => self.opens_device(res, self.spec_devices()[i], HostDirection::Input, capacity),
                None => res matches Err(e) && e is Eval && e->Eval_0@
                    == "ALSA default capture PCM was not found"@,
            },
    {
        match self.default_capture() {
            Some(device) => self.open_on(device, HostDirection::Input, capacity),
            None => Err(Error::eval("ALSA default capture PCM was not found")),
        }
    }

    /// `res` is what opening `device` in `direction` on this backend gives:
    /// the open decision for the request naming `device`.
    pub open spec fn opens_device(
        &self,
        res: Result<HostOpenPlan, Error>,
        device: AlsaPcmDevice,
        direction: HostDirection,
        capacity: usize,
    ) -> bool {
        match first_index(self.spec_devices(), alsa_device_with_id(symbol_value(device.spec_id()))) {
            Some(i) => {
                let d = self.spec_devices()[i];
                if direction_serves(d.spec_direction(), direction) {
                    res matches Ok(plan) && symbol_value(plan.backend) == alsa_backend_value()
                        && symbol_value(plan.device) == symbol_value(device.spec_id()) && plan.pcm
                        && plan.direction == direction && plan.buffer_capacity == capacity
                        && plan.latency == latency_of(
                        direction,
                        d.spec_buffer_frames() as u32,
                        d.spec_buffer_frames() as u32,
                    ) && symbol_value(plan.clock) == (Some("clock"@), "alsa"@)
                        && plan.sample_rate_hz == d.spec_sample_rate_hz()
                        && plan.deterministic_clock == !self.spec_hardware_required()
                } else {
                    res matches Err(e) && e == Error::TypeMismatch {
                        expected: "ALSA PCM device with requested direction",
                        found: "ALSA PCM device with another direction",
                    }
                }
            },
            None => res is Err,
        }
    }

    /// Lists the backend's devices and their ports, in registration order:
    /// each device on the `clock`/`alsa` clock with its buffer, and its
    /// `<id>/port` port.
    pub fn inventory(&self) -> (res: HostDeviceInventory)
        ensures
            symbol_value(res.backend) == alsa_backend_value(),
            res.devices@.len() == self.spec_devices().len(),
            res.ports@.len() == self.spec_devices().len(),
            forall|i: int|
                0 <= i < self.spec_devices().len() ==> device_spec_is(
                    #[trigger] res.devices@[i],
                    symbol_value(self.spec_devices()[i].spec_id()),
                    alsa_backend_value(),
                    self.spec_devices()[i].spec_direction(),
                    (Some("clock"@), "alsa"@),
                    self.spec_devices()[i].spec_buffer_frames(),
                ),
            forall|i: int|
                0 <= i < self.spec_devices().len() ==> port_spec_is(
                    #[trigger] res.ports@[i],
                    (None, self.spec_devices()[i].spec_id().name@ + "/port"@),
                    symbol_value(self.spec_devices()[i].spec_id()),
                    alsa_backend_value(),
                    self.spec_devices()[i].spec_direction(),
                ),
    {
        let mut devices: Vec<HostDeviceSpec> = Vec::new();
        let mut ports: Vec<HostPortSpec> = Vec::new();
        let mut i: usize = 0;
        while i < self.devices.len()
            invariant
                i <= self.devices@.len(),
                devices@.len() == i,
                ports@.len() == i,
                forall|j: int|
                    0 <= j < i ==> device_spec_is(
                        #[trigger] devices@[j],
                        symbol_value(self.devices@[j].spec_id()),
                        alsa_backend_value(),
                        self.devices@[j].spec_direction(),
                        (Some("clock"@), "alsa"@),
                        self.devices@[j].spec_buffer_frames(),
                    ),
                forall|j: int|
                    0 <= j < i ==> port_spec_is(
                        #[trigger] ports@[j],
                        (None, self.devices@[j].spec_id().name@ + "/port"@),
                        symbol_value(self.devices@[j].spec_id()),
                        alsa_backend_value(),
                        self.devices@[j].spec_direction(),
                    ),
            decreases self.devices@.len() - i,
        {
            let device = &self.devices[i];
            devices.push(
                HostDeviceSpec {
                    device: device.id().clone(),
                    backend: alsa_backend_symbol(),
                    direction: device.direction(),
                    clock: Symbol::qualified("clock", "alsa"),
                    buffer_frames: device.buffer_frames(),
                },
            );
            ports.push(
                HostPortSpec {
                    port: device.port_symbol(),
                    device: device.id().clone(),
                    backend: alsa_backend_symbol(),
                    direction: device.direction(),
                },
            );
            i = i + 1;
        }
        HostDeviceInventory { backend: alsa_backend_symbol(), devices, ports }
    }

    fn open_on(&self, device: &AlsaPcmDevice, direction: HostDirection, capacity: usize) -> (res:
        Result<HostOpenPlan, Error>)
        ensures
            self.opens_device(res, *device, direction, capacity),
    {
        let request = HostOpenRequest {
            backend: alsa_backend_symbol(),
            device: device.id().clone(),
            pcm: true,
            direction,
            buffer_capacity: capacity,
        };
        self.open(&request)
    }
}

/// A fake device with the given PCM name, display name, direction, channel
/// count and buffer, at 48 kHz with F32 samples.
pub open spec fn alsa_fake_device(
    d: AlsaPcmDevice,
    raw: Seq<char>,
    display_name: Seq<char>,
    direction: HostDirection,
    channels: usize,
    buffer_frames: usize,
) -> bool {
    &&& d.spec_pcm_name().spec_raw() == raw
    &&& Some(d.spec_pcm_name().spec_kind()) == alsa_name_kind(raw)
    &&& d.spec_display_name() == display_name
    &&& d.spec_direction() == direction
    &&& d.spec_channels() == channels
    &&& d.spec_sample_rate_hz() == 48_000
    &&& d.spec_sample_format() == PcmSampleFormat::F32
    &&& d.spec_buffer_frames() == buffer_frames
}

/// The PCM names of the fake backend are accepted names.
proof fn lemma_fake_names_accepted()
    ensures
        alsa_name_kind("default"@) == Some(AlsaPcmNameKind::Default),
        alsa_name_kind("hw:0,0"@) == Some(AlsaPcmNameKind::Hw),
        alsa_name_kind("plughw:1,0"@) == Some(AlsaPcmNameKind::PlugHw),
{
    reveal_strlit("hw:0,0");
    reveal_strlit("plughw:1,0");
    reveal_strlit("hw:");
    reveal_strlit("plughw:");
    reveal_strlit("default");
    let hw = "hw:0,0"@;
    let plug = "plughw:1,0"@;
    assert(hw.subrange(0, 3) =~= "hw:"@);
    assert(hw != "default"@) by {
        assert(hw[0] == 'h' && "default"@[0] == 'd');
    }
    let hw_tail = hw.subrange(3, hw.len() as int);
    assert(!has_white_space(hw_tail)) by {
        assert(hw_tail =~= seq!['0', ',', '0']);
    }
    assert(plug.subrange(0, 7) =~= "plughw:"@);
    assert(plug != "default"@) by {
        assert(plug[0] == 'p' && "default"@[0] == 'd');
    }
    assert(!has_prefix(plug, "hw:"@)) by {
        assert(plug.subrange(0, 3)[0] == 'p');
    }
    let plug_tail = plug.subrange(7, plug.len() as int);
    assert(!has_white_space(plug_tail)) by {
        assert(plug_tail =~= seq!['1', ',', '0']);
    }
}

impl Default for AlsaBackend {
    /// A hardware-required backend with no devices.
    fn default() -> (res: AlsaBackend)
        ensures
            res.spec_devices() == Seq::<AlsaPcmDevice>::empty(),
            res.spec_hardware_required(),
            res.spec_capabilities() == alsa_capabilities(Seq::<AlsaPcmDevice>::empty(), false),
    {
        AlsaBackend::new(Vec::new())
    }
}

} // verus!
