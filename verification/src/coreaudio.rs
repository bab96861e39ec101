//! The modeled macOS CoreAudio stream-host adapter: render timing, PCM
//! devices, backend priorities and the backend that serves
//! provider-reported devices.
use vstd::prelude::*;
use vstd::string::StringExecFns;
use crate::error::Error;
use crate::stream_host::{
    HostBackendCapability, HostDirection, HostOpenPlan, HostOpenRequest, direction_compatible,
    direction_serves, first_index, latency_for, latency_of, lemma_first_index,
    HostDeviceInventory, HostDeviceSpec, HostPortSpec, device_spec_is, port_spec_is,
};
use crate::symbol::{Symbol, symbol_text, symbol_value};

verus! {

/// Timing metadata accepted by a CoreAudio render callback.
#[derive(Clone, Copy, Debug, PartialEq, Eq)]
pub struct CoreAudioTiming {
    sample_rate_hz: u32,
    buffer_frames: usize,
    input_latency_frames: u32,
    output_latency_frames: u32,
}

impl CoreAudioTiming {
    #[verifier::type_invariant]
    spec fn well_formed(self) -> bool {
        self.sample_rate_hz > 0 && self.buffer_frames > 0
    }

    /// The sample rate in hertz.
    pub closed spec fn spec_sample_rate_hz(self) -> u32 {
        self.sample_rate_hz
    }

    /// The callback buffer size in frames.
    pub closed spec fn spec_buffer_frames(self) -> usize {
        self.buffer_frames
    }

    /// The input latency in frames.
    pub closed spec fn spec_input_latency_frames(self) -> u32 {
        self.input_latency_frames
    }

    /// The output latency in frames.
    pub closed spec fn spec_output_latency_frames(self) -> u32 {
        self.output_latency_frames
    }

    /// Builds timing metadata from a sample rate, a buffer size and the
    /// input and output latencies in frames; the rate and the buffer size
    /// must not be zero.
    pub fn new(
        sample_rate_hz: u32,
        buffer_frames: usize,
        input_latency_frames: u32,
        output_latency_frames: u32,
    ) -> (res: Result<CoreAudioTiming, Error>)
        ensures
            res is Ok <==> sample_rate_hz > 0 && buffer_frames > 0,
            res matches Ok(t) ==> t.spec_sample_rate_hz() == sample_rate_hz && t.spec_buffer_frames()
                == buffer_frames && t.spec_input_latency_frames() == input_latency_frames
                && t.spec_output_latency_frames() == output_latency_frames,
            res matches Err(e) ==> e is Eval && (if sample_rate_hz == 0 {
                e->Eval_0@ == "CoreAudio sample rate must be greater than zero"@
            } else {
                e->Eval_0@ == "CoreAudio buffer size must be greater than zero"@
            }),
    {
        if sample_rate_hz == 0 {
            return Err(Error::eval("CoreAudio sample rate must be greater than zero"));
        }
        if buffer_frames == 0 {
            return Err(Error::eval("CoreAudio buffer size must be greater than zero"));
        }
        Ok(
            CoreAudioTiming {
                sample_rate_hz,
                buffer_frames,
                input_latency_frames,
                output_latency_frames,
            },
        )
    }

    /// Returns a default low-latency timing: 48 kHz, 128-frame buffer, and
    /// 128-frame input and output latencies.
    pub fn default_low_latency() -> (res: CoreAudioTiming)
        ensures
            res.spec_sample_rate_hz() == 48_000 && res.spec_buffer_frames() == 128
                && res.spec_input_latency_frames() == 128 && res.spec_output_latency_frames() == 128,
    {
        CoreAudioTiming::new(48_000, 128, 128, 128).unwrap()
    }

    /// Returns the sample rate in hertz.
    pub fn sample_rate_hz(self) -> (res: u32)
        ensures
            res == self.spec_sample_rate_hz(),
            res > 0,
    {
        proof {
            use_type_invariant(&self);
        }
        self.sample_rate_hz
    }

    /// Returns the callback buffer size in frames.
    pub fn buffer_frames(self) -> (res: usize)
        ensures
            res == self.spec_buffer_frames(),
            res > 0,
    {
        proof {
            use_type_invariant(&self);
        }
        self.buffer_frames
    }

    /// Returns the input latency in frames.
    pub fn input_latency_frames(self) -> (res: u32)
        ensures
            res == self.spec_input_latency_frames(),
    {
        self.input_latency_frames
    }

    /// Returns the output latency in frames.
    pub fn output_latency_frames(self) -> (res: u32)
        ensures
            res == self.spec_output_latency_frames(),
    {
        self.output_latency_frames
    }
}

/// SIM-visible CoreAudio device metadata.
#[derive(Debug, PartialEq, Eq)]
pub struct CoreAudioDevice {
    id: Symbol,
    name: String,
    direction: HostDirection,
    channels: usize,
    timing: CoreAudioTiming,
    default_output: bool,
    default_input: bool,
}

impl CoreAudioDevice {
    #[verifier::type_invariant]
    spec fn well_formed(self) -> bool {
        self.channels > 0 && self.id.namespace is None
    }

    /// The device's symbol.
    pub closed spec fn spec_id(&self) -> Symbol {
        self.id
    }

    /// The device's display name.
    pub closed spec fn spec_name(&self) -> Seq<char> {
        self.name@
    }

    /// The device's direction.
    pub closed spec fn spec_direction(&self) -> HostDirection {
        self.direction
    }

    /// The device's channel count.
    pub closed spec fn spec_channels(&self) -> usize {
        self.channels
    }

    /// The device's timing.
    pub closed spec fn spec_timing(&self) -> CoreAudioTiming {
        self.timing
    }

    /// Whether the device is flagged as the default output.
    pub closed spec fn spec_default_output(&self) -> bool {
        self.default_output
    }

    /// Whether the device is flagged as the default input.
    pub closed spec fn spec_default_input(&self) -> bool {
        self.default_input
    }

    /// Builds a device from its id, display name, direction, channel count
    /// and timing, flagged as neither default; the channel count must not be
    /// zero.
    pub fn new(
        id: String,
        name: String,
        direction: HostDirection,
        channels: usize,
        timing: CoreAudioTiming,
    ) -> (res: Result<CoreAudioDevice, Error>)
        ensures
            res is Ok <==> channels > 0,
            res matches Ok(d) ==> d.spec_id().namespace is None && d.spec_id().name@ == id@
                && d.spec_name() == name@ && d.spec_direction() == direction && d.spec_channels()
                == channels && d.spec_timing() == timing && !d.spec_default_output()
                && !d.spec_default_input(),
            res matches Err(e) ==> e is Eval && e->Eval_0@
                == "CoreAudio device channel count must be greater than zero"@,
    {
        if channels == 0 {
            return Err(Error::eval("CoreAudio device channel count must be greater than zero"));
        }
        Ok(
            CoreAudioDevice {
                id: Symbol::new(id),
                name,
                direction,
                channels,
                timing,
                default_output: false,
                default_input: false,
            },
        )
    }

    /// Builds an output-direction device.
    pub fn output(id: String, name: String, channels: usize, timing: CoreAudioTiming) -> (res: Result<
        CoreAudioDevice,
        Error,
    >)
        ensures
            res is Ok <==> channels > 0,
            res matches Ok(d) ==> d.spec_id().namespace is None && d.spec_id().name@ == id@
                && d.spec_name() == name@ && d.spec_direction() == HostDirection::Output
                && d.spec_channels() == channels && d.spec_timing() == timing
                && !d.spec_default_output() && !d.spec_default_input(),
            res matches Err(e) ==> e is Eval,
    {
        CoreAudioDevice::new(id, name, HostDirection::Output, channels, timing)
    }

    /// Builds an input-direction device.
    pub fn input(id: String, name: String, channels: usize, timing: CoreAudioTiming) -> (res: Result<
        CoreAudioDevice,
        Error,
    >)
        ensures
            res is Ok <==> channels > 0,
            res matches Ok(d) ==> d.spec_id().namespace is None && d.spec_id().name@ == id@
                && d.spec_name() == name@ && d.spec_direction() == HostDirection::Input
                && d.spec_channels() == channels && d.spec_timing() == timing
                && !d.spec_default_output() && !d.spec_default_input(),
            res matches Err(e) ==> e is Eval,
    {
        CoreAudioDevice::new(id, name, HostDirection::Input, channels, timing)
    }

    /// Builds a duplex (input and output) device.
    pub fn duplex(id: String, name: String, channels: usize, timing: CoreAudioTiming) -> (res: Result<
        CoreAudioDevice,
        Error,
    >)
        ensures
            res is Ok <==> channels > 0,
            res matches Ok(d) ==> d.spec_id().namespace is None && d.spec_id().name@ == id@
                && d.spec_name() == name@ && d.spec_direction() == HostDirection::Duplex
                && d.spec_channels() == channels && d.spec_timing() == timing
                && !d.spec_default_output() && !d.spec_default_input(),
            res matches Err(e) ==> e is Eval,
    {
        CoreAudioDevice::new(id, name, HostDirection::Duplex, channels, timing)
    }

    /// Returns this device flagged as the default output device.
    pub fn with_default_output(self) -> (res: CoreAudioDevice)
        ensures
            res.spec_id() == self.spec_id() && res.spec_name() == self.spec_name()
                && res.spec_direction() == self.spec_direction() && res.spec_channels()
                == self.spec_channels() && res.spec_timing() == self.spec_timing()
                && res.spec_default_output() && res.spec_default_input()
                == self.spec_default_input(),
    {
        proof {
            use_type_invariant(&self);
        }
        CoreAudioDevice {
            id: self.id,
            name: self.name,
            direction: self.direction,
            channels: self.channels,
            timing: self.timing,
            default_output: true,
            default_input: self.default_input,
        }
    }

    /// Returns this device flagged as the default input device.
    pub fn with_default_input(self) -> (res: CoreAudioDevice)
        ensures
            res.spec_id() == self.spec_id() && res.spec_name() == self.spec_name()
                && res.spec_direction() == self.spec_direction() && res.spec_channels()
                == self.spec_channels() && res.spec_timing() == self.spec_timing()
                && res.spec_default_input() && res.spec_default_output()
                == self.spec_default_output(),
    {
        proof {
            use_type_invariant(&self);
        }
        CoreAudioDevice {
            id: self.id,
            name: self.name,
            direction: self.direction,
            channels: self.channels,
            timing: self.timing,
            default_output: self.default_output,
            default_input: true,
        }
    }

    /// Returns the device's identifying symbol.
    pub fn id(&self) -> (res: &Symbol)
        ensures
            *res == self.spec_id(),
    {
        &self.id
    }

    /// Returns the device's human-readable display name.
    pub fn name(&self) -> (res: &str)
        ensures
            res@ == self.spec_name(),
    {
        self.name.as_str()
    }

    /// Returns the device's I/O direction.
    pub fn direction(&self) -> (res: HostDirection)
        ensures
            res == self.spec_direction(),
    {
        self.direction
    }

    /// Returns the device's channel count.
    pub fn channels(&self) -> (res: usize)
        ensures
            res == self.spec_channels(),
            res > 0,
    {
        proof {
            use_type_invariant(self);
        }
        self.channels
    }

    /// Returns the device's timing metadata.
    pub fn timing(&self) -> (res: CoreAudioTiming)
        ensures
            res == self.spec_timing(),
    {
        self.timing
    }

    /// Returns whether this device is flagged as the default output.
    pub fn default_output(&self) -> (res: bool)
        ensures
            res == self.spec_default_output(),
    {
        self.default_output
    }

    /// Returns whether this device is flagged as the default input.
    pub fn default_input(&self) -> (res: bool)
        ensures
            res == self.spec_default_input(),
    {
        self.default_input
    }

    /// Returns whether this device can serve a stream in the requested
    /// direction; a duplex device serves any direction.
    pub fn is_compatible_with(&self, requested: HostDirection) -> (res: bool)
        ensures
            res == direction_serves(self.spec_direction(), requested),
    {
        direction_compatible(self.direction, requested)
    }

    /// Returns the `<id>/port` symbol naming this device's host port.
    pub fn port_symbol(&self) -> (res: Symbol)
        ensures
            res.namespace is None,
            res.name@ == self.spec_id().name@ + "/port"@,
    {
        Symbol::new(self.id.name.clone().concat("/port"))
    }

    /// Returns the CoreAudio backend symbol this device belongs to.
    pub fn backend(&self) -> (res: Symbol)
        ensures
            symbol_value(res) == coreaudio_backend_value(),
    {
        coreaudio_backend_symbol()
    }
}

impl Clone for CoreAudioDevice {
    fn clone(&self) -> (res: CoreAudioDevice)
        ensures
            res == *self,
    {
        proof {
            use_type_invariant(self);
        }
        CoreAudioDevice {
            id: self.id.clone(),
            name: self.name.clone(),
            direction: self.direction,
            channels: self.channels,
            timing: self.timing,
            default_output: self.default_output,
            default_input: self.default_input,
        }
    }
}

/// The CoreAudio backend symbol: namespace `stream/host`, name `coreaudio`.
pub open spec fn coreaudio_backend_value() -> (Option<Seq<char>>, Seq<char>) {
    (Some("stream/host"@), "coreaudio"@)
}

/// The CoreAudio clock symbol: namespace `clock`, name `coreaudio`.
pub open spec fn coreaudio_clock_value() -> (Option<Seq<char>>, Seq<char>) {
    (Some("clock"@), "coreaudio"@)
}

/// Returns the symbol identifying the CoreAudio host backend.
pub fn coreaudio_backend_symbol() -> (res: Symbol)
    ensures
        symbol_value(res) == coreaudio_backend_value(),
{
    Symbol::qualified("stream/host", "coreaudio")
}

/// Returns the symbol of the CoreAudio transport surface.
pub fn coreaudio_transport_symbol() -> (res: Symbol)
    ensures
        symbol_value(res) == (Some("stream/transport"@), "coreaudio"@),
{
    Symbol::qualified("stream/transport", "coreaudio")
}

/// Returns the clock symbol stamped onto streams opened by this backend.
pub fn coreaudio_clock_symbol() -> (res: Symbol)
    ensures
        symbol_value(res) == coreaudio_clock_value(),
{
    Symbol::qualified("clock", "coreaudio")
}

/// Returns the candidate name under which configuration probes know this
/// backend; it is the name of the backend symbol.
pub fn coreaudio_audio_backend_candidate() -> (res: &'static str)
    ensures
        res@ == "coreaudio"@,
        res@ == coreaudio_backend_value().1,
{
    "coreaudio"
}

/// Preferred macOS PCM backend order: portable first, native when needed.
pub fn macos_audio_backend_priority() -> (res: Vec<Symbol>)
    ensures
        res@.len() == 3,
        symbol_value(res@[0]) == (Some("stream/host"@), "portaudio"@),
        symbol_value(res@[1]) == (Some("stream/host"@), "rtaudio"@),
        symbol_value(res@[2]) == coreaudio_backend_value(),
{
    let mut res: Vec<Symbol> = Vec::new();
    res.push(Symbol::qualified("stream/host", "portaudio"));
    res.push(Symbol::qualified("stream/host", "rtaudio"));
    res.push(coreaudio_backend_symbol());
    res
}

/// Preferred macOS MIDI backend order keeps RtMidi first.
pub fn macos_midi_backend_priority() -> (res: Vec<Symbol>)
    ensures
        res@.len() == 2,
        symbol_value(res@[0]) == (Some("stream/host"@), "rtmidi"@),
        symbol_value(res@[1]) == (Some("stream/host"@), "coremidi"@),
{
    let mut res: Vec<Symbol> = Vec::new();
    res.push(Symbol::qualified("stream/host", "rtmidi"));
    res.push(Symbol::qualified("stream/host", "coremidi"));
    res
}

/// Some device of the sequence can serve `direction`.
pub open spec fn coreaudio_any_serves(devices: Seq<CoreAudioDevice>, direction: HostDirection) -> bool {
    exists|i: int| 0 <= i < devices.len() && direction_serves(#[trigger] devices[i].spec_direction(), direction)
}

/// Some device of the sequence is duplex.
pub open spec fn coreaudio_any_duplex(devices: Seq<CoreAudioDevice>) -> bool {
    exists|i: int| 0 <= i < devices.len() && #[trigger] devices[i].spec_direction() == HostDirection::Duplex
}

/// The capabilities a CoreAudio backend over `devices` advertises: capture,
/// playback and duplex as the devices allow, hot-plug, reconnect, and for
/// a fake backend offline and fake.
pub open spec fn coreaudio_capabilities(devices: Seq<CoreAudioDevice>, fake: bool) -> Seq<HostBackendCapability> {
    (if coreaudio_any_serves(devices, HostDirection::Input) {
        seq![HostBackendCapability::AudioInput]
    } else {
        Seq::empty()
    }) + (if coreaudio_any_serves(devices, HostDirection::Output) {
        seq![HostBackendCapability::AudioOutput]
    } else {
        Seq::empty()
    }) + (if coreaudio_any_duplex(devices) {
        seq![HostBackendCapability::Duplex]
    } else {
        Seq::empty()
    }) + seq![HostBackendCapability::Hotplug, HostBackendCapability::Reconnect] + (if fake {
        seq![HostBackendCapability::Offline, HostBackendCapability::Fake]
    } else {
        Seq::empty()
    })
}

/// Derives the capabilities a CoreAudio backend over `devices` advertises.
pub fn coreaudio_capabilities_for(devices: &[CoreAudioDevice], fake: bool) -> (res: Vec<HostBackendCapability>)
    ensures
        res@ == coreaudio_capabilities(devices@, fake),
{
    let n = devices.len();
    let mut inputs = false;
    let mut outputs = false;
    let mut duplex = false;
    let mut i: usize = 0;
    while i < n
        invariant
            n == devices@.len(),
            i <= n,
            inputs == exists|j: int| 0 <= j < i && direction_serves(#[trigger] devices@[j].spec_direction(), HostDirection::Input),
            outputs == exists|j: int| 0 <= j < i && direction_serves(#[trigger] devices@[j].spec_direction(), HostDirection::Output),
            duplex == exists|j: int| 0 <= j < i && #[trigger] devices@[j].spec_direction() == HostDirection::Duplex,
        decreases n - i,
    {
        let d = &devices[i];
        if d.is_compatible_with(HostDirection::Input) {
            inputs = true;
        }
        if d.is_compatible_with(HostDirection::Output) {
            outputs = true;
        }
        if d.direction() == HostDirection::Duplex {
            duplex = true;
        }
        i = i + 1;
    }
    let mut capabilities: Vec<HostBackendCapability> = Vec::new();
    if inputs {
        capabilities.push(HostBackendCapability::AudioInput);
    }
    if outputs {
        capabilities.push(HostBackendCapability::AudioOutput);
    }
    if duplex {
        capabilities.push(HostBackendCapability::Duplex);
    }
    capabilities.push(HostBackendCapability::Hotplug);
    capabilities.push(HostBackendCapability::Reconnect);
    if fake {
        capabilities.push(HostBackendCapability::Offline);
        capabilities.push(HostBackendCapability::Fake);
    }
    assert(capabilities@ =~= coreaudio_capabilities(devices@, fake));
    capabilities
}

/// A device whose symbol is `id`.
pub open spec fn coreaudio_device_with_id(id: (Option<Seq<char>>, Seq<char>)) -> spec_fn(CoreAudioDevice) -> bool {
    |d: CoreAudioDevice| symbol_value(d.spec_id()) == id
}

/// A device flagged as the default output.
pub open spec fn coreaudio_is_default_output() -> spec_fn(CoreAudioDevice) -> bool {
    |d: CoreAudioDevice| d.spec_default_output()
}

/// A device flagged as the default input.
pub open spec fn coreaudio_is_default_input() -> spec_fn(CoreAudioDevice) -> bool {
    |d: CoreAudioDevice| d.spec_default_input()
}

/// CoreAudio host backend with provider-supplied deterministic devices.
#[derive(Debug)]
pub struct CoreAudioBackend {
    devices: Vec<CoreAudioDevice>,
    hardware_required: bool,
    capabilities: Vec<HostBackendCapability>,
}

impl CoreAudioBackend {
    #[verifier::type_invariant]
    spec fn well_formed(self) -> bool {
        self.capabilities@ == coreaudio_capabilities(self.devices@, !self.hardware_required)
    }

    /// The backend's devices.
    pub closed spec fn spec_devices(&self) -> Seq<CoreAudioDevice> {
        self.devices@
    }

    /// Whether the backend needs real hardware.
    pub closed spec fn spec_hardware_required(&self) -> bool {
        self.hardware_required
    }

    /// The capabilities the backend advertises.
    pub closed spec fn spec_capabilities(&self) -> Seq<HostBackendCapability> {
        self.capabilities@
    }

    /// Builds a hardware backend over the given provider-supplied devices,
    /// with capabilities derived from the device directions.
    pub fn new(devices: Vec<CoreAudioDevice>) -> (res: CoreAudioBackend)
        ensures
            res.spec_devices() == devices@,
            res.spec_hardware_required(),
            res.spec_capabilities() == coreaudio_capabilities(devices@, false),
    {
        let capabilities = coreaudio_capabilities_for(devices.as_slice(), false);
        CoreAudioBackend { devices, hardware_required: true, capabilities }
    }

    /// Builds a deterministic offline backend with a fake stereo default
    /// output (`coreaudio/default-output`) and a fake stereo default input
    /// (`coreaudio/default-input`), both at the low-latency default timing.
    pub fn fake() -> (res: CoreAudioBackend)
        ensures
            !res.spec_hardware_required(),
            res.spec_capabilities() == coreaudio_capabilities(res.spec_devices(), true),
            res.spec_devices().len() == 2,
            res.spec_devices()[0].spec_id().name@ == "coreaudio/default-output"@,
            res.spec_devices()[0].spec_name() == "Fake CoreAudio Default Output"@,
            res.spec_devices()[0].spec_direction() == HostDirection::Output,
            res.spec_devices()[0].spec_channels() == 2,
            res.spec_devices()[0].spec_default_output(),
            !res.spec_devices()[0].spec_default_input(),
            res.spec_devices()[0].spec_timing().spec_sample_rate_hz() == 48_000,
            res.spec_devices()[1].spec_id().name@ == "coreaudio/default-input"@,
            res.spec_devices()[1].spec_name() == "Fake CoreAudio Default Input"@,
            res.spec_devices()[1].spec_direction() == HostDirection::Input,
            res.spec_devices()[1].spec_channels() == 2,
            res.spec_devices()[1].spec_default_input(),
            !res.spec_devices()[1].spec_default_output(),
            res.spec_devices()[1].spec_timing().spec_sample_rate_hz() == 48_000,
    {
        let timing = CoreAudioTiming::default_low_latency();
        let output = CoreAudioDevice::output(
            String::from_str("coreaudio/default-output"),
            String::from_str("Fake CoreAudio Default Output"),
            2,
            timing,
        ).unwrap().with_default_output();
        let input = CoreAudioDevice::input(
            String::from_str("coreaudio/default-input"),
            String::from_str("Fake CoreAudio Default Input"),
            2,
            timing,
        ).unwrap().with_default_input();
        let mut devices: Vec<CoreAudioDevice> = Vec::new();
        devices.push(output);
        devices.push(input);
        let capabilities = coreaudio_capabilities_for(devices.as_slice(), true);
        CoreAudioBackend { devices, hardware_required: false, capabilities }
    }

    /// Returns the devices known to this backend.
    pub fn list_devices(&self) -> (res: &[CoreAudioDevice])
        ensures
            res@ == self.spec_devices(),
    {
        self.devices.as_slice()
    }

    /// Returns whether the backend needs real hardware.
    pub fn hardware_required(&self) -> (res: bool)
        ensures
            res == self.spec_hardware_required(),
    {
        self.hardware_required
    }

    /// Returns the capabilities the backend advertises.
    pub fn capabilities(&self) -> (res: &[HostBackendCapability])
        ensures
            res@ == self.spec_capabilities(),
            res@ == coreaudio_capabilities(self.spec_devices(), !self.spec_hardware_required()),
    {
        proof {
            use_type_invariant(self);
        }
        self.capabilities.as_slice()
    }

    /// Returns the first device flagged as the default output, if any.
    pub fn default_output(&self) -> (res: Option<&CoreAudioDevice>)
        ensures
            match first_index(self.spec_devices(), coreaudio_is_default_output()) {
                Some(i) => res == Some(&self.spec_devices()[i]),
                None => res is None,
            },
    {
        let n = self.devices.len();
        let mut i: usize = 0;
        while i < n
            invariant
                n == self.devices@.len(),
                i <= n,
                forall|j: int| 0 <= j < i ==> !(#[trigger] coreaudio_is_default_output()(self.devices@[j])),
            decreases n - i,
        {
            let d = &self.devices[i];
            if d.default_output() {
                proof {
                    lemma_first_index(self.devices@, coreaudio_is_default_output(), i as int);
                }
                return Some(d);
            }
            i = i + 1;
        }
        proof {
            lemma_first_index(self.devices@, coreaudio_is_default_output(), 0);
        }
        None
    }

    /// Returns the first device flagged as the default input, if any.
    pub fn default_input(&self) -> (res: Option<&CoreAudioDevice>)
        ensures
            match first_index(self.spec_devices(), coreaudio_is_default_input()) {
                Some(i) => res == Some(&self.spec_devices()[i]),
                None => res is None,
            },
    {
        let n = self.devices.len();
        let mut i: usize = 0;
        while i < n
            invariant
                n == self.devices@.len(),
                i <= n,
                forall|j: int| 0 <= j < i ==> !(#[trigger] coreaudio_is_default_input()(self.devices@[j])),
            decreases n - i,
        {
            let d = &self.devices[i];
            if d.default_input() {
                proof {
                    lemma_first_index(self.devices@, coreaudio_is_default_input(), i as int);
                }
                return Some(d);
            }
            i = i + 1;
        }
        proof {
            lemma_first_index(self.devices@, coreaudio_is_default_input(), 0);
        }
        None
    }

    /// Finds the device with symbol `device_id` and checks that it can serve
    /// `direction`.
    pub fn require_device(&self, device_id: &Symbol, direction: HostDirection) -> (res: Result<
        &CoreAudioDevice,
        Error,
    >)
        ensures
            match first_index(self.spec_devices(), coreaudio_device_with_id(symbol_value(*device_id))) {
                Some(i) => if direction_serves(self.spec_devices()[i].spec_direction(), direction) {
                    res == Ok::<&CoreAudioDevice, Error>(&self.spec_devices()[i])
                } else {
                    res matches Err(e) && e == Error::TypeMismatch {
                        expected: "CoreAudio device with requested direction",
                        found: "CoreAudio device with another direction",
                    }
                },
                None => res matches Err(e) && e is Eval && e->Eval_0@ == "CoreAudio device "@
                    + symbol_text(*device_id) + " was not found"@,
            },
    {
        let n = self.devices.len();
        let mut i: usize = 0;
        while i < n
            invariant
                n == self.devices@.len(),
                i <= n,
                forall|j: int| 0 <= j < i ==> !(#[trigger] coreaudio_device_with_id(symbol_value(*device_id))(self.devices@[j])),
            decreases n - i,
        {
            let d = &self.devices[i];
            if d.id().same_as(device_id) {
                proof {
                    lemma_first_index(self.devices@, coreaudio_device_with_id(symbol_value(*device_id)), i as int);
                }
                if !d.is_compatible_with(direction) {
                    return Err(
                        Error::TypeMismatch {
                            expected: "CoreAudio device with requested direction",
                            found: "CoreAudio device with another direction",
                        },
                    );
                }
                return Ok(d);
            }
            i = i + 1;
        }
        proof {
            lemma_first_index(self.devices@, coreaudio_device_with_id(symbol_value(*device_id)), 0);
        }
        Err(Error::eval3("CoreAudio device ", device_id.to_text().as_str(), " was not found"))
    }

    /// `res` answers a PCM request for the device with symbol `id` in
    /// `direction`: the first device with that symbol must serve the
    /// direction, and the stream then runs on the CoreAudio clock at the
    /// device rate with the device's latencies in the directions it uses.
    pub open spec fn answers(
        &self,
        res: Result<HostOpenPlan, Error>,
        id: (Option<Seq<char>>, Seq<char>),
        direction: HostDirection,
        capacity: usize,
    ) -> bool {
        match first_index(self.spec_devices(), coreaudio_device_with_id(id)) {
            Some(i) => {
                let d = self.spec_devices()[i];
                if direction_serves(d.spec_direction(), direction) {
                    res matches Ok(plan) && symbol_value(plan.backend) == coreaudio_backend_value()
                        && symbol_value(plan.device) == id && plan.pcm && plan.direction == direction
                        && plan.buffer_capacity == capacity && plan.latency == latency_of(
                        direction,
                        d.spec_timing().spec_input_latency_frames(),
                        d.spec_timing().spec_output_latency_frames(),
                    ) && symbol_value(plan.clock) == coreaudio_clock_value() && plan.sample_rate_hz
                        == d.spec_timing().spec_sample_rate_hz() && plan.deterministic_clock
                } else {
                    res matches Err(e) && e == Error::TypeMismatch {
                        expected: "CoreAudio device with requested direction",
                        found: "CoreAudio device with another direction",
                    }
                }
            },
            None => res matches Err(e) && e is Eval,
        }
    }

    /// Decides an open request: it must address this backend and a PCM
    /// stream, and name a device that serves the requested direction.
    pub fn open(&self, request: &HostOpenRequest) -> (res: Result<HostOpenPlan, Error>)
        ensures
            symbol_value(request.backend) != coreaudio_backend_value() ==> (res matches Err(e) && e is Eval
                && e->Eval_0@ == "CoreAudio backend cannot open "@ + symbol_text(request.backend)
                + " requests"@),
            symbol_value(request.backend) == coreaudio_backend_value() && !request.pcm ==> (res matches Err(e)
                && e == Error::TypeMismatch {
                expected: "PCM stream request",
                found: "non-PCM stream request",
            }),
            symbol_value(request.backend) == coreaudio_backend_value() && request.pcm ==> self.answers(
                res,
                symbol_value(request.device),
                request.direction,
                request.buffer_capacity,
            ),
            symbol_value(request.backend) == coreaudio_backend_value() && request.pcm && first_index(
                self.spec_devices(),
                coreaudio_device_with_id(symbol_value(request.device)),
            ) is None ==> (res matches Err(e) && e is Eval && e->Eval_0@ == "CoreAudio device "@
                + symbol_text(request.device) + " was not found"@),
            res matches Ok(plan) ==> plan.device == request.device,
    {
        let backend = coreaudio_backend_symbol();
        if !request.backend.same_as(&backend) {
            return Err(
                Error::eval3(
                    "CoreAudio backend cannot open ",
                    request.backend.to_text().as_str(),
                    " requests",
                ),
            );
        }
        if !request.pcm {
            return Err(
                Error::TypeMismatch {
                    expected: "PCM stream request",
                    found: "non-PCM stream request",
                },
            );
        }
        let device = match self.require_device(&request.device, request.direction) {
            Ok(d) => d,
            Err(e) => return Err(e),
        };
        let timing = device.timing();
        Ok(
            HostOpenPlan {
                backend,
                device: request.device.clone(),
                pcm: true,
                direction: request.direction,
                buffer_capacity: request.buffer_capacity,
                latency: latency_for(
                    request.direction,
                    timing.input_latency_frames(),
                    timing.output_latency_frames(),
                ),
                clock: coreaudio_clock_symbol(),
                sample_rate_hz: timing.sample_rate_hz(),
                deterministic_clock: true,
            },
        )
    }

    /// Lists the backend's devices and their ports, in registration order:
    /// each device on the CoreAudio clock with its timing's buffer, and its
    /// `<id>/port` port.
    pub fn inventory(&self) -> (res: HostDeviceInventory)
        ensures
            symbol_value(res.backend) == coreaudio_backend_value(),
            res.devices@.len() == self.spec_devices().len(),
            res.ports@.len() == self.spec_devices().len(),
            forall|i: int|
                0 <= i < self.spec_devices().len() ==> device_spec_is(
                    #[trigger] res.devices@[i],
                    symbol_value(self.spec_devices()[i].spec_id()),
                    coreaudio_backend_value(),
                    self.spec_devices()[i].spec_direction(),
                    coreaudio_clock_value(),
                    self.spec_devices()[i].spec_timing().spec_buffer_frames(),
                ),
            forall|i: int|
                0 <= i < self.spec_devices().len() ==> port_spec_is(
                    #[trigger] res.ports@[i],
                    (None, self.spec_devices()[i].spec_id().name@ + "/port"@),
                    symbol_value(self.spec_devices()[i].spec_id()),
                    coreaudio_backend_value(),
                    self.spec_devices()[i].spec_direction(),
                ),
    {
        let mut devices: Vec<HostDeviceSpec> = Vec::new();
        let mut ports: Vec<HostPortSpec> = Vec::new();
        let mut i: usize = 0;
        while i < self.devices.len()
            invariant
                i <= self.devices@.len(),
                devices@.len() == i,
                ports@.len() == i,
                forall|j: int|
                    0 <= j < i ==> device_spec_is(
                        #[trigger] devices@[j],
                        symbol_value(self.devices@[j].spec_id()),
                        coreaudio_backend_value(),
                        self.devices@[j].spec_direction(),
                        coreaudio_clock_value(),
                        self.devices@[j].spec_timing().spec_buffer_frames(),
                    ),
                forall|j: int|
                    0 <= j < i ==> port_spec_is(
                        #[trigger] ports@[j],
                        (None, self.devices@[j].spec_id().name@ + "/port"@),
                        symbol_value(self.devices@[j].spec_id()),
                        coreaudio_backend_value(),
                        self.devices@[j].spec_direction(),
                    ),
            decreases self.devices@.len() - i,
        {
            let device = &self.devices[i];
            devices.push(
                HostDeviceSpec {
                    device: device.id().clone(),
                    backend: coreaudio_backend_symbol(),
                    direction: device.direction(),
                    clock: coreaudio_clock_symbol(),
                    buffer_frames: device.timing().buffer_frames(),
                },
            );
            ports.push(
                HostPortSpec {
                    port: device.port_symbol(),
                    device: device.id().clone(),
                    backend: coreaudio_backend_symbol(),
                    direction: device.direction(),
                },
            );
            i = i + 1;
        }
        HostDeviceInventory { backend: coreaudio_backend_symbol(), devices, ports }
    }

    fn open_on(&self, device: &CoreAudioDevice, direction: HostDirection, capacity: usize) -> (res:
        Result<HostOpenPlan, Error>)
        ensures
            self.answers(res, symbol_value(device.spec_id()), direction, capacity),
    {
        let request = HostOpenRequest {
            backend: coreaudio_backend_symbol(),
            device: device.id().clone(),
            pcm: true,
            direction,
            buffer_capacity: capacity,
        };
        self.open(&request)
    }

    /// Opens an output stream on the default output device.
    pub fn open_default_output(&self, capacity: usize) -> (res: Result<HostOpenPlan, Error>)
        ensures
            match first_index(self.spec_devices(), coreaudio_is_default_output()) {
                Some(i) => self.answers(
                    res,
                    symbol_value(self.spec_devices()[i].spec_id()),
                    HostDirection::Output,
                    capacity,
                ),
                None => res matches Err(e) && e is Eval && e->Eval_0@
                    == "CoreAudio default output was not found"@,
            },
    {
        match self.default_output() {
            Some(device) => self.open_on(device, HostDirection::Output, capacity),
            None => Err(Error::eval("CoreAudio default output was not found")),
        }
    }

    /// Opens an input stream on the default input device.
    pub fn open_default_input(&self, capacity: usize) -> (res: Result<HostOpenPlan, Error>)
        ensures
            match first_index(self.spec_devices(), coreaudio_is_default_input()) {
                Some(i) => self.answers(
                    res,
                    symbol_value(self.spec_devices()[i].spec_id()),
                    HostDirection::Input,
                    capacity,
                ),
                None => res matches Err(e) && e is Eval && e->Eval_0@
                    == "CoreAudio default input was not found"@,
            },
    {
        match self.default_input() {
            Some(device) => self.open_on(device, HostDirection::Input, capacity),
            None => Err(Error::eval("CoreAudio default input was not found")),
        }
    }
}

impl Default for CoreAudioBackend {
    /// A hardware-required backend with no devices.
    fn default() -> (res: CoreAudioBackend)
        ensures
            res.spec_devices() == Seq::<CoreAudioDevice>::empty(),
            res.spec_hardware_required(),
            res.spec_capabilities() == coreaudio_capabilities(Seq::<CoreAudioDevice>::empty(), false),
    {
        CoreAudioBackend::new(Vec::new())
    }
}

} // verus!
