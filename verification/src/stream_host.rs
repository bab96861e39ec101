//! Stream-host vocabulary shared by the modeled backends: directions,
//! backend capabilities, latencies and the plan a backend answers an open
//! request with.
use vstd::prelude::*;
use crate::symbol::{Symbol, symbol_value};

verus! {

/// The direction of a host stream or device.
#[derive(Clone, Copy, Debug, PartialEq, Eq, Structural)]
pub enum HostDirection {
    /// Capture.
    Input,
    /// Playback.
    Output,
    /// Capture and playback.
    Duplex,
}

/// A device of direction `device` can serve a stream of direction
/// `requested`: the directions match, or the device is duplex.
pub open spec fn direction_serves(device: HostDirection, requested: HostDirection) -> bool {
    device == requested || device == HostDirection::Duplex
}

/// Reports whether a device of direction `device` can serve `requested`.
pub fn direction_compatible(device: HostDirection, requested: HostDirection) -> (res: bool)
    ensures
        res == direction_serves(device, requested),
{
    device == requested || device == HostDirection::Duplex
}

/// What a host backend can do.
#[derive(Clone, Copy, Debug, PartialEq, Eq, Structural)]
pub enum HostBackendCapability {
    /// Audio capture.
    AudioInput,
    /// Audio playback.
    AudioOutput,
    /// Full-duplex devices.
    Duplex,
    /// Devices may appear and disappear at run time.
    Hotplug,
    /// Streams reconnect after a device loss.
    Reconnect,
    /// Runs without hardware.
    Offline,
    /// Serves deterministic fake devices.
    Fake,
}

/// The PCM sample encoding of a device or stream.
#[derive(Clone, Copy, Debug, PartialEq, Eq, Structural)]
pub enum PcmSampleFormat {
    /// Signed 16-bit integer samples.
    I16,
    /// 32-bit float samples.
    F32,
}

/// Input and output latency of an opened stream, in frames.
#[derive(Clone, Copy, Debug, PartialEq, Eq, Structural)]
pub struct HostLatency {
    /// Capture latency in frames.
    pub input_frames: u32,
    /// Playback latency in frames.
    pub output_frames: u32,
}

/// The latency a stream of `direction` reports: only the directions it
/// uses count.
pub open spec fn latency_of(direction: HostDirection, input_frames: u32, output_frames: u32) -> HostLatency {
    match direction {
        HostDirection::Input => HostLatency { input_frames, output_frames: 0 },
        HostDirection::Output => HostLatency { input_frames: 0, output_frames },
        HostDirection::Duplex => HostLatency { input_frames, output_frames },
    }
}

/// Returns the latency a stream of `direction` reports.
pub fn latency_for(direction: HostDirection, input_frames: u32, output_frames: u32) -> (res:
    HostLatency)
    ensures
        res == latency_of(direction, input_frames, output_frames),
{
    match direction {
        HostDirection::Input => HostLatency { input_frames, output_frames: 0 },
        HostDirection::Output => HostLatency { input_frames: 0, output_frames },
        HostDirection::Duplex => HostLatency { input_frames, output_frames },
    }
}

/// A request to open a stream on a backend device.
#[derive(Clone, Debug, PartialEq, Eq)]
pub struct HostOpenRequest {
    /// The backend the request is addressed to.
    pub backend: Symbol,
    /// The device to open.
    pub device: Symbol,
    /// Whether the request is for a PCM stream.
    pub pcm: bool,
    /// The requested stream direction.
    pub direction: HostDirection,
    /// The capacity, in frames, of the bounded stream buffer.
    pub buffer_capacity: usize,
}

/// What a backend opens for an accepted request.
#[derive(Clone, Debug, PartialEq, Eq)]
pub struct HostOpenPlan {
    /// The backend that opened the stream.
    pub backend: Symbol,
    /// The opened device.
    pub device: Symbol,
    /// Whether the stream carries PCM.
    pub pcm: bool,
    /// The stream direction.
    pub direction: HostDirection,
    /// The capacity, in frames, of the bounded stream buffer.
    pub buffer_capacity: usize,
    /// The stream latency.
    pub latency: HostLatency,
    /// The clock the stream runs on.
    pub clock: Symbol,
    /// The clock's sample rate.
    pub sample_rate_hz: u32,
    /// Whether the clock is deterministic (not driven by hardware).
    pub deterministic_clock: bool,
}

/// A device a backend offers, as its inventory lists it. Every device of
/// this crate's backends carries PCM.
#[derive(Clone, Debug)]
pub struct HostDeviceSpec {
    /// The device symbol.
    pub device: Symbol,
    /// The backend that owns the device.
    pub backend: Symbol,
    /// The directions the device serves.
    pub direction: HostDirection,
    /// The clock its streams run on.
    pub clock: Symbol,
    /// The bounded buffer its streams use, in frames.
    pub buffer_frames: usize,
}

/// A routable port a backend offers, as its inventory lists it; ports carry
/// PCM.
#[derive(Clone, Debug)]
pub struct HostPortSpec {
    /// The port symbol.
    pub port: Symbol,
    /// The device that owns the port.
    pub device: Symbol,
    /// The backend that owns the device.
    pub backend: Symbol,
    /// The port's direction.
    pub direction: HostDirection,
}

/// The devices and ports one backend offers.
#[derive(Clone, Debug)]
pub struct HostDeviceInventory {
    /// The backend.
    pub backend: Symbol,
    /// Its devices, in registration order.
    pub devices: Vec<HostDeviceSpec>,
    /// Its ports, in registration order.
    pub ports: Vec<HostPortSpec>,
}

/// `spec` lists `device` of `backend` serving `direction` on `clock` with
/// a buffer of `buffer_frames`.
pub open spec fn device_spec_is(
    spec: HostDeviceSpec,
    device: (Option<Seq<char>>, Seq<char>),
    backend: (Option<Seq<char>>, Seq<char>),
    direction: HostDirection,
    clock: (Option<Seq<char>>, Seq<char>),
    buffer_frames: usize,
) -> bool {
    &&& symbol_value(spec.device) == device
    &&& symbol_value(spec.backend) == backend
    &&& spec.direction == direction
    &&& symbol_value(spec.clock) == clock
    &&& spec.buffer_frames == buffer_frames
}

/// `spec` lists `port` of `device` of `backend` in `direction`.
pub open spec fn port_spec_is(
    spec: HostPortSpec,
    port: (Option<Seq<char>>, Seq<char>),
    device: (Option<Seq<char>>, Seq<char>),
    backend: (Option<Seq<char>>, Seq<char>),
    direction: HostDirection,
) -> bool {
    &&& symbol_value(spec.port) == port
    &&& symbol_value(spec.device) == device
    &&& symbol_value(spec.backend) == backend
    &&& spec.direction == direction
}

} // verus!

verus! {

/// A stream reports the latency of exactly the directions it uses: a
/// playback stream has no capture latency, a capture stream no playback
/// latency, and only a duplex stream reports both.
pub proof fn lemma_latency_follows_direction(direction: HostDirection, input_frames: u32, output_frames: u32)
    ensures
        latency_of(direction, input_frames, output_frames).input_frames == if direction
            == HostDirection::Output {
            0
        } else {
            input_frames
        },
        latency_of(direction, input_frames, output_frames).output_frames == if direction
            == HostDirection::Input {
            0
        } else {
            output_frames
        },
        direction_serves(direction, HostDirection::Input) ==> latency_of(direction, input_frames, output_frames).input_frames == input_frames,
        !direction_serves(direction, HostDirection::Input) ==> latency_of(direction, input_frames, output_frames).input_frames == 0,
        direction_serves(direction, HostDirection::Output) ==> latency_of(direction, input_frames, output_frames).output_frames == output_frames,
        !direction_serves(direction, HostDirection::Output) ==> latency_of(direction, input_frames, output_frames).output_frames == 0,
{
}

/// A duplex device serves every requested direction; any other device
/// serves its own direction and nothing else, so an input device never
/// serves playback and an output device never serves capture.
pub proof fn lemma_direction_serves_own_or_duplex(device: HostDirection, requested: HostDirection)
    ensures
        device == HostDirection::Duplex ==> direction_serves(device, requested),
        device != HostDirection::Duplex ==> (direction_serves(device, requested) <==> requested
            == device),
        direction_serves(device, device),
        !direction_serves(HostDirection::Input, HostDirection::Output),
        !direction_serves(HostDirection::Output, HostDirection::Input),
{
}

/// The first index of `s` whose element satisfies `p`, if any.
pub open spec fn first_index<T>(s: Seq<T>, p: spec_fn(T) -> bool) -> Option<int> {
    if exists|i: int| 0 <= i < s.len() && p(s[i]) && forall|j: int| 0 <= j < i ==> !p(s[j]) {
        Some(
            choose|i: int| 0 <= i < s.len() && p(s[i]) && forall|j: int| 0 <= j < i ==> !p(s[j]),
        )
    } else {
        None
    }
}

/// An index whose element satisfies `p` and follows only elements that do
/// not is the first such index; when no element satisfies `p` there is
/// none.
pub proof fn lemma_first_index<T>(s: Seq<T>, p: spec_fn(T) -> bool, i: int)
    ensures
        (0 <= i < s.len() && p(s[i]) && forall|j: int| 0 <= j < i ==> !p(s[j])) ==> first_index(
            s,
            p,
        ) == Some(i),
        (forall|j: int| 0 <= j < s.len() ==> !p(s[j])) ==> first_index(s, p) is None,
{
    if 0 <= i < s.len() && p(s[i]) && forall|j: int| 0 <= j < i ==> !p(s[j]) {
        let k = choose|k: int|
            0 <= k < s.len() && p(s[k]) && forall|j: int| 0 <= j < k ==> !p(s[j]);
        if k < i {
            assert(!p(s[k]));
        }
        if i < k {
            assert(!p(s[i]));
        }
    }
}

} // verus!
