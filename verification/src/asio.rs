//! The modeled Windows ASIO stream-host adapter: buffer-switch timing,
//! drivers, their ports, and the backend that serves provider-reported
//! drivers.
use vstd::prelude::*;
use vstd::string::StringExecFns;
use crate::error::Error;
use crate::stream_host::{
    HostDeviceInventory, HostDeviceSpec, HostPortSpec, device_spec_is,
    HostBackendCapability, HostDirection, HostOpenPlan, HostOpenRequest, direction_compatible,
    direction_serves, first_index, latency_for, latency_of, lemma_first_index,
};
use crate::symbol::{Symbol, symbol_text, symbol_value};
use crate::text::{decimal, decimal_text, text_eq};

verus! {

/// Timing metadata accepted by an ASIO buffer switch.
#[derive(Clone, Copy, Debug, PartialEq, Eq)]
pub struct AsioTiming {
    sample_rate_hz: u32,
    buffer_frames: usize,
    input_latency_frames: u32,
    output_latency_frames: u32,
}

impl AsioTiming {
    #[verifier::type_invariant]
    spec fn well_formed(self) -> bool {
        self.sample_rate_hz > 0 && self.buffer_frames > 0
    }

    /// The sample rate in hertz.
    pub closed spec fn spec_sample_rate_hz(self) -> u32 {
        self.sample_rate_hz
    }

    /// The buffer switch size in frames.
    pub closed spec fn spec_buffer_frames(self) -> usize {
        self.buffer_frames
    }

    /// The reported input latency in frames.
    pub closed spec fn spec_input_latency_frames(self) -> u32 {
        self.input_latency_frames
    }

    /// The reported output latency in frames.
    pub closed spec fn spec_output_latency_frames(self) -> u32 {
        self.output_latency_frames
    }

    /// Builds timing from a sample rate, a buffer size and the reported
    /// input/output latencies in frames; the rate and the buffer size must
    /// not be zero.
    pub fn new(
        sample_rate_hz: u32,
        buffer_frames: usize,
        input_latency_frames: u32,
        output_latency_frames: u32,
    ) -> (res: Result<AsioTiming, Error>)
        ensures
            res is Ok <==> sample_rate_hz > 0 && buffer_frames > 0,
            res matches Ok(t) ==> t.spec_sample_rate_hz() == sample_rate_hz && t.spec_buffer_frames()
                == buffer_frames && t.spec_input_latency_frames() == input_latency_frames
                && t.spec_output_latency_frames() == output_latency_frames,
            res matches Err(e) ==> e is Eval && (if sample_rate_hz == 0 {
                e->Eval_0@ == "ASIO sample rate must be greater than zero"@
            } else {
                e->Eval_0@ == "ASIO buffer size must be greater than zero"@
            }),
    {
        if sample_rate_hz == 0 {
            return Err(Error::eval("ASIO sample rate must be greater than zero"));
        }
        if buffer_frames == 0 {
            return Err(Error::eval("ASIO buffer size must be greater than zero"));
        }
        Ok(AsioTiming { sample_rate_hz, buffer_frames, input_latency_frames, output_latency_frames })
    }

    /// Returns a 48 kHz, 128-frame timing with 128-frame input and output
    /// latency, a typical low-latency pro-audio configuration.
    pub fn pro_audio_default() -> (res: AsioTiming)
        ensures
            res.spec_sample_rate_hz() == 48_000 && res.spec_buffer_frames() == 128
                && res.spec_input_latency_frames() == 128 && res.spec_output_latency_frames() == 128,
    {
        AsioTiming::new(48_000, 128, 128, 128).unwrap()
    }

    /// Returns the sample rate in hertz.
    pub fn sample_rate_hz(self) -> (res: u32)
        ensures
            res == self.spec_sample_rate_hz(),
            res > 0,
    {
        proof {
            use_type_invariant(&self);
        }
        self.sample_rate_hz
    }

    /// Returns the buffer switch size in frames.
    pub fn buffer_frames(self) -> (res: usize)
        ensures
            res == self.spec_buffer_frames(),
            res > 0,
    {
        proof {
            use_type_invariant(&self);
        }
        self.buffer_frames
    }

    /// Returns the reported input latency in frames.
    pub fn input_latency_frames(self) -> (res: u32)
        ensures
            res == self.spec_input_latency_frames(),
    {
        self.input_latency_frames
    }

    /// Returns the reported output latency in frames.
    pub fn output_latency_frames(self) -> (res: u32)
        ensures
            res == self.spec_output_latency_frames(),
    {
        self.output_latency_frames
    }
}

/// The direction implied by a driver's channel counts; a driver without
/// channels counts as duplex.
pub open spec fn asio_direction_of(audio_inputs: usize, audio_outputs: usize) -> HostDirection {
    if audio_inputs > 0 && audio_outputs > 0 {
        HostDirection::Duplex
    } else if audio_inputs > 0 {
        HostDirection::Input
    } else if audio_outputs > 0 {
        HostDirection::Output
    } else {
        HostDirection::Duplex
    }
}

/// A driver's direction follows its channels: it serves capture exactly
/// when it has inputs and playback exactly when it has outputs, so it is
/// duplex exactly when it has both, input-only with inputs alone and
/// output-only with outputs alone. (Every driver has at least one
/// channel.)
pub proof fn lemma_asio_direction_follows_channels(audio_inputs: usize, audio_outputs: usize)
    requires
        audio_inputs > 0 || audio_outputs > 0,
    ensures
        direction_serves(asio_direction_of(audio_inputs, audio_outputs), HostDirection::Input)
            <==> audio_inputs > 0,
        direction_serves(asio_direction_of(audio_inputs, audio_outputs), HostDirection::Output)
            <==> audio_outputs > 0,
        (asio_direction_of(audio_inputs, audio_outputs) == HostDirection::Duplex) <==> (audio_inputs
            > 0 && audio_outputs > 0),
        audio_inputs == 0 ==> asio_direction_of(audio_inputs, audio_outputs) == HostDirection::Output,
        audio_outputs == 0 ==> asio_direction_of(audio_inputs, audio_outputs) == HostDirection::Input,
{
}

/// The symbol text `asio/<name>/driver` of a driver.
pub open spec fn asio_driver_id_text(name: Seq<char>) -> Seq<char> {
    "asio/"@ + name + "/driver"@
}

/// SIM-visible ASIO driver metadata.
#[derive(Debug, PartialEq, Eq)]
pub struct AsioDriver {
    id: Symbol,
    name: String,
    timing: AsioTiming,
    audio_inputs: usize,
    audio_outputs: usize,
}

impl AsioDriver {
    #[verifier::type_invariant]
    spec fn well_formed(self) -> bool {
        &&& self.name@.len() > 0
        &&& self.audio_inputs > 0 || self.audio_outputs > 0
        &&& self.id.namespace is None
        &&& self.id.name@ == asio_driver_id_text(self.name@)
    }

    /// The driver's symbol.
    pub closed spec fn spec_id(&self) -> Symbol {
        self.id
    }

    /// The driver's name.
    pub closed spec fn spec_name(&self) -> Seq<char> {
        self.name@
    }

    /// The driver's buffer timing.
    pub closed spec fn spec_timing(&self) -> AsioTiming {
        self.timing
    }

    /// The driver's audio input channel count.
    pub closed spec fn spec_audio_inputs(&self) -> usize {
        self.audio_inputs
    }

    /// The driver's audio output channel count.
    pub closed spec fn spec_audio_outputs(&self) -> usize {
        self.audio_outputs
    }

    /// The driver's direction.
    pub open spec fn spec_direction(&self) -> HostDirection {
        asio_direction_of(self.spec_audio_inputs(), self.spec_audio_outputs())
    }

    /// Builds a driver with the given name, timing and channel counts, with
    /// the symbol `asio/<name>/driver`; the name must not be empty and the
    /// driver must expose at least one channel.
    pub fn new(name: String, timing: AsioTiming, audio_inputs: usize, audio_outputs: usize) -> (res:
        Result<AsioDriver, Error>)
        ensures
            res is Ok <==> name@.len() > 0 && (audio_inputs > 0 || audio_outputs > 0),
            res matches Ok(d) ==> d.spec_name() == name@ && d.spec_timing() == timing
                && d.spec_audio_inputs() == audio_inputs && d.spec_audio_outputs() == audio_outputs
                && d.spec_id().namespace is None && d.spec_id().name@ == asio_driver_id_text(name@),
            res matches Err(e) ==> e is Eval && (if name@.len() == 0 {
                e->Eval_0@ == "ASIO driver name must not be empty"@
            } else {
                e->Eval_0@ == "ASIO driver must expose at least one audio channel"@
            }),
    {
        if name.as_str().is_empty() {
            return Err(Error::eval("ASIO driver name must not be empty"));
        }
        if audio_inputs == 0 && audio_outputs == 0 {
            return Err(Error::eval("ASIO driver must expose at least one audio channel"));
        }
        let id = Symbol::new(String::from_str("asio/").concat(name.as_str()).concat("/driver"));
        Ok(AsioDriver { id, name, timing, audio_inputs, audio_outputs })
    }

    /// Returns the bundled `SIM-ASIO` driver: stereo in/out with the
    /// pro-audio default timing.
    pub fn sim_default() -> (res: Result<AsioDriver, Error>)
        ensures
            res matches Ok(d) && d.spec_name() == "SIM-ASIO"@ && d.spec_audio_inputs() == 2
                && d.spec_audio_outputs() == 2 && d.spec_timing().spec_sample_rate_hz() == 48_000
                && d.spec_timing().spec_buffer_frames() == 128
                && d.spec_timing().spec_input_latency_frames() == 128
                && d.spec_timing().spec_output_latency_frames() == 128,
    {
        proof {
            reveal_strlit("SIM-ASIO");
        }
        AsioDriver::new(String::from_str("SIM-ASIO"), AsioTiming::pro_audio_default(), 2, 2)
    }

    /// Returns the stable driver id (`asio/<name>/driver`).
    pub fn id(&self) -> (res: &Symbol)
        ensures
            *res == self.spec_id(),
    {
        &self.id
    }

    /// Returns the human-readable driver name.
    pub fn name(&self) -> (res: &str)
        ensures
            res@ == self.spec_name(),
    {
        self.name.as_str()
    }

    /// Returns the driver's buffer timing.
    pub fn timing(&self) -> (res: AsioTiming)
        ensures
            res == self.spec_timing(),
    {
        self.timing
    }

    /// Returns the number of audio input channels the driver exposes.
    pub fn audio_inputs(&self) -> (res: usize)
        ensures
            res == self.spec_audio_inputs(),
    {
        self.audio_inputs
    }

    /// Returns the number of audio output channels the driver exposes.
    pub fn audio_outputs(&self) -> (res: usize)
        ensures
            res == self.spec_audio_outputs(),
    {
        self.audio_outputs
    }

    /// Returns the audio direction implied by the channel counts.
    pub fn direction(&self) -> (res: HostDirection)
        ensures
            res == self.spec_direction(),
    {
        if self.audio_inputs > 0 && self.audio_outputs > 0 {
            HostDirection::Duplex
        } else if self.audio_inputs > 0 {
            HostDirection::Input
        } else if self.audio_outputs > 0 {
            HostDirection::Output
        } else {
            HostDirection::Duplex
        }
    }

    /// Reports whether the driver can serve the `requested` direction.
    pub fn is_compatible_with(&self, requested: HostDirection) -> (res: bool)
        ensures
            res == direction_serves(self.spec_direction(), requested),
    {
        direction_compatible(self.direction(), requested)
    }

    /// Returns one port per input channel followed by one per output
    /// channel, with symbols `<driver-id>/input_<n>` and
    /// `<driver-id>/output_<n>`.
    pub fn ports(&self) -> (res: Vec<AsioPort>)
        ensures
            res@.len() == self.spec_audio_inputs() + self.spec_audio_outputs(),
            forall|i: int|
                0 <= i < self.spec_audio_inputs() ==> asio_port_is(
                    #[trigger] res@[i],
                    self.spec_id(),
                    "input_"@,
                    HostDirection::Input,
                    i as nat,
                ),
            forall|i: int|
                self.spec_audio_inputs() <= i < res@.len() ==> asio_port_is(
                    #[trigger] res@[i],
                    self.spec_id(),
                    "output_"@,
                    HostDirection::Output,
                    (i - self.spec_audio_inputs()) as nat,
                ),
    {
        let mut ports: Vec<AsioPort> = Vec::new();
        let mut index: usize = 0;
        while index < self.audio_inputs
            invariant
                ports@.len() == index,
                index <= self.audio_inputs,
                forall|i: int|
                    0 <= i < index ==> asio_port_is(
                        #[trigger] ports@[i],
                        self.id,
                        "input_"@,
                        HostDirection::Input,
                        i as nat,
                    ),
            decreases self.audio_inputs - index,
        {
            ports.push(self.port("input_", HostDirection::Input, index));
            index = index + 1;
        }
        let mut index: usize = 0;
        while index < self.audio_outputs
            invariant
                ports@.len() == self.audio_inputs + index,
                index <= self.audio_outputs,
                forall|i: int|
                    0 <= i < self.audio_inputs ==> asio_port_is(
                        #[trigger] ports@[i],
                        self.id,
                        "input_"@,
                        HostDirection::Input,
                        i as nat,
                    ),
                forall|i: int|
                    self.audio_inputs <= i < ports@.len() ==> asio_port_is(
                        #[trigger] ports@[i],
                        self.id,
                        "output_"@,
                        HostDirection::Output,
                        (i - self.audio_inputs) as nat,
                    ),
            decreases self.audio_outputs - index,
        {
            ports.push(self.port("output_", HostDirection::Output, index));
            index = index + 1;
        }
        ports
    }

    fn port(&self, role: &str, direction: HostDirection, index: usize) -> (res: AsioPort)
        ensures
            asio_port_is(res, self.spec_id(), role@, direction, index as nat),
    {
        let name = String::from_str(role).concat(decimal(index as u64).as_str());
        let id = Symbol::new(self.id.name.clone().concat("/").concat(name.as_str()));
        assert(id.name@ =~= self.id.name@ + "/"@ + role@ + decimal_text(index as nat));
        AsioPort::new(id, self.id.clone(), name, direction, index)
    }
}

impl Clone for AsioDriver {
    fn clone(&self) -> (res: AsioDriver)
        ensures
            res == *self,
    {
        proof {
            use_type_invariant(self);
        }
        AsioDriver {
            id: self.id.clone(),
            name: self.name.clone(),
            timing: self.timing,
            audio_inputs: self.audio_inputs,
            audio_outputs: self.audio_outputs,
        }
    }
}

/// `port` is the `n`-th port of role `role` (`input_` or `output_`) of the
/// driver with symbol `driver`.
pub open spec fn asio_port_is(
    port: AsioPort,
    driver: Symbol,
    role: Seq<char>,
    direction: HostDirection,
    n: nat,
) -> bool {
    &&& port.spec_name() == role + decimal_text(n)
    &&& port.spec_id().namespace is None
    &&& port.spec_id().name@ == driver.name@ + "/"@ + role + decimal_text(n)
    &&& port.spec_driver() == driver
    &&& port.spec_direction() == direction
    &&& port.spec_index() == n
}

/// Routable ASIO port owned by a driver; ASIO ports carry PCM.
#[derive(Clone, Debug, PartialEq, Eq)]
pub struct AsioPort {
    id: Symbol,
    driver: Symbol,
    name: String,
    direction: HostDirection,
    index: usize,
}

impl AsioPort {
    /// The port's symbol.
    pub closed spec fn spec_id(&self) -> Symbol {
        self.id
    }

    /// The owning driver's symbol.
    pub closed spec fn spec_driver(&self) -> Symbol {
        self.driver
    }

    /// The port's name.
    pub closed spec fn spec_name(&self) -> Seq<char> {
        self.name@
    }

    /// Whether the port is an input or output.
    pub closed spec fn spec_direction(&self) -> HostDirection {
        self.direction
    }

    /// The channel index within the port's direction.
    pub closed spec fn spec_index(&self) -> usize {
        self.index
    }

    /// Builds a PCM port with the given id, owning driver id, name,
    /// direction, and per-direction channel index.
    pub fn new(id: Symbol, driver: Symbol, name: String, direction: HostDirection, index: usize) -> (res:
        AsioPort)
        ensures
            res.spec_id() == id && res.spec_driver() == driver && res.spec_name() == name@
                && res.spec_direction() == direction && res.spec_index() == index,
    {
        AsioPort { id, driver, name, direction, index }
    }

    /// Returns the stable port id.
    pub fn id(&self) -> (res: &Symbol)
        ensures
            *res == self.spec_id(),
    {
        &self.id
    }

    /// Returns the id of the driver that owns this port.
    pub fn driver(&self) -> (res: &Symbol)
        ensures
            *res == self.spec_driver(),
    {
        &self.driver
    }

    /// Returns the human-readable port name.
    pub fn name(&self) -> (res: &str)
        ensures
            res@ == self.spec_name(),
    {
        self.name.as_str()
    }

    /// Returns whether the port is an input or output.
    pub fn direction(&self) -> (res: HostDirection)
        ensures
            res == self.spec_direction(),
    {
        self.direction
    }

    /// Returns the channel index within the port's direction.
    pub fn index(&self) -> (res: usize)
        ensures
            res == self.spec_index(),
    {
        self.index
    }
}

/// Lists the prerequisites a downstream provider must satisfy to build a
/// native ASIO backend, none of which this crate supplies.
pub fn asio_sdk_build_requirements() -> (res: Vec<&'static str>)
    ensures
        res@.len() == 4,
        res@[0]@ == "Windows target"@,
        res@[1]@ == "Steinberg ASIO SDK headers supplied outside this repository"@,
        res@[2]@ == "vendor driver import library or COM registration"@,
        res@[3]@ == "SIM stream-asio feature enabled explicitly"@,
{
    let mut res: Vec<&'static str> = Vec::new();
    res.push("Windows target");
    res.push("Steinberg ASIO SDK headers supplied outside this repository");
    res.push("vendor driver import library or COM registration");
    res.push("SIM stream-asio feature enabled explicitly");
    res
}

} // verus!

verus! {

/// The ASIO backend symbol: namespace `stream/host`, name `asio`.
pub open spec fn asio_backend_value() -> (Option<Seq<char>>, Seq<char>) {
    (Some("stream/host"@), "asio"@)
}

/// The ASIO clock symbol: namespace `clock`, name `asio`.
pub open spec fn asio_clock_value() -> (Option<Seq<char>>, Seq<char>) {
    (Some("clock"@), "asio"@)
}

/// Returns the stream-host backend identifier for ASIO.
pub fn asio_backend_symbol() -> (res: Symbol)
    ensures
        symbol_value(res) == asio_backend_value(),
{
    Symbol::qualified("stream/host", "asio")
}

/// Returns the transport identifier carried by ASIO host streams.
pub fn asio_transport_symbol() -> (res: Symbol)
    ensures
        symbol_value(res) == (Some("stream/transport"@), "asio"@),
{
    Symbol::qualified("stream/transport", "asio")
}

/// Returns the clock identifier reported by ASIO host streams.
pub fn asio_clock_symbol() -> (res: Symbol)
    ensures
        symbol_value(res) == asio_clock_value(),
{
    Symbol::qualified("clock", "asio")
}

/// Some driver of the sequence has audio inputs.
pub open spec fn asio_any_inputs(drivers: Seq<AsioDriver>) -> bool {
    exists|i: int| 0 <= i < drivers.len() && #[trigger] drivers[i].spec_audio_inputs() > 0
}

/// Some driver of the sequence has audio outputs.
pub open spec fn asio_any_outputs(drivers: Seq<AsioDriver>) -> bool {
    exists|i: int| 0 <= i < drivers.len() && #[trigger] drivers[i].spec_audio_outputs() > 0
}

/// Some driver of the sequence is duplex.
pub open spec fn asio_any_duplex(drivers: Seq<AsioDriver>) -> bool {
    exists|i: int| 0 <= i < drivers.len() && #[trigger] drivers[i].spec_direction() == HostDirection::Duplex
}

/// The capabilities an ASIO backend over `drivers` advertises: capture,
/// playback and duplex as the drivers allow, reconnect, and for a fake
/// backend offline and fake.
pub open spec fn asio_capabilities(drivers: Seq<AsioDriver>, fake: bool) -> Seq<HostBackendCapability> {
    (if asio_any_inputs(drivers) {
        seq![HostBackendCapability::AudioInput]
    } else {
        Seq::empty()
    }) + (if asio_any_outputs(drivers) {
        seq![HostBackendCapability::AudioOutput]
    } else {
        Seq::empty()
    }) + (if asio_any_duplex(drivers) {
        seq![HostBackendCapability::Duplex]
    } else {
        Seq::empty()
    }) + seq![HostBackendCapability::Reconnect] + (if fake {
        seq![HostBackendCapability::Offline, HostBackendCapability::Fake]
    } else {
        Seq::empty()
    })
}

/// Derives the capabilities an ASIO backend over `drivers` advertises.
pub fn asio_capabilities_for(drivers: &[AsioDriver], fake: bool) -> (res: Vec<HostBackendCapability>)
    ensures
        res@ == asio_capabilities(drivers@, fake),
{
    let n = drivers.len();
    let mut inputs = false;
    let mut outputs = false;
    let mut duplex = false;
    let mut i: usize = 0;
    while i < n
        invariant
            n == drivers@.len(),
            i <= n,
            inputs == exists|j: int| 0 <= j < i && #[trigger] drivers@[j].spec_audio_inputs() > 0,
            outputs == exists|j: int| 0 <= j < i && #[trigger] drivers@[j].spec_audio_outputs() > 0,
            duplex == exists|j: int| 0 <= j < i && #[trigger] drivers@[j].spec_direction() == HostDirection::Duplex,
        decreases n - i,
    {
        let d = &drivers[i];
        if d.audio_inputs() > 0 {
            inputs = true;
        }
        if d.audio_outputs() > 0 {
            outputs = true;
        }
        if d.direction() == HostDirection::Duplex {
            duplex = true;
        }
        i = i + 1;
    }
    let mut capabilities: Vec<HostBackendCapability> = Vec::new();
    if inputs {
        capabilities.push(HostBackendCapability::AudioInput);
    }
    if outputs {
        capabilities.push(HostBackendCapability::AudioOutput);
    }
    if duplex {
        capabilities.push(HostBackendCapability::Duplex);
    }
    capabilities.push(HostBackendCapability::Reconnect);
    if fake {
        capabilities.push(HostBackendCapability::Offline);
        capabilities.push(HostBackendCapability::Fake);
    }
    assert(capabilities@ =~= asio_capabilities(drivers@, fake));
    capabilities
}

/// A driver whose symbol is `id`.
pub open spec fn asio_driver_with_id(id: (Option<Seq<char>>, Seq<char>)) -> spec_fn(AsioDriver) -> bool {
    |d: AsioDriver| symbol_value(d.spec_id()) == id
}

/// The bundled `SIM-ASIO` driver.
pub open spec fn asio_is_sim_driver() -> spec_fn(AsioDriver) -> bool {
    |d: AsioDriver| d.spec_name() == "SIM-ASIO"@
}

/// The `k`-th port of a driver as an inventory lists it: the port symbol,
/// the driver symbol and the direction; inputs come first.
pub open spec fn asio_port_entry(d: AsioDriver, k: int) -> (
    (Option<Seq<char>>, Seq<char>),
    (Option<Seq<char>>, Seq<char>),
    HostDirection,
) {
    if k < d.spec_audio_inputs() {
        (
            (None, d.spec_id().name@ + "/"@ + "input_"@ + decimal_text(k as nat)),
            symbol_value(d.spec_id()),
            HostDirection::Input,
        )
    } else {
        (
            (
                None,
                d.spec_id().name@ + "/"@ + "output_"@ + decimal_text(
                    (k - d.spec_audio_inputs()) as nat,
                ),
            ),
            symbol_value(d.spec_id()),
            HostDirection::Output,
        )
    }
}

/// The ports of one driver as an inventory lists them.
pub open spec fn asio_driver_port_entries(d: AsioDriver) -> Seq<
    ((Option<Seq<char>>, Seq<char>), (Option<Seq<char>>, Seq<char>), HostDirection),
> {
    Seq::new((d.spec_audio_inputs() + d.spec_audio_outputs()) as nat, |k: int| asio_port_entry(d, k))
}

/// The ports of all drivers as an inventory lists them, driver by driver.
pub open spec fn asio_port_entries(drivers: Seq<AsioDriver>) -> Seq<
    ((Option<Seq<char>>, Seq<char>), (Option<Seq<char>>, Seq<char>), HostDirection),
>
    decreases drivers.len(),
{
    if drivers.len() == 0 {
        Seq::empty()
    } else {
        asio_port_entries(drivers.drop_last()) + asio_driver_port_entries(drivers.last())
    }
}

/// A listed port as a port symbol, a driver symbol and a direction.
pub open spec fn port_entry_of(p: HostPortSpec) -> (
    (Option<Seq<char>>, Seq<char>),
    (Option<Seq<char>>, Seq<char>),
    HostDirection,
) {
    (symbol_value(p.port), symbol_value(p.device), p.direction)
}

/// ASIO host backend with provider-supplied deterministic driver data.
#[derive(Debug)]
pub struct AsioBackend {
    drivers: Vec<AsioDriver>,
    hardware_required: bool,
    capabilities: Vec<HostBackendCapability>,
}

impl AsioBackend {
    #[verifier::type_invariant]
    spec fn well_formed(self) -> bool {
        self.capabilities@ == asio_capabilities(self.drivers@, !self.hardware_required)
    }

    /// The backend's drivers.
    pub closed spec fn spec_drivers(&self) -> Seq<AsioDriver> {
        self.drivers@
    }

    /// Whether the backend needs real drivers.
    pub closed spec fn spec_hardware_required(&self) -> bool {
        self.hardware_required
    }

    /// The capabilities the backend advertises.
    pub closed spec fn spec_capabilities(&self) -> Seq<HostBackendCapability> {
        self.capabilities@
    }

    /// Builds a native backend over the provider-reported `drivers`, with
    /// capabilities derived from the driver set.
    pub fn new(drivers: Vec<AsioDriver>) -> (res: AsioBackend)
        ensures
            res.spec_drivers() == drivers@,
            res.spec_hardware_required(),
            res.spec_capabilities() == asio_capabilities(drivers@, false),
    {
        let capabilities = asio_capabilities_for(drivers.as_slice(), false);
        AsioBackend { drivers, hardware_required: true, capabilities }
    }

    /// Builds an offline backend exposing the single `SIM-ASIO` driver,
    /// marked fake so it runs without the ASIO SDK or audio hardware.
    pub fn fake() -> (res: AsioBackend)
        ensures
            !res.spec_hardware_required(),
            res.spec_capabilities() == asio_capabilities(res.spec_drivers(), true),
            res.spec_drivers().len() == 1,
            res.spec_drivers()[0].spec_name() == "SIM-ASIO"@,
            res.spec_drivers()[0].spec_audio_inputs() == 2,
            res.spec_drivers()[0].spec_audio_outputs() == 2,
            res.spec_drivers()[0].spec_timing().spec_sample_rate_hz() == 48_000,
            res.spec_drivers()[0].spec_timing().spec_buffer_frames() == 128,
    {
        let driver = AsioDriver::sim_default().unwrap();
        let mut drivers: Vec<AsioDriver> = Vec::new();
        drivers.push(driver);
        let capabilities = asio_capabilities_for(drivers.as_slice(), true);
        AsioBackend { drivers, hardware_required: false, capabilities }
    }

    /// Returns the drivers this backend was constructed with.
    pub fn list_drivers(&self) -> (res: &[AsioDriver])
        ensures
            res@ == self.spec_drivers(),
    {
        self.drivers.as_slice()
    }

    /// Returns whether the backend needs real drivers.
    pub fn hardware_required(&self) -> (res: bool)
        ensures
            res == self.spec_hardware_required(),
    {
        self.hardware_required
    }

    /// Returns the capabilities the backend advertises.
    pub fn capabilities(&self) -> (res: &[HostBackendCapability])
        ensures
            res@ == self.spec_capabilities(),
            res@ == asio_capabilities(self.spec_drivers(), !self.spec_hardware_required()),
    {
        proof {
            use_type_invariant(self);
        }
        self.capabilities.as_slice()
    }

    /// Lists the backend's drivers and all their ports: each driver on the
    /// ASIO clock with its timing's buffer, then every driver's ports in
    /// driver order.
    pub fn inventory(&self) -> (res: HostDeviceInventory)
        ensures
            symbol_value(res.backend) == asio_backend_value(),
            res.devices@.len() == self.spec_drivers().len(),
            forall|i: int|
                0 <= i < self.spec_drivers().len() ==> device_spec_is(
                    #[trigger] res.devices@[i],
                    symbol_value(self.spec_drivers()[i].spec_id()),
                    asio_backend_value(),
                    self.spec_drivers()[i].spec_direction(),
                    asio_clock_value(),
                    self.spec_drivers()[i].spec_timing().spec_buffer_frames(),
                ),
            res.ports@.map_values(|p: HostPortSpec| port_entry_of(p)) == asio_port_entries(
                self.spec_drivers(),
            ),
            forall|i: int|
                0 <= i < res.ports@.len() ==> symbol_value(#[trigger] res.ports@[i].backend)
                    == asio_backend_value(),
    {
        let mut devices: Vec<HostDeviceSpec> = Vec::new();
        let mut ports: Vec<HostPortSpec> = Vec::new();
        let mut i: usize = 0;
        while i < self.drivers.len()
            invariant
                i <= self.drivers@.len(),
                devices@.len() == i,
                forall|j: int|
                    0 <= j < i ==> device_spec_is(
                        #[trigger] devices@[j],
                        symbol_value(self.drivers@[j].spec_id()),
                        asio_backend_value(),
                        self.drivers@[j].spec_direction(),
                        asio_clock_value(),
                        self.drivers@[j].spec_timing().spec_buffer_frames(),
                    ),
                ports@.map_values(|p: HostPortSpec| port_entry_of(p)) == asio_port_entries(
                    self.drivers@.take(i as int),
                ),
                forall|j: int|
                    0 <= j < ports@.len() ==> symbol_value(#[trigger] ports@[j].backend)
                        == asio_backend_value(),
            decreases self.drivers@.len() - i,
        {
            let driver = &self.drivers[i];
            devices.push(
                HostDeviceSpec {
                    device: driver.id().clone(),
                    backend: asio_backend_symbol(),
                    direction: driver.direction(),
                    clock: asio_clock_symbol(),
                    buffer_frames: driver.timing().buffer_frames(),
                },
            );
            let driver_ports = driver.ports();
            let ghost before = ports@.map_values(|p: HostPortSpec| port_entry_of(p));
            let mut k: usize = 0;
            while k < driver_ports.len()
                invariant
                    k <= driver_ports@.len(),
                    driver_ports@.len() == driver.spec_audio_inputs()
                        + driver.spec_audio_outputs(),
                    forall|m: int|
                        0 <= m < driver.spec_audio_inputs() ==> asio_port_is(
                            #[trigger] driver_ports@[m],
                            driver.spec_id(),
                            "input_"@,
                            HostDirection::Input,
                            m as nat,
                        ),
                    forall|m: int|
                        driver.spec_audio_inputs() <= m < driver_ports@.len() ==> asio_port_is(
                            #[trigger] driver_ports@[m],
                            driver.spec_id(),
                            "output_"@,
                            HostDirection::Output,
                            (m - driver.spec_audio_inputs()) as nat,
                        ),
                    ports@.map_values(|p: HostPortSpec| port_entry_of(p)) == before
                        + asio_driver_port_entries(*driver).take(k as int),
                    forall|j: int|
                        0 <= j < ports@.len() ==> symbol_value(#[trigger] ports@[j].backend)
                            == asio_backend_value(),
                decreases driver_ports@.len() - k,
            {
                let port = &driver_ports[k];
                let entry = HostPortSpec {
                    port: port.id().clone(),
                    device: port.driver().clone(),
                    backend: asio_backend_symbol(),
                    direction: port.direction(),
                };
                let ghost prev = ports@;
                ports.push(entry);
                proof {
                    assert(port_entry_of(entry) == asio_port_entry(*driver, k as int));
                    assert(asio_driver_port_entries(*driver).take(k as int + 1)
                        =~= asio_driver_port_entries(*driver).take(k as int).push(
                        asio_port_entry(*driver, k as int),
                    ));
                    assert(ports@ =~= prev.push(entry));
                    assert(ports@.map_values(|p: HostPortSpec| port_entry_of(p)) =~= prev.map_values(
                        |p: HostPortSpec| port_entry_of(p),
                    ).push(port_entry_of(entry)));
                }
                k = k + 1;
            }
            proof {
                assert(asio_driver_port_entries(*driver).take(k as int)
                    =~= asio_driver_port_entries(*driver));
                assert(self.drivers@.take(i as int + 1).drop_last() =~= self.drivers@.take(
                    i as int,
                ));
            }
            i = i + 1;
        }
        assert(self.drivers@.take(i as int) =~= self.drivers@);
        HostDeviceInventory { backend: asio_backend_symbol(), devices, ports }
    }

    /// Returns the bundled `SIM-ASIO` driver if it is present.
    pub fn sim_driver(&self) -> (res: Option<&AsioDriver>)
        ensures
            match first_index(self.spec_drivers(), asio_is_sim_driver()) {
                Some(i) => res == Some(&self.spec_drivers()[i]),
                None => res is None,
            },
    {
        let n = self.drivers.len();
        let mut i: usize = 0;
        while i < n
            invariant
                n == self.drivers@.len(),
                i <= n,
                forall|j: int| 0 <= j < i ==> !(#[trigger] asio_is_sim_driver()(self.drivers@[j])),
            decreases n - i,
        {
            let d = &self.drivers[i];
            if text_eq(d.name(), "SIM-ASIO") {
                proof {
                    lemma_first_index(self.drivers@, asio_is_sim_driver(), i as int);
                }
                return Some(d);
            }
            i = i + 1;
        }
        proof {
            lemma_first_index(self.drivers@, asio_is_sim_driver(), 0);
        }
        None
    }

    /// Finds the driver with symbol `driver_id` and checks that it can serve
    /// `direction`.
    pub fn require_driver(&self, driver_id: &Symbol, direction: HostDirection) -> (res: Result<
        &AsioDriver,
        Error,
    >)
        ensures
            match first_index(self.spec_drivers(), asio_driver_with_id(symbol_value(*driver_id))) {
                Some(i) => if direction_serves(self.spec_drivers()[i].spec_direction(), direction) {
                    res == Ok::<&AsioDriver, Error>(&self.spec_drivers()[i])
                } else {
                    res matches Err(e) && e == Error::TypeMismatch {
                        expected: "ASIO driver with requested audio direction",
                        found: "ASIO driver with another audio direction",
                    }
                },
                None => res matches Err(e) && e is Eval && e->Eval_0@ == "ASIO driver "@
                    + symbol_text(*driver_id) + " was not found"@,
            },
    {
        let n = self.drivers.len();
        let mut i: usize = 0;
        while i < n
            invariant
                n == self.drivers@.len(),
                i <= n,
                forall|j: int| 0 <= j < i ==> !(#[trigger] asio_driver_with_id(symbol_value(*driver_id))(self.drivers@[j])),
            decreases n - i,
        {
            let d = &self.drivers[i];
            if d.id().same_as(driver_id) {
                proof {
                    lemma_first_index(self.drivers@, asio_driver_with_id(symbol_value(*driver_id)), i as int);
                }
                if !d.is_compatible_with(direction) {
                    return Err(
                        Error::TypeMismatch {
                            expected: "ASIO driver with requested audio direction",
                            found: "ASIO driver with another audio direction",
                        },
                    );
                }
                return Ok(d);
            }
            i = i + 1;
        }
        proof {
            lemma_first_index(self.drivers@, asio_driver_with_id(symbol_value(*driver_id)), 0);
        }
        Err(Error::eval3("ASIO driver ", driver_id.to_text().as_str(), " was not found"))
    }

    /// `res` answers a PCM request for the driver with symbol `id` in
    /// `direction`: the first driver with that symbol must serve the
    /// direction, and the stream then runs on the ASIO clock at the driver
    /// rate with the driver's latencies in the directions it uses.
    pub open spec fn answers(
        &self,
        res: Result<HostOpenPlan, Error>,
        id: (Option<Seq<char>>, Seq<char>),
        direction: HostDirection,
        capacity: usize,
    ) -> bool {
        match first_index(self.spec_drivers(), asio_driver_with_id(id)) {
            Some(i) => {
                let d = self.spec_drivers()[i];
                if direction_serves(d.spec_direction(), direction) {
                    res matches Ok(plan) && symbol_value(plan.backend) == asio_backend_value()
                        && symbol_value(plan.device) == id && plan.pcm && plan.direction == direction
                        && plan.buffer_capacity == capacity && plan.latency == latency_of(
                        direction,
                        d.spec_timing().spec_input_latency_frames(),
                        d.spec_timing().spec_output_latency_frames(),
                    ) && symbol_value(plan.clock) == asio_clock_value() && plan.sample_rate_hz
                        == d.spec_timing().spec_sample_rate_hz() && plan.deterministic_clock
                } else {
                    res matches Err(e) && e == Error::TypeMismatch {
                        expected: "ASIO driver with requested audio direction",
                        found: "ASIO driver with another audio direction",
                    }
                }
            },
            None => res matches Err(e) && e is Eval,
        }
    }

    /// Decides an open request: it must address this backend and a PCM
    /// stream, and name a driver that serves the requested direction.
    pub fn open(&self, request: &HostOpenRequest) -> (res: Result<HostOpenPlan, Error>)
        ensures
            symbol_value(request.backend) != asio_backend_value() ==> (res matches Err(e) && e is Eval
                && e->Eval_0@ == "ASIO backend cannot open "@ + symbol_text(request.backend)
                + " requests"@),
            symbol_value(request.backend) == asio_backend_value() && !request.pcm ==> (res matches Err(e)
                && e == Error::TypeMismatch {
                expected: "PCM stream request",
                found: "non-PCM stream request",
            }),
            symbol_value(request.backend) == asio_backend_value() && request.pcm ==> self.answers(
                res,
                symbol_value(request.device),
                request.direction,
                request.buffer_capacity,
            ),
            symbol_value(request.backend) == asio_backend_value() && request.pcm && first_index(
                self.spec_drivers(),
                asio_driver_with_id(symbol_value(request.device)),
            ) is None ==> (res matches Err(e) && e is Eval && e->Eval_0@ == "ASIO driver "@
                + symbol_text(request.device) + " was not found"@),
            res matches Ok(plan) ==> plan.device == request.device,
    {
        let backend = asio_backend_symbol();
        if !request.backend.same_as(&backend) {
            return Err(
                Error::eval3(
                    "ASIO backend cannot open ",
                    request.backend.to_text().as_str(),
                    " requests",
                ),
            );
        }
        if !request.pcm {
            return Err(
                Error::TypeMismatch {
                    expected: "PCM stream request",
                    found: "non-PCM stream request",
                },
            );
        }
        let driver = match self.require_driver(&request.device, request.direction) {
            Ok(d) => d,
            Err(e) => return Err(e),
        };
        let timing = driver.timing();
        Ok(
            HostOpenPlan {
                backend,
                device: request.device.clone(),
                pcm: true,
                direction: request.direction,
                buffer_capacity: request.buffer_capacity,
                latency: latency_for(
                    request.direction,
                    timing.input_latency_frames(),
                    timing.output_latency_frames(),
                ),
                clock: asio_clock_symbol(),
                sample_rate_hz: timing.sample_rate_hz(),
                deterministic_clock: true,
            },
        )
    }

    /// Opens a duplex stream on the bundled `SIM-ASIO` driver.
    pub fn open_sim_driver(&self, capacity: usize) -> (res: Result<HostOpenPlan, Error>)
        ensures
            match first_index(self.spec_drivers(), asio_is_sim_driver()) {
                Some(i) => self.answers(
                    res,
                    symbol_value(self.spec_drivers()[i].spec_id()),
                    HostDirection::Duplex,
                    capacity,
                ),
                None => res matches Err(e) && e is Eval && e->Eval_0@
                    == "SIM ASIO driver was not found"@,
            },
    {
        match self.sim_driver() {
            Some(driver) => {
                let request = HostOpenRequest {
                    backend: asio_backend_symbol(),
                    device: driver.id().clone(),
                    pcm: true,
                    direction: HostDirection::Duplex,
                    buffer_capacity: capacity,
                };
                self.open(&request)
            },
            None => Err(Error::eval("SIM ASIO driver was not found")),
        }
    }
}

impl Default for AsioBackend {
    /// A hardware-required backend with no devices.
    fn default() -> (res: AsioBackend)
        ensures
            res.spec_drivers() == Seq::<AsioDriver>::empty(),
            res.spec_hardware_required(),
            res.spec_capabilities() == asio_capabilities(Seq::<AsioDriver>::empty(), false),
    {
        AsioBackend::new(Vec::new())
    }
}

} // verus!
