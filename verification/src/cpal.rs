//! The binding decisions for the modeled backend crates, and the
//! integer side of the cpal hardware site: buffer sizing, callback scratch
//! sizing and the advertised sample rates.
use vstd::prelude::*;
use vstd::string::StringExecFns;
use std::collections::VecDeque;
use crate::error::Error;
use crate::stream_host::{HostDirection, HostLatency, HostOpenPlan, HostOpenRequest};
use crate::symbol::{Symbol, symbol_text, symbol_value};
use crate::text::{decimal, decimal_text};

verus! {

/// Returns the cpal backend candidate name used by configuration probes.
pub fn cpal_audio_backend_candidate() -> (res: &'static str)
    ensures
        res@ == "cpal"@,
{
    "cpal"
}

/// Resolution selected for a modeled audio backend crate.
#[derive(Clone, Copy, Debug, PartialEq, Eq, Structural)]
pub enum BackendResolution {
    /// cpal already serves this transport's real placement need.
    RetireSubsumed,
    /// The backend has distinct value and should ship as a loadable provider.
    LoadableProvider,
    /// The backend remains valuable only as a modeled validation fixture.
    ModeledFixtureOnly,
}

/// Decision row for one modeled backend crate.
#[derive(Clone, Copy, Debug, PartialEq, Eq)]
pub struct BackendResolutionRow {
    /// Crate that currently owns the modeled backend.
    pub crate_name: &'static str,
    /// Transport modeled by that crate.
    pub transport: &'static str,
    /// Binding decision for the backend.
    pub resolution: BackendResolution,
    /// Short reason the backend is retired, kept modeled, or made loadable.
    pub distinct_value: &'static str,
}

/// A row with the given crate, transport, decision and reason.
pub open spec fn row_is(
    row: BackendResolutionRow,
    crate_name: Seq<char>,
    transport: Seq<char>,
    resolution: BackendResolution,
    distinct_value: Seq<char>,
) -> bool {
    row.crate_name@ == crate_name && row.transport@ == transport && row.resolution == resolution
        && row.distinct_value@ == distinct_value
}

/// Returns the binding decision for every modeled backend crate: ALSA,
/// PipeWire and PortAudio are subsumed by cpal; JACK, CoreAudio and ASIO
/// ship as loadable providers.
pub fn audio_backend_resolution_rows() -> (res: [BackendResolutionRow; 6])
    ensures
        row_is(res@[0], "sim-lib-stream-alsa"@, "alsa"@, BackendResolution::RetireSubsumed,
            "cpal covers ordinary Linux PCM placement"@),
        row_is(res@[1], "sim-lib-stream-jack"@, "jack"@, BackendResolution::LoadableProvider,
            "JACK graph ports and low-latency pro-audio routing"@),
        row_is(res@[2], "sim-lib-stream-pipewire"@, "pipewire"@, BackendResolution::RetireSubsumed,
            "cpal reaches PipeWire through its Linux host backend"@),
        row_is(res@[3], "sim-lib-stream-portaudio"@, "portaudio"@,
            BackendResolution::RetireSubsumed, "cpal is the portable in-tree real adapter"@),
        row_is(res@[4], "sim-lib-stream-coreaudio"@, "coreaudio"@,
            BackendResolution::LoadableProvider,
            "aggregate devices and Apple-only timing metadata"@),
        row_is(res@[5], "sim-lib-stream-asio"@, "asio"@, BackendResolution::LoadableProvider,
            "ASIO driver routing and low-latency Windows path"@),
{
    [
        BackendResolutionRow {
            crate_name: "sim-lib-stream-alsa",
            transport: "alsa",
            resolution: BackendResolution::RetireSubsumed,
            distinct_value: "cpal covers ordinary Linux PCM placement",
        },
        BackendResolutionRow {
            crate_name: "sim-lib-stream-jack",
            transport: "jack",
            resolution: BackendResolution::LoadableProvider,
            distinct_value: "JACK graph ports and low-latency pro-audio routing",
        },
        BackendResolutionRow {
            crate_name: "sim-lib-stream-pipewire",
            transport: "pipewire",
            resolution: BackendResolution::RetireSubsumed,
            distinct_value: "cpal reaches PipeWire through its Linux host backend",
        },
        BackendResolutionRow {
            crate_name: "sim-lib-stream-portaudio",
            transport: "portaudio",
            resolution: BackendResolution::RetireSubsumed,
            distinct_value: "cpal is the portable in-tree real adapter",
        },
        BackendResolutionRow {
            crate_name: "sim-lib-stream-coreaudio",
            transport: "coreaudio",
            resolution: BackendResolution::LoadableProvider,
            distinct_value: "aggregate devices and Apple-only timing metadata",
        },
        BackendResolutionRow {
            crate_name: "sim-lib-stream-asio",
            transport: "asio",
            resolution: BackendResolution::LoadableProvider,
            distinct_value: "ASIO driver routing and low-latency Windows path",
        },
    ]
}

/// The frames per callback buffer cpal streams request by default.
pub const CPAL_DEFAULT_FRAMES_PER_BUFFER: u32 = 512;

/// The frames per buffer for a device that reports the supported buffer
/// range `range` (`None` when unknown): the default, clamped into the range.
pub open spec fn frames_per_buffer_of(range: Option<(u32, u32)>) -> u32 {
    match range {
        Some((min, max)) => if CPAL_DEFAULT_FRAMES_PER_BUFFER < min {
            min
        } else if CPAL_DEFAULT_FRAMES_PER_BUFFER > max {
            max
        } else {
            CPAL_DEFAULT_FRAMES_PER_BUFFER
        },
        None => CPAL_DEFAULT_FRAMES_PER_BUFFER,
    }
}

/// Picks the frames per buffer for a device's supported buffer range.
pub fn frames_per_buffer(range: Option<(u32, u32)>) -> (res: u32)
    requires
        range matches Some((min, max)) ==> min <= max,
    ensures
        res == frames_per_buffer_of(range),
        range matches Some((min, max)) ==> min <= res <= max,
{
    match range {
        Some((min, max)) => {
            if CPAL_DEFAULT_FRAMES_PER_BUFFER < min {
                min
            } else if CPAL_DEFAULT_FRAMES_PER_BUFFER > max {
                max
            } else {
                CPAL_DEFAULT_FRAMES_PER_BUFFER
            }
        },
        None => CPAL_DEFAULT_FRAMES_PER_BUFFER,
    }
}

/// Multiplication that stops at `usize::MAX` instead of overflowing.
pub open spec fn saturating_product(a: int, b: int) -> int {
    if a * b > usize::MAX {
        usize::MAX as int
    } else {
        a * b
    }
}

/// Multiplies, saturating at `usize::MAX`.
pub fn saturating_mul(a: usize, b: usize) -> (res: usize)
    ensures
        res == saturating_product(a as int, b as int),
{
    if a != 0 && b > usize::MAX / a {
        assert(a * b > usize::MAX) by (nonlinear_arith)
            requires
                a != 0,
                b > usize::MAX / a,
                a <= usize::MAX;
        usize::MAX
    } else {
        assert(a * b <= usize::MAX) by (nonlinear_arith)
            requires
                a == 0 || b <= usize::MAX / a;
        a * b
    }
}

/// The capacity of the sample scratch a realtime callback keeps: two
/// buffers' worth of interleaved samples, saturating.
pub fn pending_capacity(frames_per_buffer: u32, channels: u16) -> (res: usize)
    ensures
        res == saturating_product(
            saturating_product(frames_per_buffer as int, channels as int),
            2,
        ),
{
    saturating_mul(saturating_mul(frames_per_buffer as usize, channels as usize), 2)
}

/// `s` is strictly increasing.
pub open spec fn strictly_increasing(s: Seq<u32>) -> bool {
    forall|i: int, j: int| 0 <= i < j < s.len() ==> s[i] < s[j]
}

/// `r` is a bound of the `k`-th supported range.
pub open spec fn is_range_bound(ranges: Seq<(u32, u32)>, k: int, r: u32) -> bool {
    ranges[k].0 == r || ranges[k].1 == r
}

/// The bounds of the first `n` supported ranges.
pub open spec fn range_bounds(ranges: Seq<(u32, u32)>, n: int) -> Set<u32> {
    Set::new(|r: u32| exists|k: int| 0 <= k < n && #[trigger] is_range_bound(ranges, k, r))
}

/// The sample rates a hardware site advertises: each supported range's
/// bounds and the default rate, or 48 kHz when the device reports nothing.
pub open spec fn advertised_rates(ranges: Seq<(u32, u32)>, default_rate: Option<u32>) -> Set<u32> {
    if ranges.len() == 0 && default_rate is None {
        Set::empty().insert(48_000u32)
    } else {
        match default_rate {
            Some(d) => range_bounds(ranges, ranges.len() as int).insert(d),
            None => range_bounds(ranges, ranges.len() as int),
        }
    }
}

/// Inserts `r` into the strictly increasing `rates`, keeping it strictly
/// increasing and without repeats.
fn insert_sorted(rates: &mut Vec<u32>, r: u32)
    requires
        strictly_increasing(old(rates)@),
    ensures
        strictly_increasing(final(rates)@),
        final(rates)@.to_set() == old(rates)@.to_set().insert(r),
{
    let n = rates.len();
    let mut i: usize = 0;
    while i < n && rates[i] < r
        invariant
            n == rates@.len(),
            i <= n,
            strictly_increasing(rates@),
            forall|j: int| 0 <= j < i ==> rates@[j] < r,
        decreases n - i,
    {
        i = i + 1;
    }
    if i < n && rates[i] == r {
        assert(rates@.to_set().insert(r) =~= rates@.to_set()) by {
            assert(rates@.contains(r));
        }
        return;
    }
    let ghost before = rates@;
    rates.insert(i, r);
    assert(rates@ =~= before.subrange(0, i as int).push(r) + before.subrange(i as int, n as int));
    assert(strictly_increasing(rates@)) by {
        assert forall|a: int, b: int| 0 <= a < b < rates@.len() implies rates@[a] < rates@[b] by {
            if b < i {
            } else if a < i && b == i {
            } else if a < i && b > i {
                assert(rates@[b] == before[b - 1]);
                assert(before[b - 1] >= r) by {
                    if i < n {
                        assert(before[i as int] > r);
                        if b - 1 > i {
                            assert(before[i as int] < before[b - 1]);
                        }
                    }
                }
            } else if a == i {
                assert(rates@[b] == before[b - 1]);
                assert(before[i as int] > r);
                if b - 1 > i {
                    assert(before[i as int] < before[b - 1]);
                }
            } else {
                assert(rates@[a] == before[a - 1]);
                assert(rates@[b] == before[b - 1]);
            }
        }
    }
    assert(rates@.to_set() =~= before.to_set().insert(r)) by {
        assert forall|x: u32| rates@.to_set().contains(x) implies before.to_set().insert(r).contains(x) by {
            let k = choose|k: int| 0 <= k < rates@.len() && rates@[k] == x;
            if k < i {
                assert(before[k] == x);
            } else if k > i {
                assert(before[k - 1] == x);
            }
        }
        assert forall|x: u32| before.to_set().insert(r).contains(x) implies rates@.to_set().contains(x) by {
            if x == r {
                assert(rates@[i as int] == r);
            } else {
                let k = choose|k: int| 0 <= k < before.len() && before[k] == x;
                if k < i {
                    assert(rates@[k] == x);
                } else {
                    assert(rates@[k + 1] == x);
                }
            }
        }
    }
}

/// Collects the sample rates a hardware site advertises from the supported
/// ranges' bounds and the default rate: sorted, without repeats, and 48 kHz
/// when nothing was reported.
pub fn advertised_sample_rates(ranges: &[(u32, u32)], default_rate: Option<u32>) -> (res: Vec<u32>)
    ensures
        strictly_increasing(res@),
        res@.to_set() == advertised_rates(ranges@, default_rate),
{
    let mut rates: Vec<u32> = Vec::new();
    let n = ranges.len();
    let mut i: usize = 0;
    assert(rates@.to_set() =~= range_bounds(ranges@, 0));
    while i < n
        invariant
            n == ranges@.len(),
            i <= n,
            strictly_increasing(rates@),
            rates@.to_set() == range_bounds(ranges@, i as int),
        decreases n - i,
    {
        let (lo, hi) = ranges[i];
        let ghost before = rates@.to_set();
        insert_sorted(&mut rates, lo);
        insert_sorted(&mut rates, hi);
        assert(rates@.to_set() =~= range_bounds(ranges@, i as int + 1)) by {
            assert forall|r: u32| rates@.to_set().contains(r) implies range_bounds(
                ranges@,
                i as int + 1,
            ).contains(r) by {
                if r == lo || r == hi {
                    assert(is_range_bound(ranges@, i as int, r));
                } else {
                    assert(before.contains(r));
                    let k = choose|k: int| 0 <= k < i && #[trigger] is_range_bound(ranges@, k, r);
                    assert(is_range_bound(ranges@, k, r));
                }
            }
            assert forall|r: u32| range_bounds(ranges@, i as int + 1).contains(r) implies rates@.to_set().contains(r) by {
                let k = choose|k: int| 0 <= k < i + 1 && #[trigger] is_range_bound(ranges@, k, r);
                if k < i {
                    assert(range_bounds(ranges@, i as int).contains(r));
                }
            }
        }
        i = i + 1;
    }
    if let Some(rate) = default_rate {
        insert_sorted(&mut rates, rate);
    }
    if rates.len() == 0 {
        proof {
            if n > 0 {
                assert(is_range_bound(ranges@, 0, ranges@[0].0));
                assert(range_bounds(ranges@, n as int).contains(ranges@[0].0));
                assert(rates@.to_set().contains(ranges@[0].0));
            }
            if let Some(d) = default_rate {
                assert(rates@.to_set().contains(d));
            }
        }
        rates.push(48_000);
        assert(rates@ =~= seq![48_000u32]);
        assert(rates@.to_set() =~= Set::empty().insert(48_000u32)) by {
            assert forall|x: u32| rates@.to_set().contains(x) implies x == 48_000 by {
                let k = choose|k: int| 0 <= k < rates@.len() && rates@[k] == x;
            }
            assert(rates@[0] == 48_000);
        }
        proof {
            assert(n == 0 && default_rate is None);
        }
    } else {
        proof {
            if n == 0 && default_rate is None {
                assert(range_bounds(ranges@, 0) =~= Set::empty());
                assert(rates@.to_set().contains(rates@[0]));
            }
        }
    }
    rates
}

/// The cpal hardware backend symbol: `stream/host` `cpal`.
pub open spec fn cpal_hardware_backend_value() -> (Option<Seq<char>>, Seq<char>) {
    (Some("stream/host"@), "cpal"@)
}

/// Returns the hardware backend identity symbol for cpal streams; its name
/// is the cpal backend candidate.
pub fn cpal_hardware_backend_symbol() -> (res: Symbol)
    ensures
        symbol_value(res) == cpal_hardware_backend_value(),
{
    Symbol::qualified("stream/host", cpal_audio_backend_candidate())
}

/// The site key of the `index`-th enumerated cpal output device:
/// `audio/site` `cpal-hardware-<index>`.
pub fn cpal_hardware_site_key(index: usize) -> (res: Symbol)
    ensures
        symbol_value(res) == (Some("audio/site"@), "cpal-hardware-"@ + decimal_text(index as nat)),
{
    let name = String::from_str("cpal-hardware-").concat(decimal(index as u64).as_str());
    Symbol::qualified("audio/site", name.as_str())
}

/// What a host audio site advertises of its device.
#[derive(Clone, Debug)]
pub struct AudioDeviceCard {
    /// The site key.
    pub key: Symbol,
    /// The device's display name.
    pub display_name: String,
    /// Output channels.
    pub channels_out: u16,
    /// Input channels.
    pub channels_in: u16,
    /// Advertised sample rates, ascending without repeats.
    pub sample_rates: Vec<u32>,
    /// Whether opening the site needs real hardware.
    pub hardware_required: bool,
}

/// Builds the card of the `index`-th cpal output device from what the
/// device reports: its name (`None` when unreadable, shown as
/// `cpal output`), the channel count of its default configuration (two
/// when there is none), its supported rate ranges and its default rate.
pub fn cpal_hardware_card(
    index: usize,
    device_name: Option<String>,
    default_channels: Option<u16>,
    rate_ranges: &[(u32, u32)],
    default_rate: Option<u32>,
) -> (res: AudioDeviceCard)
    ensures
        symbol_value(res.key) == (Some("audio/site"@), "cpal-hardware-"@ + decimal_text(
            index as nat,
        )),
        res.display_name@ == match device_name {
            Some(n) => n@,
            None => "cpal output"@,
        },
        res.channels_out == match default_channels {
            Some(c) => c,
            None => 2,
        },
        res.channels_in == 0,
        strictly_increasing(res.sample_rates@),
        res.sample_rates@.to_set() == advertised_rates(rate_ranges@, default_rate),
        res.hardware_required,
{
    let display_name = match device_name {
        Some(n) => n,
        None => String::from_str("cpal output"),
    };
    let channels_out = match default_channels {
        Some(c) => c,
        None => 2,
    };
    AudioDeviceCard {
        key: cpal_hardware_site_key(index),
        display_name,
        channels_out,
        channels_in: 0,
        sample_rates: advertised_sample_rates(rate_ranges, default_rate),
        hardware_required: true,
    }
}

/// Decides whether a cpal hardware site accepts an open request: it must
/// address the cpal hardware backend, a PCM stream and the output
/// direction.
pub fn cpal_hardware_open_check(request: &HostOpenRequest) -> (res: Result<(), Error>)
    ensures
        res is Ok <==> symbol_value(request.backend) == cpal_hardware_backend_value()
            && request.pcm && request.direction == HostDirection::Output,
        symbol_value(request.backend) != cpal_hardware_backend_value() ==> (res matches Err(e)
            && e is Eval && e->Eval_0@ == "cpal hardware site cannot open "@ + symbol_text(
            request.backend,
        ) + " requests"@),
        symbol_value(request.backend) == cpal_hardware_backend_value() && !request.pcm ==> res
            == Err::<(), Error>(
            Error::TypeMismatch { expected: "PCM stream request", found: "non-PCM stream request" },
        ),
        symbol_value(request.backend) == cpal_hardware_backend_value() && request.pcm
            && request.direction != HostDirection::Output ==> res == Err::<(), Error>(
            Error::TypeMismatch {
                expected: "output stream request",
                found: "non-output stream request",
            },
        ),
{
    if !request.backend.same_as(&cpal_hardware_backend_symbol()) {
        return Err(
            Error::eval3(
                "cpal hardware site cannot open ",
                request.backend.to_text().as_str(),
                " requests",
            ),
        );
    }
    if !request.pcm {
        return Err(
            Error::TypeMismatch { expected: "PCM stream request", found: "non-PCM stream request" },
        );
    }
    if request.direction != HostDirection::Output {
        return Err(
            Error::TypeMismatch {
                expected: "output stream request",
                found: "non-output stream request",
            },
        );
    }
    Ok(())
}

/// The sample clock that cpal hardware streams run on.
pub open spec fn sample_clock_value() -> (Option<Seq<char>>, Seq<char>) {
    (Some("clock"@), "sample"@)
}

/// Returns the sample clock symbol, `clock`/`sample`.
pub fn sample_clock_symbol() -> (res: Symbol)
    ensures
        symbol_value(res) == sample_clock_value(),
{
    Symbol::qualified("clock", "sample")
}

/// Maps the configuration cpal selected for a device to the plan of the
/// output PCM stream the cpal hardware backend opens: the buffer frames
/// picked from the supported range bound the stream buffer and are the
/// output latency, and the stream runs on the sample clock at the
/// configured rate, driven by the hardware.
pub fn config_from_cpal(device: Symbol, buffer_range: Option<(u32, u32)>, sample_rate_hz: u32) -> (res:
    HostOpenPlan)
    requires
        buffer_range matches Some((min, max)) ==> min <= max,
    ensures
        symbol_value(res.backend) == cpal_hardware_backend_value(),
        res.device == device,
        res.pcm,
        res.direction == HostDirection::Output,
        res.buffer_capacity == frames_per_buffer_of(buffer_range) as usize,
        res.latency == (HostLatency { input_frames: 0, output_frames: frames_per_buffer_of(buffer_range) }),
        symbol_value(res.clock) == sample_clock_value(),
        res.sample_rate_hz == sample_rate_hz,
        !res.deterministic_clock,
{
    let frames = frames_per_buffer(buffer_range);
    HostOpenPlan {
        backend: cpal_hardware_backend_symbol(),
        device,
        pcm: true,
        direction: HostDirection::Output,
        buffer_capacity: frames as usize,
        latency: HostLatency { input_frames: 0, output_frames: frames },
        clock: sample_clock_symbol(),
        sample_rate_hz,
        deterministic_clock: false,
    }
}

/// The samples a realtime output callback holds between callbacks: a
/// first-in first-out queue that never grows past its capacity.
pub struct CallbackPending<T> {
    samples: VecDeque<T>,
    capacity: usize,
}

impl<T: Copy> CallbackPending<T> {
    /// The held samples, oldest first.
    pub closed spec fn spec_samples(&self) -> Seq<T> {
        self.samples@
    }

    /// The capacity.
    pub closed spec fn spec_capacity(&self) -> usize {
        self.capacity
    }

    /// The queue holds no more samples than its capacity.
    pub closed spec fn wf(&self) -> bool {
        self.samples@.len() <= self.capacity
    }

    /// An empty queue holding at most `capacity` samples.
    pub fn with_capacity(capacity: usize) -> (res: CallbackPending<T>)
        ensures
            res.wf(),
            res.spec_samples() == Seq::<T>::empty(),
            res.spec_capacity() == capacity,
    {
        CallbackPending { samples: VecDeque::with_capacity(capacity), capacity }
    }

    /// The number of held samples.
    pub fn len(&self) -> (res: usize)
        requires
            self.wf(),
        ensures
            res == self.spec_samples().len(),
            res <= self.spec_capacity(),
    {
        self.samples.len()
    }

    /// Appends `sample` when there is room; a full queue drops it.
    pub fn push_sample(&mut self, sample: T)
        requires
            old(self).wf(),
        ensures
            final(self).wf(),
            final(self).spec_capacity() == old(self).spec_capacity(),
            final(self).spec_samples() == if old(self).spec_samples().len() < old(
                self,
            ).spec_capacity() {
                old(self).spec_samples().push(sample)
            } else {
                old(self).spec_samples()
            },
    {
        if self.samples.len() < self.capacity {
            self.samples.push_back(sample);
        }
    }

    /// Appends each of `samples` in order while there is room.
    pub fn push_samples(&mut self, samples: &[T])
        requires
            old(self).wf(),
        ensures
            final(self).wf(),
            final(self).spec_capacity() == old(self).spec_capacity(),
            final(self).spec_samples() == old(self).spec_samples() + samples@.take(
                min_len(
                    samples@.len() as int,
                    old(self).spec_capacity() - old(self).spec_samples().len(),
                ),
            ),
    {
        let ghost start = self.samples@;
        let mut i: usize = 0;
        while i < samples.len()
            invariant
                i <= samples@.len(),
                self.capacity == old(self).capacity,
                start == old(self).samples@,
                start.len() <= self.capacity,
                self.wf(),
                self.samples@ == start + samples@.take(
                    min_len(i as int, self.capacity - start.len()),
                ),
            decreases samples@.len() - i,
        {
            let ghost kept = min_len(i as int, self.capacity - start.len());
            self.push_sample(samples[i]);
            proof {
                if kept < self.capacity - start.len() {
                    assert(kept == i);
                    assert(samples@.take(i as int + 1) =~= samples@.take(i as int).push(
                        samples@[i as int],
                    ));
                }
            }
            i = i + 1;
        }
    }

    /// Takes the oldest sample, or `silence` when none is held.
    pub fn pop_sample(&mut self, silence: T) -> (res: T)
        requires
            old(self).wf(),
        ensures
            final(self).wf(),
            final(self).spec_capacity() == old(self).spec_capacity(),
            old(self).spec_samples().len() > 0 ==> res == old(self).spec_samples()[0]
                && final(self).spec_samples() == old(self).spec_samples().drop_first(),
            old(self).spec_samples().len() == 0 ==> res == silence && final(self).spec_samples()
                == old(self).spec_samples(),
    {
        match self.samples.pop_front() {
            Some(s) => s,
            None => silence,
        }
    }

    /// Fills an output buffer of `frames` samples from the queue, oldest
    /// first, with `silence` for whatever the queue cannot supply.
    pub fn drain_into(&mut self, out_len: usize, silence: T) -> (res: Vec<T>)
        requires
            old(self).wf(),
        ensures
            final(self).wf(),
            final(self).spec_capacity() == old(self).spec_capacity(),
            res@.len() == out_len,
            forall|k: int|
                0 <= k < out_len ==> #[trigger] res@[k] == if k < old(self).spec_samples().len() {
                    old(self).spec_samples()[k]
                } else {
                    silence
                },
            final(self).spec_samples() == old(self).spec_samples().skip(
                min_len(out_len as int, old(self).spec_samples().len() as int),
            ),
    {
        let ghost start = self.samples@;
        let mut res: Vec<T> = Vec::new();
        let mut k: usize = 0;
        while k < out_len
            invariant
                k <= out_len,
                self.capacity == old(self).capacity,
                start == old(self).samples@,
                self.wf(),
                res@.len() == k,
                self.samples@ == start.skip(min_len(k as int, start.len() as int)),
                forall|j: int|
                    0 <= j < k ==> #[trigger] res@[j] == if j < start.len() {
                        start[j]
                    } else {
                        silence
                    },
            decreases out_len - k,
        {
            let s = self.pop_sample(silence);
            res.push(s);
            proof {
                if k < start.len() {
                    assert(start.skip(k as int + 1) =~= start.skip(k as int).drop_first());
                }
            }
            k = k + 1;
        }
        res
    }
}

/// The smaller of two counts.
pub open spec fn min_len(a: int, b: int) -> int {
    if a <= b {
        a
    } else {
        b
    }
}

} // verus!
