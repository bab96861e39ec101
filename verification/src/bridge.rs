//! The integer decisions of the callback bridges that drive a graph
//! processor from a host callback: the prepare configuration, the scratch
//! size, and the checks on each callback block. The sample data itself
//! moves in the embedding host.
use vstd::prelude::*;
use vstd::string::StringExecFns;
use crate::error::Error;
use crate::lanes::{silent_lanes, silent_lanes_of};
use crate::text::{decimal, decimal_text};

verus! {

/// Converts a frame count to `u32`, as `u32::try_from` does.
pub fn checked_frames(frames: usize, label: &str) -> (res: Result<u32, Error>)
    ensures
        res is Ok <==> frames <= u32::MAX,
        res matches Ok(f) ==> f == frames,
        res matches Err(e) ==> e is Eval && e->Eval_0@ == label@ + " buffer size exceeds u32"@,
{
    if frames > u32::MAX as usize {
        return Err(Error::eval2(label, " buffer size exceeds u32"));
    }
    Ok(frames as u32)
}

/// Converts a channel count to `u16`, as `u16::try_from` does; the refusal
/// reads `label` followed by `suffix`.
pub fn checked_channels(channels: usize, label: &str, suffix: &str) -> (res: Result<u16, Error>)
    ensures
        res is Ok <==> channels <= u16::MAX,
        res matches Ok(c) ==> c == channels,
        res matches Err(e) ==> e is Eval && e->Eval_0@ == label@ + suffix@,
{
    if channels > u16::MAX as usize {
        return Err(Error::eval2(label, suffix));
    }
    Ok(channels as u16)
}

/// Splits an interleaved capture buffer of `samples` samples into frames of
/// `channels` samples.
pub fn samples_to_frames(samples: usize, channels: usize) -> (res: Result<usize, Error>)
    ensures
        res is Ok <==> channels > 0 && samples % channels == 0,
        res matches Ok(frames) ==> frames * channels == samples,
        res matches Err(e) ==> e is Eval && (if channels == 0 {
            e->Eval_0@ == "ALSA capture channel count must be greater than zero"@
        } else {
            e->Eval_0@ == "ALSA capture sample length "@ + decimal_text(samples as nat)
                + " is not divisible by channels "@ + decimal_text(channels as nat)
        }),
{
    if channels == 0 {
        return Err(Error::eval("ALSA capture channel count must be greater than zero"));
    }
    if samples % channels != 0 {
        let message = String::from_str("ALSA capture sample length ").concat(
            decimal(samples as u64).as_str(),
        ).concat(" is not divisible by channels ").concat(decimal(channels as u64).as_str());
        return Err(Error::Eval(message));
    }
    let frames = samples / channels;
    assert(frames * channels == samples) by (nonlinear_arith)
        requires
            frames == samples / channels,
            samples % channels == 0,
            channels > 0;
    Ok(frames)
}

/// The configuration a planar callback bridge prepares its processor with.
#[derive(Clone, Copy, Debug, PartialEq, Eq, Structural)]
pub struct PlanarBridgeConfig {
    /// The largest callback block, in frames.
    pub max_block_frames: u32,
    /// The processor's input lane count.
    pub input_lanes: u16,
    /// The processor's output lane count.
    pub output_lanes: u16,
    /// The capacity of the block scratch arena, in samples.
    pub scratch_capacity: usize,
}

/// The larger of the lane counts, and at least one.
pub open spec fn widest_lanes(input_channels: usize, output_channels: usize) -> int {
    if input_channels >= output_channels {
        if input_channels >= 1 {
            input_channels as int
        } else {
            1
        }
    } else {
        output_channels as int
    }
}

/// Returns the larger of the lane counts, and at least one.
pub fn widest_lanes_of(input_channels: usize, output_channels: usize) -> (res: usize)
    ensures
        res == widest_lanes(input_channels, output_channels),
{
    if input_channels >= output_channels {
        if input_channels >= 1 {
            input_channels
        } else {
            1
        }
    } else {
        output_channels
    }
}

/// The message a planar bridge configuration is refused with.
pub open spec fn planar_bridge_refusal(
    label: Seq<char>,
    buffer_frames: usize,
    input_channels: usize,
    output_channels: usize,
) -> Seq<char> {
    if input_channels == 0 && output_channels == 0 {
        label + " bridge needs at least one audio lane"@
    } else if buffer_frames > u32::MAX {
        label + " buffer size exceeds u32"@
    } else if input_channels > u16::MAX {
        label + " input channel count exceeds u16"@
    } else {
        label + " output channel count exceeds u16"@
    }
}

/// Configures a planar (one lane per channel) callback bridge over a
/// `buffer_frames`-frame buffer: the block bound is the buffer size and
/// the scratch holds a buffer for the widest lane count.
pub fn planar_bridge_config(
    label: &str,
    buffer_frames: usize,
    input_channels: usize,
    output_channels: usize,
) -> (res: Result<PlanarBridgeConfig, Error>)
    requires
        buffer_frames * widest_lanes(input_channels, output_channels) <= usize::MAX,
    ensures
        res is Ok <==> (input_channels > 0 || output_channels > 0) && buffer_frames <= u32::MAX
            && input_channels <= u16::MAX && output_channels <= u16::MAX,
        res matches Ok(c) ==> c.max_block_frames == buffer_frames && c.input_lanes
            == input_channels && c.output_lanes == output_channels && c.scratch_capacity
            == buffer_frames * widest_lanes(input_channels, output_channels),
        res matches Err(e) ==> e is Eval && e->Eval_0@ == planar_bridge_refusal(
            label@,
            buffer_frames,
            input_channels,
            output_channels,
        ),
{
    if input_channels == 0 && output_channels == 0 {
        return Err(Error::eval2(label, " bridge needs at least one audio lane"));
    }
    let max_block_frames = match checked_frames(buffer_frames, label) {
        Ok(f) => f,
        Err(e) => return Err(e),
    };
    let input_lanes = match checked_channels(input_channels, label, " input channel count exceeds u16") {
        Ok(c) => c,
        Err(e) => return Err(e),
    };
    let output_lanes = match checked_channels(output_channels, label, " output channel count exceeds u16") {
        Ok(c) => c,
        Err(e) => return Err(e),
    };
    let widest = widest_lanes_of(input_channels, output_channels);
    Ok(
        PlanarBridgeConfig {
            max_block_frames,
            input_lanes,
            output_lanes,
            scratch_capacity: buffer_frames * widest,
        },
    )
}

/// Checks a planar callback block of `frames` frames against the block
/// bound.
pub fn check_block_frames(label: &str, frames: usize, max_block_frames: u32) -> (res: Result<
    (),
    Error,
>)
    ensures
        res is Ok <==> frames <= max_block_frames,
        res matches Err(e) ==> e is Eval && e->Eval_0@ == label@ + " callback received "@
            + decimal_text(frames as nat) + " frames, max block size is "@ + decimal_text(
            max_block_frames as nat,
        ),
{
    if frames > max_block_frames as usize {
        let message = String::from_str(label).concat(" callback received ").concat(
            decimal(frames as u64).as_str(),
        ).concat(" frames, max block size is ").concat(
            decimal(max_block_frames as u64).as_str(),
        );
        return Err(Error::Eval(message));
    }
    Ok(())
}

/// The first input lane shorter than `frames`, if any.
pub open spec fn short_lane<S>(lanes: Seq<Vec<S>>, frames: usize) -> Option<int> {
    if exists|i: int|
        0 <= i < lanes.len() && lanes[i]@.len() < frames && forall|j: int|
            0 <= j < i ==> lanes[j]@.len() >= frames {
        Some(
            choose|i: int|
                0 <= i < lanes.len() && lanes[i]@.len() < frames && forall|j: int|
                    0 <= j < i ==> lanes[j]@.len() >= frames,
        )
    } else {
        None
    }
}

/// The first lane shorter than `frames` is the one `short_lane` names.
proof fn lemma_short_lane_is<S>(lanes: Seq<Vec<S>>, frames: usize, w: int)
    requires
        0 <= w < lanes.len(),
        lanes[w]@.len() < frames,
        forall|j: int| 0 <= j < w ==> lanes[j]@.len() >= frames,
    ensures
        short_lane(lanes, frames) == Some(w),
{
    let k = choose|k: int|
        0 <= k < lanes.len() && lanes[k]@.len() < frames && forall|j: int|
            0 <= j < k ==> lanes[j]@.len() >= frames;
    assert(0 <= k < lanes.len() && lanes[k]@.len() < frames);
    if k < w {
        assert(lanes[k]@.len() >= frames);
    }
    if w < k {
        assert(lanes[w]@.len() >= frames);
    }
}

/// Reads the input lanes of a planar callback block of `frames` frames:
/// silence when the host supplies none, otherwise the first `frames`
/// samples of each supplied lane, which must number `channels` and each
/// hold the block.
pub fn input_planar<S: Copy>(
    label: &str,
    input: Option<&[Vec<S>]>,
    channels: usize,
    frames: usize,
    silence: S,
) -> (res: Result<Vec<Vec<S>>, Error>)
    ensures
        match input {
            None => res matches Ok(lanes) && lanes@.map_values(|l: Vec<S>| l@) == silent_lanes(
                channels as nat,
                frames as nat,
                silence,
            ),
            Some(supplied) => if supplied@.len() != channels {
                res matches Err(e) && e is Eval && e->Eval_0@ == label@ + " input has "@
                    + decimal_text(supplied@.len()) + " channels, expected "@ + decimal_text(
                    channels as nat,
                )
            } else {
                match short_lane(supplied@, frames) {
                    Some(i) => res matches Err(e) && e is Eval && e->Eval_0@ == label@
                        + " input lane has "@ + decimal_text(supplied@[i]@.len())
                        + " frames, expected "@ + decimal_text(frames as nat),
                    None => res matches Ok(lanes) && lanes@.len() == channels && forall|i: int|
                        0 <= i < channels ==> #[trigger] lanes@[i]@ == supplied@[i]@.take(
                            frames as int,
                        ) && lanes@[i]@.len() == frames,
                }
            },
        },
{
    match input {
        None => Ok(silent_lanes_of(channels, frames, silence)),
        Some(supplied) => {
            if supplied.len() != channels {
                let message = String::from_str(label).concat(" input has ").concat(
                    decimal(supplied.len() as u64).as_str(),
                ).concat(" channels, expected ").concat(decimal(channels as u64).as_str());
                return Err(Error::Eval(message));
            }
            let mut lanes: Vec<Vec<S>> = Vec::new();
            let mut i: usize = 0;
            while i < supplied.len()
                invariant
                    input == Some(supplied),
                    supplied@.len() == channels,
                    i <= supplied@.len(),
                    lanes@.len() == i,
                    forall|j: int| 0 <= j < i ==> supplied@[j]@.len() >= frames,
                    forall|j: int|
                        0 <= j < i ==> #[trigger] lanes@[j]@ == supplied@[j]@.take(frames as int),
                decreases supplied@.len() - i,
            {
                let lane = &supplied[i];
                if lane.len() < frames {
                    proof {
                        lemma_short_lane_is(supplied@, frames, i as int);
                    }
                    let message = String::from_str(label).concat(" input lane has ").concat(
                        decimal(lane.len() as u64).as_str(),
                    ).concat(" frames, expected ").concat(decimal(frames as u64).as_str());
                    return Err(Error::Eval(message));
                }
                lanes.push(prefix_of(lane.as_slice(), frames));
                i = i + 1;
            }
            assert(short_lane(supplied@, frames) is None);
            Ok(lanes)
        },
    }
}

/// The first `frames` samples of `lane`.
fn prefix_of<S: Copy>(lane: &[S], frames: usize) -> (res: Vec<S>)
    requires
        frames <= lane@.len(),
    ensures
        res@ == lane@.take(frames as int),
{
    let mut res: Vec<S> = Vec::new();
    let mut k: usize = 0;
    while k < frames
        invariant
            k <= frames,
            frames <= lane@.len(),
            res@ == lane@.take(k as int),
        decreases frames - k,
    {
        res.push(lane[k]);
        assert(lane@.take(k as int + 1) =~= lane@.take(k as int).push(lane@[k as int]));
        k = k + 1;
    }
    res
}

/// The lanes and scratch capacity an ALSA playback bridge prepares with.
#[derive(Clone, Copy, Debug, PartialEq, Eq, Structural)]
pub struct PlaybackBridgeConfig {
    /// The largest callback block, in frames.
    pub max_block_frames: u32,
    /// The processor's output lane count.
    pub output_lanes: u16,
    /// The capacity of the block scratch arena, in samples.
    pub scratch_capacity: usize,
}

/// Configures an ALSA playback bridge: the block bound must not be zero and
/// the channel count must fit the processor's lane width.
pub fn playback_bridge_config(max_block_frames: u32, channels: usize) -> (res: Result<
    PlaybackBridgeConfig,
    Error,
>)
    requires
        max_block_frames * channels <= usize::MAX,
    ensures
        res is Ok <==> max_block_frames > 0 && channels <= u16::MAX,
        res matches Ok(c) ==> c.max_block_frames == max_block_frames && c.output_lanes == channels
            && c.scratch_capacity == max_block_frames * channels,
        res matches Err(e) ==> e is Eval && (if max_block_frames == 0 {
            e->Eval_0@ == "ALSA playback max block frames must be greater than zero"@
        } else {
            e->Eval_0@ == "ALSA playback output channel count exceeds u16"@
        }),
{
    if max_block_frames == 0 {
        return Err(Error::eval("ALSA playback max block frames must be greater than zero"));
    }
    if channels > u16::MAX as usize {
        return Err(Error::eval("ALSA playback output channel count exceeds u16"));
    }
    let output_lanes = channels as u16;
    Ok(
        PlaybackBridgeConfig {
            max_block_frames,
            output_lanes,
            scratch_capacity: max_block_frames as usize * channels,
        },
    )
}

/// Checks an ALSA playback callback of `frames` frames against the block
/// bound.
pub fn check_playback_frames(frames: usize, max_block_frames: u32) -> (res: Result<(), Error>)
    ensures
        res is Ok <==> frames <= max_block_frames,
        res matches Err(e) ==> e is Eval && e->Eval_0@ == "ALSA playback callback received "@
            + decimal_text(frames as nat) + " frames, max is "@ + decimal_text(
            max_block_frames as nat,
        ),
{
    if frames > max_block_frames as usize {
        let message = String::from_str("ALSA playback callback received ").concat(
            decimal(frames as u64).as_str(),
        ).concat(" frames, max is ").concat(decimal(max_block_frames as u64).as_str());
        return Err(Error::Eval(message));
    }
    Ok(())
}

/// The running sample position of a callback bridge: the number of frames
/// rendered since construction or the last reset.
#[derive(Clone, Copy, Debug, PartialEq, Eq, Structural)]
pub struct SamplePosition {
    sample_pos: u64,
}

impl SamplePosition {
    /// The position, in frames.
    pub closed spec fn spec_pos(self) -> u64 {
        self.sample_pos
    }

    /// A position at frame zero.
    pub fn new() -> (res: SamplePosition)
        ensures
            res.spec_pos() == 0,
    {
        SamplePosition { sample_pos: 0 }
    }

    /// Returns the position, in frames.
    pub fn sample_pos(&self) -> (res: u64)
        ensures
            res == self.spec_pos(),
    {
        self.sample_pos
    }

    /// Advances past a block of `frames` frames.
    pub fn advance(&mut self, frames: usize)
        requires
            old(self).spec_pos() + frames <= u64::MAX,
        ensures
            final(self).spec_pos() == old(self).spec_pos() + frames,
    {
        self.sample_pos = self.sample_pos + frames as u64;
    }

    /// Advances past a block of `frames` frames, stopping at `u64::MAX`.
    pub fn advance_saturating(&mut self, frames: usize)
        ensures
            final(self).spec_pos() == if old(self).spec_pos() + frames <= u64::MAX {
                (old(self).spec_pos() + frames) as u64
            } else {
                u64::MAX
            },
    {
        self.sample_pos = self.sample_pos.saturating_add(frames as u64);
    }

    /// Rewinds to frame zero.
    pub fn reset(&mut self)
        ensures
            final(self).spec_pos() == 0,
    {
        self.sample_pos = 0;
    }
}

impl Default for SamplePosition {
    fn default() -> (res: SamplePosition)
        ensures
            res.spec_pos() == 0,
    {
        SamplePosition::new()
    }
}


/// What one accepted callback block hands the processor: the block size,
/// the input lanes, silent output lanes to render into, and the transport
/// position.
pub struct BlockPlan<S> {
    /// The block size, in frames.
    pub frames: u32,
    /// One lane per input channel, each `frames` long.
    pub inputs: Vec<Vec<S>>,
    /// One silent lane per output channel, each `frames` long.
    pub outputs: Vec<Vec<S>>,
    /// The transport position the processor sees: the frames rendered
    /// before this block.
    pub sample_pos: u64,
}

/// The lanes of a plan as sequences.
pub open spec fn lane_values<S>(lanes: Seq<Vec<S>>) -> Seq<Seq<S>> {
    lanes.map_values(|l: Vec<S>| l@)
}

/// The per-callback state of a planar bridge (ASIO buffer switch,
/// CoreAudio render): its configuration, channel counts and running
/// position.
pub struct PlanarBridgeState {
    label: String,
    config: PlanarBridgeConfig,
    input_channels: usize,
    output_channels: usize,
    position: SamplePosition,
}

impl PlanarBridgeState {
    /// The host label used in refusals.
    pub closed spec fn spec_label(&self) -> Seq<char> {
        self.label@
    }

    /// The processor configuration.
    pub closed spec fn spec_config(&self) -> PlanarBridgeConfig {
        self.config
    }

    /// The input channel count.
    pub closed spec fn spec_input_channels(&self) -> usize {
        self.input_channels
    }

    /// The output channel count.
    pub closed spec fn spec_output_channels(&self) -> usize {
        self.output_channels
    }

    /// The frames rendered since construction or the last reset.
    pub closed spec fn spec_pos(&self) -> u64 {
        self.position.spec_pos()
    }

    /// Configures a planar bridge over a `buffer_frames`-frame buffer, at
    /// position zero; refused as `planar_bridge_config` refuses.
    pub fn new(label: &str, buffer_frames: usize, input_channels: usize, output_channels: usize) -> (res:
        Result<PlanarBridgeState, Error>)
        requires
            buffer_frames * widest_lanes(input_channels, output_channels) <= usize::MAX,
        ensures
            res is Ok <==> (input_channels > 0 || output_channels > 0) && buffer_frames <= u32::MAX
                && input_channels <= u16::MAX && output_channels <= u16::MAX,
            res matches Ok(b) ==> {
                &&& b.spec_label() == label@
                &&& b.spec_config().max_block_frames == buffer_frames
                &&& b.spec_config().input_lanes == input_channels
                &&& b.spec_config().output_lanes == output_channels
                &&& b.spec_config().scratch_capacity == buffer_frames * widest_lanes(
                    input_channels,
                    output_channels,
                )
                &&& b.spec_input_channels() == input_channels
                &&& b.spec_output_channels() == output_channels
                &&& b.spec_pos() == 0
            },
            res matches Err(e) ==> e is Eval && e->Eval_0@ == planar_bridge_refusal(
                label@,
                buffer_frames,
                input_channels,
                output_channels,
            ),
    {
        match planar_bridge_config(label, buffer_frames, input_channels, output_channels) {
            Ok(config) => Ok(
                PlanarBridgeState {
                    label: String::from_str(label),
                    config,
                    input_channels,
                    output_channels,
                    position: SamplePosition::new(),
                },
            ),
            Err(e) => Err(e),
        }
    }

    /// Returns the processor configuration.
    pub fn config(&self) -> (res: PlanarBridgeConfig)
        ensures
            res == self.spec_config(),
    {
        self.config
    }

    /// Returns the frames rendered since construction or the last reset.
    pub fn sample_pos(&self) -> (res: u64)
        ensures
            res == self.spec_pos(),
    {
        self.position.sample_pos()
    }

    /// Plans one callback block of `frames` frames, before the processor
    /// runs: an oversized block is refused first, then the input is read as
    /// `input_planar` reads it; the outputs start silent and the processor
    /// sees the current position. The position does not move.
    pub fn begin_block<S: Copy>(&self, input: Option<&[Vec<S>]>, frames: usize, silence: S) -> (res:
        Result<BlockPlan<S>, Error>)
        ensures
            frames > self.spec_config().max_block_frames ==> (res matches Err(e) && e is Eval
                && e->Eval_0@ == self.spec_label() + " callback received "@ + decimal_text(
                frames as nat,
            ) + " frames, max block size is "@ + decimal_text(
                self.spec_config().max_block_frames as nat,
            )),
            frames <= self.spec_config().max_block_frames ==> match input {
                None => res matches Ok(plan) && lane_values(plan.inputs@) == silent_lanes(
                    self.spec_input_channels() as nat,
                    frames as nat,
                    silence,
                ),
                Some(supplied) => if supplied@.len() != self.spec_input_channels() {
                    res matches Err(e) && e is Eval && e->Eval_0@ == self.spec_label()
                        + " input has "@ + decimal_text(supplied@.len()) + " channels, expected "@
                        + decimal_text(self.spec_input_channels() as nat)
                } else {
                    match short_lane(supplied@, frames) {
                        Some(i) => res matches Err(e) && e is Eval && e->Eval_0@
                            == self.spec_label() + " input lane has "@ + decimal_text(
                            supplied@[i]@.len(),
                        ) + " frames, expected "@ + decimal_text(frames as nat),
                        None => res matches Ok(plan) && lane_values(plan.inputs@) == supplied@.map_values(
                            |l: Vec<S>| l@.take(frames as int),
                        ),
                    }
                },
            },
            res matches Ok(plan) ==> {
                &&& plan.frames == frames
                &&& plan.sample_pos == self.spec_pos()
                &&& lane_values(plan.outputs@) == silent_lanes(
                    self.spec_output_channels() as nat,
                    frames as nat,
                    silence,
                )
            },
    {
        match check_block_frames(self.label.as_str(), frames, self.config.max_block_frames) {
            Ok(()) => {},
            Err(e) => return Err(e),
        }
        let inputs = match input_planar(self.label.as_str(), input, self.input_channels, frames, silence) {
            Ok(lanes) => lanes,
            Err(e) => return Err(e),
        };
        proof {
            if let Some(supplied) = input {
                if supplied@.len() == self.input_channels && short_lane(supplied@, frames) is None {
                    assert(lane_values(inputs@) =~= supplied@.map_values(
                        |l: Vec<S>| l@.take(frames as int),
                    ));
                }
            }
        }
        let outputs = silent_lanes_of(self.output_channels, frames, silence);
        Ok(
            BlockPlan {
                frames: frames as u32,
                inputs,
                outputs,
                sample_pos: self.position.sample_pos(),
            },
        )
    }

    /// Records that a planned block of `frames` frames was rendered: the
    /// position advances by `frames`.
    pub fn finish_block(&mut self, frames: u32)
        requires
            old(self).spec_pos() + frames <= u64::MAX,
        ensures
            final(self).spec_pos() == old(self).spec_pos() + frames,
            final(self).spec_config() == old(self).spec_config(),
            final(self).spec_label() == old(self).spec_label(),
            final(self).spec_input_channels() == old(self).spec_input_channels(),
            final(self).spec_output_channels() == old(self).spec_output_channels(),
    {
        self.position.advance(frames as usize);
    }

    /// Rewinds the position to zero, as the bridge's reset does.
    pub fn reset(&mut self)
        ensures
            final(self).spec_pos() == 0,
            final(self).spec_config() == old(self).spec_config(),
            final(self).spec_label() == old(self).spec_label(),
            final(self).spec_input_channels() == old(self).spec_input_channels(),
            final(self).spec_output_channels() == old(self).spec_output_channels(),
    {
        self.position.reset();
    }
}

/// The per-callback state of an ALSA playback bridge: its configuration,
/// channel count and running position.
pub struct PlaybackBridgeState {
    config: PlaybackBridgeConfig,
    channels: usize,
    position: SamplePosition,
}

impl PlaybackBridgeState {
    /// The processor configuration.
    pub closed spec fn spec_config(&self) -> PlaybackBridgeConfig {
        self.config
    }

    /// The output channel count.
    pub closed spec fn spec_channels(&self) -> usize {
        self.channels
    }

    /// The frames rendered since construction or the last reset.
    pub closed spec fn spec_pos(&self) -> u64 {
        self.position.spec_pos()
    }

    /// Configures a playback bridge at position zero; refused as
    /// `playback_bridge_config` refuses.
    pub fn new(max_block_frames: u32, channels: usize) -> (res: Result<PlaybackBridgeState, Error>)
        requires
            max_block_frames * channels <= usize::MAX,
        ensures
            res is Ok <==> max_block_frames > 0 && channels <= u16::MAX,
            res matches Ok(b) ==> {
                &&& b.spec_config().max_block_frames == max_block_frames
                &&& b.spec_config().output_lanes == channels
                &&& b.spec_config().scratch_capacity == max_block_frames * channels
                &&& b.spec_channels() == channels
                &&& b.spec_pos() == 0
            },
            res matches Err(e) ==> e is Eval && (if max_block_frames == 0 {
                e->Eval_0@ == "ALSA playback max block frames must be greater than zero"@
            } else {
                e->Eval_0@ == "ALSA playback output channel count exceeds u16"@
            }),
    {
        match playback_bridge_config(max_block_frames, channels) {
            Ok(config) => Ok(PlaybackBridgeState { config, channels, position: SamplePosition::new() }),
            Err(e) => Err(e),
        }
    }

    /// Returns the processor configuration.
    pub fn config(&self) -> (res: PlaybackBridgeConfig)
        ensures
            res == self.spec_config(),
    {
        self.config
    }

    /// Returns the frames rendered since construction or the last reset.
    pub fn sample_pos(&self) -> (res: u64)
        ensures
            res == self.spec_pos(),
    {
        self.position.sample_pos()
    }

    /// Plans one playback callback of `frames` frames, before the processor
    /// runs: an oversized block is refused; otherwise the processor gets no
    /// inputs, one silent output lane per channel, and the current position.
    /// The position does not move.
    pub fn begin_render<S: Copy>(&self, frames: usize, silence: S) -> (res: Result<BlockPlan<S>, Error>)
        ensures
            res is Ok <==> frames <= self.spec_config().max_block_frames,
            res matches Err(e) ==> e is Eval && e->Eval_0@ == "ALSA playback callback received "@
                + decimal_text(frames as nat) + " frames, max is "@ + decimal_text(
                self.spec_config().max_block_frames as nat,
            ),
            res matches Ok(plan) ==> {
                &&& plan.frames == frames
                &&& plan.inputs@.len() == 0
                &&& lane_values(plan.outputs@) == silent_lanes(
                    self.spec_channels() as nat,
                    frames as nat,
                    silence,
                )
                &&& plan.sample_pos == self.spec_pos()
            },
    {
        match check_playback_frames(frames, self.config.max_block_frames) {
            Ok(()) => {},
            Err(e) => return Err(e),
        }
        let outputs = silent_lanes_of(self.channels, frames, silence);
        Ok(
            BlockPlan {
                frames: frames as u32,
                inputs: Vec::new(),
                outputs,
                sample_pos: self.position.sample_pos(),
            },
        )
    }

    /// Records that a planned block of `frames` frames was rendered: the
    /// position advances by `frames`, stopping at `u64::MAX`.
    pub fn finish_render(&mut self, frames: u32)
        ensures
            final(self).spec_pos() == if old(self).spec_pos() + frames <= u64::MAX {
                (old(self).spec_pos() + frames) as u64
            } else {
                u64::MAX
            },
            final(self).spec_config() == old(self).spec_config(),
            final(self).spec_channels() == old(self).spec_channels(),
    {
        self.position.advance_saturating(frames as usize);
    }

    /// Rewinds the position to zero, as the bridge's reset does.
    pub fn reset(&mut self)
        ensures
            final(self).spec_pos() == 0,
            final(self).spec_config() == old(self).spec_config(),
            final(self).spec_channels() == old(self).spec_channels(),
    {
        self.position.reset();
    }
}

} // verus!
