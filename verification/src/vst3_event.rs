//! VST3 input events and their translation into graph block events. The
//! velocity and normalized-value payloads are carried as they come, of
//! whatever sample types the host uses; the translation decides offsets,
//! keys and parameter ids.
use vstd::prelude::*;
use vstd::string::StringExecFns;
use crate::error::Error;
use crate::text::{decimal, decimal_text};
use crate::vst3::{Vst3ParamMap, last_recorded, lemma_inserts_then_lookup, map_after_inserts, sim_param_of};

verus! {

/// A VST3 input event for one processing block, with velocities of type `V`
/// and normalized parameter values of type `N`.
#[derive(Clone, Copy, Debug, PartialEq)]
pub enum Vst3Event<V, N> {
    /// A note-on event.
    NoteOn {
        /// The sample offset of the event within the block.
        sample_offset: u32,
        /// The MIDI channel.
        channel: u8,
        /// The note pitch (MIDI key number).
        pitch: u8,
        /// The note-on velocity.
        velocity: V,
    },
    /// A note-off event.
    NoteOff {
        /// The sample offset of the event within the block.
        sample_offset: u32,
        /// The MIDI channel.
        channel: u8,
        /// The note pitch (MIDI key number).
        pitch: u8,
        /// The note-off (release) velocity.
        velocity: V,
    },
    /// A raw MIDI event of up to three bytes.
    Midi {
        /// The sample offset of the event within the block.
        sample_offset: u32,
        /// The MIDI message bytes.
        bytes: [u8; 3],
        /// The number of valid bytes in `bytes`.
        len: u8,
    },
    /// A normalized parameter value change.
    ParamValue {
        /// The sample offset of the event within the block.
        sample_offset: u32,
        /// The VST3 parameter id, remapped to a SIM id on conversion.
        vst3_param_id: u32,
        /// The normalized parameter value.
        normalized: N,
    },
}

/// A graph block event, as a processor receives it.
#[derive(Clone, Copy, Debug, PartialEq)]
pub enum BlockEvent<V, N> {
    /// A note starts.
    NoteOn {
        /// The sample offset within the block.
        offset: u32,
        /// The MIDI channel.
        channel: u8,
        /// The MIDI key number.
        key: u8,
        /// The note-on velocity.
        velocity: V,
    },
    /// A note ends.
    NoteOff {
        /// The sample offset within the block.
        offset: u32,
        /// The MIDI channel.
        channel: u8,
        /// The MIDI key number.
        key: u8,
        /// The release velocity.
        velocity: V,
    },
    /// A raw MIDI message.
    Midi {
        /// The sample offset within the block.
        offset: u32,
        /// The message bytes.
        bytes: [u8; 3],
        /// The number of valid bytes.
        len: u8,
    },
    /// A parameter is set.
    ParamSet {
        /// The sample offset within the block.
        offset: u32,
        /// The SIM parameter id.
        param: u32,
        /// The new value.
        value: N,
    },
}

/// The sample offset an event carries.
pub open spec fn event_offset<V, N>(event: Vst3Event<V, N>) -> u32 {
    match event {
        Vst3Event::NoteOn { sample_offset, .. } => sample_offset,
        Vst3Event::NoteOff { sample_offset, .. } => sample_offset,
        Vst3Event::Midi { sample_offset, .. } => sample_offset,
        Vst3Event::ParamValue { sample_offset, .. } => sample_offset,
    }
}

/// The block event a VST3 event translates to under the parameter map
/// `params`: notes and MIDI keep their fields, parameter changes take the
/// mapped SIM id.
pub open spec fn block_event_of<V, N>(event: Vst3Event<V, N>, params: Map<u32, u32>) -> BlockEvent<
    V,
    N,
> {
    match event {
        Vst3Event::NoteOn { sample_offset, channel, pitch, velocity } => BlockEvent::NoteOn {
            offset: sample_offset,
            channel,
            key: pitch,
            velocity,
        },
        Vst3Event::NoteOff { sample_offset, channel, pitch, velocity } => BlockEvent::NoteOff {
            offset: sample_offset,
            channel,
            key: pitch,
            velocity,
        },
        Vst3Event::Midi { sample_offset, bytes, len } => BlockEvent::Midi {
            offset: sample_offset,
            bytes,
            len,
        },
        Vst3Event::ParamValue { sample_offset, vst3_param_id, normalized } => BlockEvent::ParamSet {
            offset: sample_offset,
            param: sim_param_of(params, vst3_param_id),
            value: normalized,
        },
    }
}

/// The message an event outside a block of `frames` frames is refused
/// with.
pub open spec fn offset_refusal(offset: u32, frames: u32) -> Seq<char> {
    "VST3 event offset "@ + decimal_text(offset as nat) + " is outside block frames 0.."@
        + decimal_text(frames as nat)
}

impl<V: Copy, N: Copy> Vst3Event<V, N> {
    /// Returns the sample offset the event carries.
    pub fn sample_offset(&self) -> (res: u32)
        ensures
            res == event_offset(*self),
    {
        match self {
            Vst3Event::NoteOn { sample_offset, .. } => *sample_offset,
            Vst3Event::NoteOff { sample_offset, .. } => *sample_offset,
            Vst3Event::Midi { sample_offset, .. } => *sample_offset,
            Vst3Event::ParamValue { sample_offset, .. } => *sample_offset,
        }
    }

    /// Translates this event into a graph block event, remapping any
    /// parameter id through `params`.
    pub fn to_block_event(&self, params: &Vst3ParamMap) -> (res: BlockEvent<V, N>)
        ensures
            res == block_event_of(*self, params@),
    {
        match self {
            Vst3Event::NoteOn { sample_offset, channel, pitch, velocity } => BlockEvent::NoteOn {
                offset: *sample_offset,
                channel: *channel,
                key: *pitch,
                velocity: *velocity,
            },
            Vst3Event::NoteOff { sample_offset, channel, pitch, velocity } => BlockEvent::NoteOff {
                offset: *sample_offset,
                channel: *channel,
                key: *pitch,
                velocity: *velocity,
            },
            Vst3Event::Midi { sample_offset, bytes, len } => BlockEvent::Midi {
                offset: *sample_offset,
                bytes: *bytes,
                len: *len,
            },
            Vst3Event::ParamValue { sample_offset, vst3_param_id, normalized } => {
                BlockEvent::ParamSet {
                    offset: *sample_offset,
                    param: params.sim_param_for(*vst3_param_id),
                    value: *normalized,
                }
            },
        }
    }

    /// Translates this event for a block of `frames` frames: an event whose
    /// offset is not inside `0..frames` is refused.
    pub fn try_to_block_event(&self, params: &Vst3ParamMap, frames: u32) -> (res: Result<
        BlockEvent<V, N>,
        Error,
    >)
        ensures
            event_offset(*self) < frames ==> res == Ok::<BlockEvent<V, N>, Error>(
                block_event_of(*self, params@),
            ),
            event_offset(*self) >= frames ==> (res matches Err(e) && e is Eval && e->Eval_0@
                == offset_refusal(event_offset(*self), frames)),
    {
        let offset = self.sample_offset();
        if offset >= frames {
            let message = String::from_str("VST3 event offset ").concat(
                decimal(offset as u64).as_str(),
            ).concat(" is outside block frames 0..").concat(decimal(frames as u64).as_str());
            return Err(Error::Eval(message));
        }
        Ok(self.to_block_event(params))
    }
}

/// A parameter change keeps its offset and value and is sent to the SIM
/// parameter the map records for its VST3 id; an id the map does not hold
/// passes through as itself.
pub proof fn lemma_param_event_targets_mapped_id<V, N>(
    sample_offset: u32,
    vst3_param_id: u32,
    normalized: N,
    params: Map<u32, u32>,
)
    ensures
        params.contains_key(vst3_param_id) ==> block_event_of(
            (Vst3Event::<V, N>::ParamValue { sample_offset, vst3_param_id, normalized }),
            params,
        ) == (BlockEvent::<V, N>::ParamSet {
            offset: sample_offset,
            param: params[vst3_param_id],
            value: normalized,
        }),
        !params.contains_key(vst3_param_id) ==> block_event_of(
            (Vst3Event::<V, N>::ParamValue { sample_offset, vst3_param_id, normalized }),
            params,
        ) == (BlockEvent::<V, N>::ParamSet {
            offset: sample_offset,
            param: vst3_param_id,
            value: normalized,
        }),
{
}

/// Translating a parameter change under a map built by any sequence of
/// recordings sends it to the SIM id last recorded for its VST3 id, or to
/// the VST3 id itself when none was recorded; the empty map sends every
/// change to its own id.
pub proof fn lemma_param_event_after_inserts<V, N>(
    sample_offset: u32,
    vst3_param_id: u32,
    normalized: N,
    inserts: Seq<(u32, u32)>,
)
    ensures
        block_event_of(
            (Vst3Event::<V, N>::ParamValue { sample_offset, vst3_param_id, normalized }),
            map_after_inserts(inserts),
        ) == (BlockEvent::<V, N>::ParamSet {
            offset: sample_offset,
            param: match last_recorded(inserts, vst3_param_id) {
                Some(sim) => sim,
                None => vst3_param_id,
            },
            value: normalized,
        }),
        block_event_of(
            (Vst3Event::<V, N>::ParamValue { sample_offset, vst3_param_id, normalized }),
            Map::<u32, u32>::empty(),
        ) == (BlockEvent::<V, N>::ParamSet {
            offset: sample_offset,
            param: vst3_param_id,
            value: normalized,
        }),
{
    lemma_inserts_then_lookup(inserts, vst3_param_id);
}

/// An ordered buffer of VST3 events for one processing block.
#[derive(Clone, Debug, PartialEq)]
pub struct Vst3EventBuffer<V, N> {
    events: Vec<Vst3Event<V, N>>,
}

/// The block events a sequence of VST3 events translates to, in order.
pub open spec fn block_events_of<V, N>(events: Seq<Vst3Event<V, N>>, params: Map<u32, u32>) -> Seq<
    BlockEvent<V, N>,
> {
    events.map_values(|e: Vst3Event<V, N>| block_event_of(e, params))
}

/// The first event whose offset falls outside a block of `frames` frames.
pub open spec fn first_outside<V, N>(events: Seq<Vst3Event<V, N>>, frames: u32) -> Option<int> {
    if exists|i: int|
        0 <= i < events.len() && event_offset(events[i]) >= frames && forall|j: int|
            0 <= j < i ==> event_offset(events[j]) < frames {
        Some(
            choose|i: int|
                0 <= i < events.len() && event_offset(events[i]) >= frames && forall|j: int|
                    0 <= j < i ==> event_offset(events[j]) < frames,
        )
    } else {
        None
    }
}

/// The first event outside the block is the one `first_outside` names.
proof fn lemma_first_outside_is<V, N>(events: Seq<Vst3Event<V, N>>, frames: u32, w: int)
    requires
        0 <= w < events.len(),
        event_offset(events[w]) >= frames,
        forall|j: int| 0 <= j < w ==> event_offset(events[j]) < frames,
    ensures
        first_outside(events, frames) == Some(w),
{
    let k = choose|k: int|
        0 <= k < events.len() && event_offset(events[k]) >= frames && forall|j: int|
            0 <= j < k ==> event_offset(events[j]) < frames;
    assert(0 <= k < events.len() && event_offset(events[k]) >= frames);
    if k < w {
        assert(event_offset(events[k]) < frames);
    }
    if w < k {
        assert(event_offset(events[w]) < frames);
    }
}

/// A buffer is refused for a block exactly when one of its events lies
/// outside the block: no event is outside when every offset is below
/// `frames`.
pub proof fn lemma_first_outside_none_iff_all_inside<V, N>(
    events: Seq<Vst3Event<V, N>>,
    frames: u32,
)
    ensures
        first_outside(events, frames) is None <==> forall|i: int|
            0 <= i < events.len() ==> event_offset(#[trigger] events[i]) < frames,
{
    if !(forall|i: int| 0 <= i < events.len() ==> event_offset(#[trigger] events[i]) < frames) {
        let w = choose|i: int| 0 <= i < events.len() && event_offset(#[trigger] events[i]) >= frames;
        let first = lemma_earliest_outside(events, frames, w);
        lemma_first_outside_is(events, frames, first);
    }
}

/// Some event at or before `w` is the earliest outside the block.
proof fn lemma_earliest_outside<V, N>(events: Seq<Vst3Event<V, N>>, frames: u32, w: int) -> (first:
    int)
    requires
        0 <= w < events.len(),
        event_offset(events[w]) >= frames,
    ensures
        0 <= first <= w,
        event_offset(events[first]) >= frames,
        forall|j: int| 0 <= j < first ==> event_offset(events[j]) < frames,
    decreases w,
{
    if exists|j: int| 0 <= j < w && event_offset(events[j]) >= frames {
        let j = choose|j: int| 0 <= j < w && event_offset(events[j]) >= frames;
        lemma_earliest_outside(events, frames, j)
    } else {
        w
    }
}

impl<V: Copy, N: Copy> Vst3EventBuffer<V, N> {
    /// The buffered events, in order.
    pub closed spec fn spec_events(&self) -> Seq<Vst3Event<V, N>> {
        self.events@
    }

    /// Creates a buffer from an existing `events` vector.
    pub fn new(events: Vec<Vst3Event<V, N>>) -> (res: Vst3EventBuffer<V, N>)
        ensures
            res.spec_events() == events@,
    {
        Vst3EventBuffer { events }
    }

    /// Returns the buffered events in order.
    pub fn events(&self) -> (res: &[Vst3Event<V, N>])
        ensures
            res@ == self.spec_events(),
    {
        self.events.as_slice()
    }

    /// Appends `event` to the buffer.
    pub fn push(&mut self, event: Vst3Event<V, N>)
        ensures
            final(self).spec_events() == old(self).spec_events().push(event),
    {
        self.events.push(event);
    }

    /// Translates every buffered event, in order, remapping parameter ids
    /// through `params`.
    pub fn to_block_events(&self, params: &Vst3ParamMap) -> (res: Vec<BlockEvent<V, N>>)
        ensures
            res@ == block_events_of(self.spec_events(), params@),
    {
        let mut res: Vec<BlockEvent<V, N>> = Vec::new();
        let mut i: usize = 0;
        while i < self.events.len()
            invariant
                i <= self.events@.len(),
                res@ == block_events_of(self.events@.take(i as int), params@),
            decreases self.events@.len() - i,
        {
            res.push(self.events[i].to_block_event(params));
            assert(self.events@.take(i as int + 1) =~= self.events@.take(i as int).push(
                self.events@[i as int],
            ));
            i = i + 1;
            assert(res@ =~= block_events_of(self.events@.take(i as int), params@));
        }
        assert(self.events@.take(i as int) =~= self.events@);
        res
    }

    /// Translates every buffered event for a block of `frames` frames, in
    /// order; the first event outside the block refuses the whole buffer.
    pub fn try_to_block_events(&self, params: &Vst3ParamMap, frames: u32) -> (res: Result<
        Vec<BlockEvent<V, N>>,
        Error,
    >)
        ensures
            match first_outside(self.spec_events(), frames) {
                Some(i) => res matches Err(e) && e is Eval && e->Eval_0@ == offset_refusal(
                    event_offset(self.spec_events()[i]),
                    frames,
                ),
                None => res matches Ok(v) && v@ == block_events_of(self.spec_events(), params@),
            },
    {
        let mut res: Vec<BlockEvent<V, N>> = Vec::new();
        let mut i: usize = 0;
        while i < self.events.len()
            invariant
                i <= self.events@.len(),
                res@ == block_events_of(self.events@.take(i as int), params@),
                forall|j: int| 0 <= j < i ==> event_offset(#[trigger] self.events@[j]) < frames,
            decreases self.events@.len() - i,
        {
            match self.events[i].try_to_block_event(params, frames) {
                Ok(event) => {
                    res.push(event);
                },
                Err(e) => {
                    proof {
                        lemma_first_outside_is(self.events@, frames, i as int);
                    }
                    return Err(e);
                },
            }
            assert(self.events@.take(i as int + 1) =~= self.events@.take(i as int).push(
                self.events@[i as int],
            ));
            i = i + 1;
            assert(res@ =~= block_events_of(self.events@.take(i as int), params@));
        }
        assert(self.events@.take(i as int) =~= self.events@);
        Ok(res)
    }
}

impl<V: Copy, N: Copy> Default for Vst3EventBuffer<V, N> {
    fn default() -> (res: Vst3EventBuffer<V, N>)
        ensures
            res.spec_events() == Seq::<Vst3Event<V, N>>::empty(),
    {
        Vst3EventBuffer { events: Vec::new() }
    }
}

} // verus!
