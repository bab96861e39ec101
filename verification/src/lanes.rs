//! Planar sample lanes: silent lanes, and the prefix copies and
//! silencing a callback block applies to them. Samples are of whatever
//! type the host uses.
use vstd::prelude::*;

verus! {

/// `lane` with its first `frames` slots taken from `input`, when both hold
/// at least `frames` slots; otherwise `lane` unchanged.
pub open spec fn staged_lane<S>(lane: Seq<S>, input: Seq<S>, frames: nat) -> Seq<S> {
    if lane.len() >= frames && input.len() >= frames {
        input.take(frames as int) + lane.skip(frames as int)
    } else {
        lane
    }
}

/// `lane` with its first `frames` slots set to `silence`, when it holds at
/// least `frames` slots; otherwise `lane` unchanged.
pub open spec fn silenced_lane<S>(lane: Seq<S>, frames: nat, silence: S) -> Seq<S> {
    if lane.len() >= frames {
        Seq::new(frames, |k: int| silence) + lane.skip(frames as int)
    } else {
        lane
    }
}

/// `count` lanes of `frames` slots of `silence`.
pub open spec fn silent_lanes<S>(count: nat, frames: nat, silence: S) -> Seq<Seq<S>> {
    Seq::new(count, |i: int| Seq::new(frames, |k: int| silence))
}

/// Copies the first `frames` slots of `input` into `lane`, when both hold
/// that many.
pub(crate) fn stage_lane<S: Copy>(lane: &mut Vec<S>, input: &[S], frames: usize)
    ensures
        final(lane)@ == staged_lane(old(lane)@, input@, frames as nat),
{
    if lane.len() >= frames && input.len() >= frames {
        let mut k: usize = 0;
        while k < frames
            invariant
                k <= frames,
                frames <= lane@.len(),
                frames <= input@.len(),
                lane@.len() == old(lane)@.len(),
                forall|j: int| 0 <= j < k ==> lane@[j] == input@[j],
                forall|j: int| k <= j < lane@.len() ==> lane@[j] == old(lane)@[j],
            decreases frames - k,
        {
            lane.set(k, input[k]);
            k = k + 1;
        }
        assert(lane@ =~= input@.take(frames as int) + old(lane)@.skip(frames as int));
    }
}

/// Sets the first `frames` slots of `lane` to `silence`, when it holds that
/// many.
pub(crate) fn silence_lane<S: Copy>(lane: &mut Vec<S>, frames: usize, silence: S)
    ensures
        final(lane)@ == silenced_lane(old(lane)@, frames as nat, silence),
{
    if lane.len() >= frames {
        let mut k: usize = 0;
        while k < frames
            invariant
                k <= frames,
                frames <= lane@.len(),
                lane@.len() == old(lane)@.len(),
                forall|j: int| 0 <= j < k ==> lane@[j] == silence,
                forall|j: int| k <= j < lane@.len() ==> lane@[j] == old(lane)@[j],
            decreases frames - k,
        {
            lane.set(k, silence);
            k = k + 1;
        }
        assert(lane@ =~= Seq::new(frames as nat, |j: int| silence) + old(lane)@.skip(
            frames as int,
        ));
    }
}

/// A lane of `frames` slots of `silence`.
pub(crate) fn silent_lane<S: Copy>(frames: usize, silence: S) -> (res: Vec<S>)
    ensures
        res@ == Seq::new(frames as nat, |k: int| silence),
{
    let mut lane: Vec<S> = Vec::new();
    let mut k: usize = 0;
    while k < frames
        invariant
            k <= frames,
            lane@.len() == k,
            forall|j: int| 0 <= j < k ==> lane@[j] == silence,
        decreases frames - k,
    {
        lane.push(silence);
        k = k + 1;
    }
    assert(lane@ =~= Seq::new(frames as nat, |j: int| silence));
    lane
}

/// `count` lanes of `frames` slots of `silence`.
pub fn silent_lanes_of<S: Copy>(count: usize, frames: usize, silence: S) -> (res: Vec<Vec<S>>)
    ensures
        res@.map_values(|l: Vec<S>| l@) == silent_lanes(count as nat, frames as nat, silence),
{
    let mut lanes: Vec<Vec<S>> = Vec::new();
    let mut i: usize = 0;
    while i < count
        invariant
            i <= count,
            lanes@.len() == i,
            forall|j: int|
                0 <= j < i ==> #[trigger] lanes@[j]@ == Seq::new(frames as nat, |k: int| silence),
        decreases count - i,
    {
        lanes.push(silent_lane(frames, silence));
        i = i + 1;
    }
    assert(lanes@.map_values(|l: Vec<S>| l@) =~= silent_lanes(count as nat, frames as nat, silence));
    lanes
}

/// Silences the first `frames` slots of every lane that holds that many,
/// as a refused block's outputs are.
pub fn silence_lanes<S: Copy>(lanes: &mut Vec<Vec<S>>, frames: usize, silence: S)
    ensures
        final(lanes)@.len() == old(lanes)@.len(),
        forall|i: int|
            0 <= i < old(lanes)@.len() ==> #[trigger] final(lanes)@[i]@ == silenced_lane(
                old(lanes)@[i]@,
                frames as nat,
                silence,
            ),
{
    let n = lanes.len();
    let mut i: usize = 0;
    while i < n
        invariant
            n == old(lanes)@.len(),
            lanes@.len() == n,
            i <= n,
            forall|j: int|
                0 <= j < i ==> #[trigger] lanes@[j]@ == silenced_lane(
                    old(lanes)@[j]@,
                    frames as nat,
                    silence,
                ),
            forall|j: int| i <= j < n ==> #[trigger] lanes@[j] == old(lanes)@[j],
        decreases n - i,
    {
        let mut lane: Vec<S> = Vec::new();
        lanes.set_and_swap(i, &mut lane);
        silence_lane(&mut lane, frames, silence);
        lanes.set_and_swap(i, &mut lane);
        i = i + 1;
    }
}

} // verus!
