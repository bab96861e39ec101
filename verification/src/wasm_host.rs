//! The host side of a WebAssembly audio plugin: the lanes and parameters
//! the guest reads and writes through its imports, staged for each block.
//! Samples (`S`) and parameter values (`P`) are carried as they come; the
//! host decides which lane slots a block touches.
use vstd::prelude::*;
use vstd::string::StringExecFns;
use crate::descriptor::PortDecl;
use crate::error::Error;
use crate::lanes::{
    silence_lanes, silenced_lane, silent_lanes, silent_lanes_of, stage_lane, staged_lane,
};
use crate::text::{decimal, decimal_text};
use crate::wire::{PortDir, PortMedia};

verus! {

/// The message a guest reference to an undeclared parameter is refused
/// with.
pub open spec fn absent_param_refusal(id: u32) -> Seq<char> {
    "wasm plugin parameter "@ + decimal_text(id as nat) + " is absent"@
}

/// The lanes and parameters a WebAssembly plugin's imports read and write.
pub struct WasmHostAudio<S, P> {
    frame_count: u32,
    audio_in: Vec<Vec<S>>,
    audio_out: Vec<Vec<S>>,
    params: Vec<P>,
}

/// The number of audio channels the ports declare in direction `dir`.
pub open spec fn audio_channels_in(ports: Seq<PortDecl>, dir: PortDir) -> nat
    decreases ports.len(),
{
    if ports.len() == 0 {
        0
    } else {
        let last = ports.last();
        audio_channels_in(ports.drop_last(), dir) + if last.media == PortMedia::Audio && last.dir
            == dir {
            last.channels as nat
        } else {
            0
        }
    }
}

/// Sums the channels of the audio ports in direction `dir`.
pub fn audio_channel_count(ports: &[PortDecl], dir: PortDir) -> (res: usize)
    requires
        ports@.len() * 65535 <= usize::MAX,
    ensures
        res == audio_channels_in(ports@, dir),
{
    let mut total: usize = 0;
    let mut i: usize = 0;
    while i < ports.len()
        invariant
            i <= ports@.len(),
            ports@.len() * 65535 <= usize::MAX,
            total == audio_channels_in(ports@.take(i as int), dir),
            total <= i * 65535,
        decreases ports@.len() - i,
    {
        let port = &ports[i];
        assert(ports@.take(i as int + 1).drop_last() =~= ports@.take(i as int));
        if port.media == PortMedia::Audio && port.dir == dir {
            total = total + port.channels as usize;
        }
        i = i + 1;
    }
    assert(ports@.take(i as int) =~= ports@);
    total
}

impl<S: Copy, P: Copy> WasmHostAudio<S, P> {
    /// The frame count of the block being processed.
    pub closed spec fn spec_frame_count(&self) -> u32 {
        self.frame_count
    }

    /// The input lanes.
    pub closed spec fn spec_audio_in(&self) -> Seq<Seq<S>> {
        self.audio_in@.map_values(|l: Vec<S>| l@)
    }

    /// The output lanes.
    pub closed spec fn spec_audio_out(&self) -> Seq<Seq<S>> {
        self.audio_out@.map_values(|l: Vec<S>| l@)
    }

    /// The parameter values, by parameter id.
    pub closed spec fn spec_params(&self) -> Seq<P> {
        self.params@
    }

    /// An empty host: no frames, no lanes, no parameters.
    pub fn new() -> (res: WasmHostAudio<S, P>)
        ensures
            res.spec_frame_count() == 0,
            res.spec_audio_in() == Seq::<Seq<S>>::empty(),
            res.spec_audio_out() == Seq::<Seq<S>>::empty(),
            res.spec_params() == Seq::<P>::empty(),
    {
        let res = WasmHostAudio {
            frame_count: 0,
            audio_in: Vec::new(),
            audio_out: Vec::new(),
            params: Vec::new(),
        };
        assert(res.spec_audio_in() =~= Seq::<Seq<S>>::empty());
        assert(res.spec_audio_out() =~= Seq::<Seq<S>>::empty());
        res
    }

    /// The frame count the guest's frame-count import reports.
    pub fn frame_count(&self) -> (res: u32)
        ensures
            res == self.spec_frame_count(),
    {
        self.frame_count
    }

    /// What the guest's audio-read import returns: the sample at `frame` of
    /// input lane `ch`, or `silence` outside the lanes.
    pub fn audio_read(&self, ch: u32, frame: u32, silence: S) -> (res: S)
        ensures
            res == if ch < self.spec_audio_in().len() && frame
                < self.spec_audio_in()[ch as int].len() {
                self.spec_audio_in()[ch as int][frame as int]
            } else {
                silence
            },
    {
        let c = ch as usize;
        let f = frame as usize;
        if c < self.audio_in.len() && f < self.audio_in[c].len() {
            self.audio_in[c][f]
        } else {
            silence
        }
    }

    /// What the guest's audio-write import does: sets the sample at `frame`
    /// of output lane `ch`, and nothing outside the lanes.
    pub fn audio_write(&mut self, ch: u32, frame: u32, value: S)
        ensures
            final(self).spec_frame_count() == old(self).spec_frame_count(),
            final(self).spec_audio_in() == old(self).spec_audio_in(),
            final(self).spec_params() == old(self).spec_params(),
            final(self).spec_audio_out() == if ch < old(self).spec_audio_out().len() && frame
                < old(self).spec_audio_out()[ch as int].len() {
                old(self).spec_audio_out().update(
                    ch as int,
                    old(self).spec_audio_out()[ch as int].update(frame as int, value),
                )
            } else {
                old(self).spec_audio_out()
            },
    {
        let c = ch as usize;
        let f = frame as usize;
        if c < self.audio_out.len() && f < self.audio_out[c].len() {
            let ghost before = self.audio_out@;
            let mut lane: Vec<S> = Vec::new();
            self.audio_out.set_and_swap(c, &mut lane);
            lane.set(f, value);
            let ghost written = lane;
            self.audio_out.set_and_swap(c, &mut lane);
            assert(self.audio_out@ =~= before.update(c as int, written));
            assert(self.spec_audio_out() =~= old(self).spec_audio_out().update(
                ch as int,
                old(self).spec_audio_out()[ch as int].update(frame as int, value),
            ));
        }
    }

    /// What the guest's parameter-get import returns: the value of
    /// parameter `id`, or `unset` for an undeclared one.
    pub fn param_get(&self, id: u32, unset: P) -> (res: P)
        ensures
            res == if id < self.spec_params().len() {
                self.spec_params()[id as int]
            } else {
                unset
            },
    {
        let i = id as usize;
        if i < self.params.len() {
            self.params[i]
        } else {
            unset
        }
    }

    /// Declares `count` parameters, each starting at `initial`.
    pub fn declare_params(&mut self, count: u16, initial: P)
        ensures
            final(self).spec_frame_count() == old(self).spec_frame_count(),
            final(self).spec_audio_in() == old(self).spec_audio_in(),
            final(self).spec_audio_out() == old(self).spec_audio_out(),
            final(self).spec_params() == Seq::new(count as nat, |k: int| initial),
    {
        let mut params: Vec<P> = Vec::new();
        let mut k: u16 = 0;
        while k < count
            invariant
                k <= count,
                params@.len() == k,
                forall|j: int| 0 <= j < k ==> params@[j] == initial,
            decreases count - k,
        {
            params.push(initial);
            k = k + 1;
        }
        assert(params@ =~= Seq::new(count as nat, |j: int| initial));
        self.params = params;
    }

    /// Sets declared parameter `id` to `value`; an undeclared one is refused.
    pub fn set_param(&mut self, id: u32, value: P) -> (res: Result<(), Error>)
        ensures
            res is Ok <==> id < old(self).spec_params().len(),
            res is Ok ==> final(self).spec_params() == old(self).spec_params().update(
                id as int,
                value,
            ),
            res is Err ==> final(self).spec_params() == old(self).spec_params(),
            res matches Err(e) ==> e is Eval && e->Eval_0@ == absent_param_refusal(id),
            final(self).spec_frame_count() == old(self).spec_frame_count(),
            final(self).spec_audio_in() == old(self).spec_audio_in(),
            final(self).spec_audio_out() == old(self).spec_audio_out(),
    {
        let i = id as usize;
        if i >= self.params.len() {
            let message = String::from_str("wasm plugin parameter ").concat(
                decimal(id as u64).as_str(),
            ).concat(" is absent");
            return Err(Error::Eval(message));
        }
        self.params.set(i, value);
        Ok(())
    }

    /// Sizes the lanes for blocks of up to `frames` frames: `inputs` input
    /// and `outputs` output lanes, all silent.
    pub fn prepare_lanes(&mut self, inputs: usize, outputs: usize, frames: u32, silence: S)
        ensures
            final(self).spec_frame_count() == old(self).spec_frame_count(),
            final(self).spec_params() == old(self).spec_params(),
            final(self).spec_audio_in() == silent_lanes(inputs as nat, frames as nat, silence),
            final(self).spec_audio_out() == silent_lanes(outputs as nat, frames as nat, silence),
    {
        self.audio_in = silent_lanes_of(inputs, frames as usize, silence);
        self.audio_out = silent_lanes_of(outputs, frames as usize, silence);
    }

    /// Stages one block of `frames` frames before the guest runs: records
    /// the frame count, copies each supplied input lane into the matching
    /// host lane (where both hold the block) and silences the block in
    /// every output lane that holds it.
    pub fn stage_block(&mut self, frames: u32, inputs: &[Vec<S>], silence: S)
        ensures
            final(self).spec_frame_count() == frames,
            final(self).spec_params() == old(self).spec_params(),
            final(self).spec_audio_in().len() == old(self).spec_audio_in().len(),
            forall|c: int|
                0 <= c < old(self).spec_audio_in().len() ==> #[trigger] final(self).spec_audio_in()[c] == if c < inputs@.len() {
                    staged_lane(old(self).spec_audio_in()[c], inputs@[c]@, frames as nat)
                } else {
                    old(self).spec_audio_in()[c]
                },
            final(self).spec_audio_out().len() == old(self).spec_audio_out().len(),
            forall|c: int|
                0 <= c < old(self).spec_audio_out().len() ==> #[trigger] final(self).spec_audio_out()[c] == silenced_lane(
                    old(self).spec_audio_out()[c],
                    frames as nat,
                    silence,
                ),
    {
        self.frame_count = frames;
        let f = frames as usize;
        let n = self.audio_in.len();
        let mut c: usize = 0;
        while c < n
            invariant
                n == old(self).audio_in@.len(),
                self.audio_in@.len() == n,
                self.frame_count == frames,
                f == frames,
                self.params == old(self).params,
                self.audio_out == old(self).audio_out,
                c <= n,
                forall|j: int|
                    0 <= j < c ==> #[trigger] self.audio_in@[j]@ == if j < inputs@.len() {
                        staged_lane(old(self).audio_in@[j]@, inputs@[j]@, f as nat)
                    } else {
                        old(self).audio_in@[j]@
                    },
                forall|j: int| c <= j < n ==> #[trigger] self.audio_in@[j] == old(self).audio_in@[j],
            decreases n - c,
        {
            if c < inputs.len() {
                let mut lane: Vec<S> = Vec::new();
                self.audio_in.set_and_swap(c, &mut lane);
                stage_lane(&mut lane, inputs[c].as_slice(), f);
                self.audio_in.set_and_swap(c, &mut lane);
            }
            c = c + 1;
        }
        silence_lanes(&mut self.audio_out, f, silence);
    }

    /// Copies the block the guest rendered into `outputs`: the first
    /// `frames` slots of each output lane that has a matching host lane,
    /// where both hold the block.
    pub fn copy_outputs(&self, outputs: &mut Vec<Vec<S>>, frames: u32)
        ensures
            final(outputs)@.len() == old(outputs)@.len(),
            forall|c: int|
                0 <= c < old(outputs)@.len() ==> #[trigger] final(outputs)@[c]@ == if c
                    < self.spec_audio_out().len() {
                    staged_lane(old(outputs)@[c]@, self.spec_audio_out()[c], frames as nat)
                } else {
                    old(outputs)@[c]@
                },
    {
        let f = frames as usize;
        let n = outputs.len();
        let mut c: usize = 0;
        while c < n
            invariant
                n == old(outputs)@.len(),
                outputs@.len() == n,
                c <= n,
                forall|j: int|
                    0 <= j < c ==> #[trigger] outputs@[j]@ == if j < self.audio_out@.len() {
                        staged_lane(old(outputs)@[j]@, self.audio_out@[j]@, f as nat)
                    } else {
                        old(outputs)@[j]@
                    },
                forall|j: int| c <= j < n ==> #[trigger] outputs@[j] == old(outputs)@[j],
            decreases n - c,
        {
            if c < self.audio_out.len() {
                let mut lane: Vec<S> = Vec::new();
                outputs.set_and_swap(c, &mut lane);
                stage_lane(&mut lane, self.audio_out[c].as_slice(), f);
                outputs.set_and_swap(c, &mut lane);
            }
            c = c + 1;
        }
    }
}

/// The message a nonzero process status is reported with.
pub open spec fn process_status_refusal(code: i32) -> Seq<char> {
    if code < 0 {
        "wasm plugin process returned status -"@ + decimal_text((-code) as nat)
    } else {
        "wasm plugin process returned status "@ + decimal_text(code as nat)
    }
}

/// Reads the status the guest's process export returned: zero is success.
pub fn process_status(code: i32) -> (res: Result<(), Error>)
    ensures
        res is Ok <==> code == 0,
        res matches Err(e) ==> e is Eval && e->Eval_0@ == process_status_refusal(code),
{
    if code == 0 {
        return Ok(());
    }
    let message = if code < 0 {
        let magnitude: u64 = if code == i32::MIN {
            2147483648u64
        } else {
            (-code) as u64
        };
        String::from_str("wasm plugin process returned status -").concat(
            decimal(magnitude).as_str(),
        )
    } else {
        String::from_str("wasm plugin process returned status ").concat(
            decimal(code as u64).as_str(),
        )
    };
    Err(Error::Eval(message))
}

/// Locates the guest's manifest: `size` bytes at `ptr` must lie inside a
/// memory of `memory_len` bytes.
pub fn manifest_window(ptr: usize, size: usize, memory_len: usize) -> (res: Result<(), Error>)
    ensures
        res is Ok <==> ptr + size <= memory_len,
        res matches Err(e) ==> e is Eval && e->Eval_0@ == "manifest pointer is out of bounds"@,
{
    if size > memory_len || ptr > memory_len - size {
        return Err(Error::eval("manifest pointer is out of bounds"));
    }
    Ok(())
}

/// The parameters after restoring `entries` in order: each entry for a
/// declared parameter sets it; the others are skipped.
pub open spec fn restored_params<P>(params: Seq<P>, entries: Seq<(u32, P)>) -> Seq<P>
    decreases entries.len(),
{
    if entries.len() == 0 {
        params
    } else {
        let before = restored_params(params, entries.drop_last());
        let e = entries.last();
        if e.0 < params.len() {
            before.update(e.0 as int, e.1)
        } else {
            before
        }
    }
}

/// The entries of `entries` for declared parameters, in order.
pub open spec fn applied_entries<P>(declared: nat, entries: Seq<(u32, P)>) -> Seq<(u32, P)> {
    entries.filter(|e: (u32, P)| (e.0 as nat) < declared)
}

/// The refusals of the entries for undeclared parameters, joined by `; `.
pub open spec fn skipped_text<P>(declared: nat, entries: Seq<(u32, P)>) -> Seq<char>
    decreases entries.len(),
{
    if entries.len() == 0 {
        Seq::empty()
    } else {
        let before = skipped_text(declared, entries.drop_last());
        let e = entries.last();
        if (e.0 as nat) < declared {
            before
        } else if before.len() == 0 {
            absent_param_refusal(e.0)
        } else {
            before + "; "@ + absent_param_refusal(e.0)
        }
    }
}

/// The number of entries for undeclared parameters.
pub open spec fn skipped_count<P>(declared: nat, entries: Seq<(u32, P)>) -> nat {
    (entries.len() - applied_entries(declared, entries).len()) as nat
}

/// The report of a restore that skipped some entries.
pub open spec fn restore_report<P>(declared: nat, entries: Seq<(u32, P)>) -> Seq<char> {
    "wasm plugin state restore skipped "@ + decimal_text(skipped_count(declared, entries))
        + " parameter(s): "@ + skipped_text(declared, entries)
}

/// Each refusal is a non-empty text.
proof fn lemma_refusal_nonempty(id: u32)
    ensures
        absent_param_refusal(id).len() > 0,
{
    assert(("wasm plugin parameter "@).len() > 0) by {
        reveal_strlit("wasm plugin parameter ");
    }
}

/// The skipped text is empty exactly when nothing was skipped.
proof fn lemma_skipped_text_empty<P>(declared: nat, entries: Seq<(u32, P)>)
    ensures
        (skipped_text(declared, entries).len() == 0) <==> skipped_count(declared, entries) == 0,
        applied_entries(declared, entries).len() <= entries.len(),
    decreases entries.len(),
{
    if entries.len() > 0 {
        let init = entries.drop_last();
        lemma_skipped_text_empty(declared, init);
        assert(entries =~= init.push(entries.last()));
        init.lemma_filter_push(entries.last(), |e: (u32, P)| (e.0 as nat) < declared);
        if (entries.last().0 as nat) >= declared {
            lemma_refusal_nonempty(entries.last().0);
        }
    } else {
        assert(applied_entries(declared, entries) =~= Seq::<(u32, P)>::empty());
    }
}

impl<S: Copy, P: Copy> WasmHostAudio<S, P> {
    /// Restores saved parameter `entries` in order: entries for declared
    /// parameters are set and returned, in order, as the applied state; the
    /// others are skipped, and reported when there are any.
    pub fn restore_params(&mut self, entries: &[(u32, P)]) -> (res: (Vec<(u32, P)>, Option<String>))
        ensures
            final(self).spec_params() == restored_params(old(self).spec_params(), entries@),
            final(self).spec_frame_count() == old(self).spec_frame_count(),
            final(self).spec_audio_in() == old(self).spec_audio_in(),
            final(self).spec_audio_out() == old(self).spec_audio_out(),
            res.0@ == applied_entries(old(self).spec_params().len(), entries@),
            skipped_count(old(self).spec_params().len(), entries@) == 0 ==> res.1 is None,
            skipped_count(old(self).spec_params().len(), entries@) > 0 ==> (res.1 matches Some(m)
                && m@ == restore_report(old(self).spec_params().len(), entries@)),
    {
        let declared = self.params.len();
        let ghost n = declared as nat;
        let mut applied: Vec<(u32, P)> = Vec::new();
        let mut skipped = String::new();
        let mut skipped_n: usize = 0;
        let mut i: usize = 0;
        while i < entries.len()
            invariant
                i <= entries@.len(),
                declared == self.params@.len(),
                declared == old(self).params@.len(),
                n == declared,
                self.params@ == restored_params(old(self).params@, entries@.take(i as int)),
                self.frame_count == old(self).frame_count,
                self.audio_in == old(self).audio_in,
                self.audio_out == old(self).audio_out,
                applied@ == applied_entries(n, entries@.take(i as int)),
                skipped@ == skipped_text(n, entries@.take(i as int)),
                skipped_n == skipped_count(n, entries@.take(i as int)),
                skipped_n <= i,
            decreases entries@.len() - i,
        {
            let (id, value) = entries[i];
            let ghost prefix = entries@.take(i as int);
            let ghost next = entries@.take(i as int + 1);
            assert(next.drop_last() =~= prefix);
            assert(next =~= prefix.push((id, value)));
            proof {
                prefix.lemma_filter_push((id, value), |e: (u32, P)| (e.0 as nat) < n);
                lemma_skipped_text_empty(n, prefix);
            }
            if (id as usize) < declared {
                self.params.set(id as usize, value);
                applied.push((id, value));
            } else {
                let refusal = String::from_str("wasm plugin parameter ").concat(
                    decimal(id as u64).as_str(),
                ).concat(" is absent");
                if skipped_n == 0 {
                    skipped = refusal;
                } else {
                    skipped = skipped.concat("; ").concat(refusal.as_str());
                }
                skipped_n = skipped_n + 1;
            }
            i = i + 1;
        }
        assert(entries@.take(i as int) =~= entries@);
        if skipped_n == 0 {
            (applied, None)
        } else {
            let report = String::from_str("wasm plugin state restore skipped ").concat(
                decimal(skipped_n as u64).as_str(),
            ).concat(" parameter(s): ").concat(skipped.as_str());
            (applied, Some(report))
        }
    }
}

} // verus!
