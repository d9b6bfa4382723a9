//! Hysteresis of the energy-based voice-activity detector.
//!
//! Whether one frame is loud (its energy in dB is above the threshold) is
//! decided by the caller; this module keeps the counters that turn a stream of
//! loud/quiet frames into a stable speech / no-speech decision: speech starts
//! after `pre_roll` consecutive loud frames and ends after `post_roll`
//! consecutive quiet frames.

use vstd::prelude::*;

verus! {

/// The detector's counters as plain values.
pub struct VadCounters {
    pub pre_roll: usize,
    pub post_roll: usize,
    pub silence_counter: usize,
    pub speech_counter: usize,
    pub is_speech: bool,
}

impl VadCounters {
    /// The counters after one more frame.
    pub open spec fn next(self, loud: bool) -> VadCounters {
        if loud {
            let speech = (self.speech_counter + 1) as usize;
            VadCounters {
                pre_roll: self.pre_roll,
                post_roll: self.post_roll,
                silence_counter: 0,
                speech_counter: speech,
                is_speech: if speech >= self.pre_roll { true } else { self.is_speech },
            }
        } else {
            let silence = (self.silence_counter + 1) as usize;
            VadCounters {
                pre_roll: self.pre_roll,
                post_roll: self.post_roll,
                silence_counter: silence,
                speech_counter: 0,
                is_speech: if silence >= self.post_roll { false } else { self.is_speech },
            }
        }
    }

    /// One more frame does not overflow a counter.
    pub open spec fn can_take(self, loud: bool) -> bool {
        if loud {
            self.speech_counter < usize::MAX
        } else {
            self.silence_counter < usize::MAX
        }
    }

    /// The counters after a sequence of frames, first frame first.
    pub open spec fn run(self, frames: Seq<bool>) -> VadCounters
        decreases frames.len(),
    {
        if frames.len() == 0 {
            self
        } else {
            self.next(frames[0]).run(frames.drop_first())
        }
    }
}

/// Voice-activity hysteresis state.
pub struct VadState {
    pre_roll: usize,
    post_roll: usize,
    silence_counter: usize,
    speech_counter: usize,
    is_speech: bool,
}

impl View for VadState {
    type V = VadCounters;

    closed spec fn view(&self) -> VadCounters {
        VadCounters {
            pre_roll: self.pre_roll,
            post_roll: self.post_roll,
            silence_counter: self.silence_counter,
            speech_counter: self.speech_counter,
            is_speech: self.is_speech,
        }
    }
}

impl VadState {
    /// A detector that has seen no frame yet.
    pub fn new(pre_roll: usize, post_roll: usize) -> (v: VadState)
        ensures
            v@ == (VadCounters {
                pre_roll,
                post_roll,
                silence_counter: 0,
                speech_counter: 0,
                is_speech: false,
            }),
    {
        VadState { pre_roll, post_roll, silence_counter: 0, speech_counter: 0, is_speech: false }
    }

    /// Whether one more frame of the given kind can be counted.
    pub fn can_observe(&self, loud: bool) -> (ok: bool)
        ensures
            ok == self@.can_take(loud),
    {
        if loud {
            self.speech_counter < usize::MAX
        } else {
            self.silence_counter < usize::MAX
        }
    }

    /// Counts one frame and returns the speech decision after it.
    pub fn observe(&mut self, loud: bool) -> (speech: bool)
        requires
            old(self)@.can_take(loud),
        ensures
            final(self)@ == old(self)@.next(loud),
            speech == final(self)@.is_speech,
    {
        if loud {
            self.silence_counter = 0;
            self.speech_counter = self.speech_counter + 1;
            if self.speech_counter >= self.pre_roll {
                self.is_speech = true;
            }
        } else {
            self.speech_counter = 0;
            self.silence_counter = self.silence_counter + 1;
            if self.silence_counter >= self.post_roll {
                self.is_speech = false;
            }
        }
        self.is_speech
    }

    /// The current speech decision.
    pub fn is_speech(&self) -> (speech: bool)
        ensures
            speech == self@.is_speech,
    {
        self.is_speech
    }
}

/// Frames that are all loud.
pub open spec fn all_loud(frames: Seq<bool>) -> bool {
    forall|i: int| 0 <= i < frames.len() ==> #[trigger] frames[i]
}

/// Frames that are all quiet.
pub open spec fn all_quiet(frames: Seq<bool>) -> bool {
    forall|i: int| 0 <= i < frames.len() ==> !#[trigger] frames[i]
}

proof fn lemma_loud_run(v: VadCounters, frames: Seq<bool>)
    requires
        frames.len() >= 1,
        all_loud(frames),
        v.speech_counter + frames.len() <= usize::MAX,
    ensures
        v.run(frames).speech_counter == v.speech_counter + frames.len(),
        v.run(frames).silence_counter == 0,
        v.speech_counter + frames.len() >= v.pre_roll ==> v.run(frames).is_speech,
    decreases frames.len(),
{
    if frames.len() > 1 {
        let rest = frames.drop_first();
        assert(all_loud(rest)) by {
            assert forall|i: int| 0 <= i < rest.len() implies #[trigger] rest[i] by {
                assert(rest[i] == frames[i + 1]);
            }
        }
        assert(frames[0]);
        lemma_loud_run(v.next(frames[0]), rest);
    } else {
        assert(frames[0]);
        assert(frames.drop_first().len() == 0);
        assert(v.next(frames[0]).run(frames.drop_first()) == v.next(frames[0]));
    }
}

proof fn lemma_quiet_run(v: VadCounters, frames: Seq<bool>)
    requires
        frames.len() >= 1,
        all_quiet(frames),
        v.silence_counter + frames.len() <= usize::MAX,
    ensures
        v.run(frames).silence_counter == v.silence_counter + frames.len(),
        v.run(frames).speech_counter == 0,
        v.silence_counter + frames.len() >= v.post_roll ==> !v.run(frames).is_speech,
    decreases frames.len(),
{
    if frames.len() > 1 {
        let rest = frames.drop_first();
        assert(all_quiet(rest)) by {
            assert forall|i: int| 0 <= i < rest.len() implies !#[trigger] rest[i] by {
                assert(rest[i] == frames[i + 1]);
            }
        }
        assert(!frames[0]);
        lemma_quiet_run(v.next(frames[0]), rest);
    } else {
        assert(!frames[0]);
        assert(frames.drop_first().len() == 0);
        assert(v.next(frames[0]).run(frames.drop_first()) == v.next(frames[0]));
    }
}

/// Speech is reported once at least `pre_roll` consecutive loud frames (and at
/// least one) have been seen, whatever the state before them.
pub proof fn lemma_speech_after_pre_roll(v: VadCounters, frames: Seq<bool>)
    requires
        all_loud(frames),
        frames.len() >= 1,
        frames.len() >= v.pre_roll,
        v.speech_counter + frames.len() <= usize::MAX,
    ensures
        v.run(frames).is_speech,
{
    lemma_loud_run(v, frames);
}

/// Speech ends once at least `post_roll` consecutive quiet frames (and at
/// least one) have been seen, whatever the state before them.
pub proof fn lemma_silence_after_post_roll(v: VadCounters, frames: Seq<bool>)
    requires
        all_quiet(frames),
        frames.len() >= 1,
        frames.len() >= v.post_roll,
        v.silence_counter + frames.len() <= usize::MAX,
    ensures
        !v.run(frames).is_speech,
{
    lemma_quiet_run(v, frames);
}

/// A loud frame never ends speech and a quiet frame never starts it; the
/// roll lengths never change.
pub proof fn lemma_decision_is_monotone(v: VadCounters, loud: bool)
    ensures
        loud && v.is_speech ==> v.next(loud).is_speech,
        !loud && !v.is_speech ==> !v.next(loud).is_speech,
        v.next(loud).pre_roll == v.pre_roll,
        v.next(loud).post_roll == v.post_roll,
{
}

/// With a `pre_roll` of two or more, a single loud frame after a quiet one is
/// not yet reported as speech.
pub proof fn lemma_single_loud_frame_is_not_speech(v: VadCounters)
    requires
        !v.is_speech,
        v.speech_counter == 0,
        v.pre_roll >= 2,
    ensures
        !v.next(true).is_speech,
{
}

/// Length of the run of loud frames at the end of `frames`.
pub open spec fn loud_tail(frames: Seq<bool>) -> nat
    decreases frames.len(),
{
    if frames.len() == 0 {
        0
    } else if frames.last() {
        loud_tail(frames.drop_last()) + 1
    } else {
        0
    }
}

/// Length of the run of quiet frames at the end of `frames`.
pub open spec fn quiet_tail(frames: Seq<bool>) -> nat
    decreases frames.len(),
{
    if frames.len() == 0 {
        0
    } else if !frames.last() {
        quiet_tail(frames.drop_last()) + 1
    } else {
        0
    }
}

/// Frame `j` is loud and ends a run of at least `pre_roll` loud frames.
pub open spec fn turns_on(frames: Seq<bool>, j: int, pre_roll: usize) -> bool {
    frames[j] && loud_tail(frames.take(j + 1)) >= pre_roll
}

/// Frame `m` is quiet and ends a run of at least `post_roll` quiet frames.
pub open spec fn turns_off(frames: Seq<bool>, m: int, post_roll: usize) -> bool {
    !frames[m] && quiet_tail(frames.take(m + 1)) >= post_roll
}

/// Frame `j` turned speech on and no frame after it, before frame `k`,
/// turned it off.
pub open spec fn on_since(frames: Seq<bool>, j: int, k: int, pre_roll: usize, post_roll: usize) -> bool {
    &&& turns_on(frames, j, pre_roll)
    &&& forall|m: int| j < m < k ==> !#[trigger] turns_off(frames, m, post_roll)
}

/// After the first `k` frames, speech was turned on at some frame and not
/// turned off since.
pub open spec fn speech_by(frames: Seq<bool>, k: int, pre_roll: usize, post_roll: usize) -> bool {
    exists|j: int| 0 <= j < k && #[trigger] on_since(frames, j, k, pre_roll, post_roll)
}

/// A detector that has seen no frame.
pub open spec fn fresh(pre_roll: usize, post_roll: usize) -> VadCounters {
    VadCounters { pre_roll, post_roll, silence_counter: 0, speech_counter: 0, is_speech: false }
}

proof fn lemma_run_push(v: VadCounters, s: Seq<bool>, x: bool)
    ensures
        v.run(s.push(x)) == v.run(s).next(x),
    decreases s.len(),
{
    if s.len() == 0 {
        assert(s.push(x).drop_first() =~= Seq::<bool>::empty());
        assert(s.push(x)[0] == x);
        assert(v.next(x).run(Seq::<bool>::empty()) == v.next(x));
    } else {
        assert(s.push(x).drop_first() =~= s.drop_first().push(x));
        assert(s.push(x)[0] == s[0]);
        lemma_run_push(v.next(s[0]), s.drop_first(), x);
    }
}

proof fn lemma_prefix(pre_roll: usize, post_roll: usize, frames: Seq<bool>, k: int)
    requires
        0 <= k <= frames.len(),
        frames.len() < usize::MAX,
    ensures
        ({
            let st = fresh(pre_roll, post_roll).run(frames.take(k));
            &&& st.pre_roll == pre_roll
            &&& st.post_roll == post_roll
            &&& st.speech_counter == loud_tail(frames.take(k))
            &&& st.silence_counter == quiet_tail(frames.take(k))
            &&& loud_tail(frames.take(k)) <= k
            &&& quiet_tail(frames.take(k)) <= k
            &&& st.is_speech == speech_by(frames, k, pre_roll, post_roll)
        }),
    decreases k,
{
    let v = fresh(pre_roll, post_roll);
    if k == 0 {
        assert(frames.take(0) =~= Seq::<bool>::empty());
        assert(v.run(Seq::<bool>::empty()) == v);
        assert(!speech_by(frames, 0, pre_roll, post_roll));
    } else {
        lemma_prefix(pre_roll, post_roll, frames, k - 1);
        let prev = frames.take(k - 1);
        let x = frames[k - 1];
        assert(frames.take(k) =~= prev.push(x));
        assert(frames.take(k).drop_last() =~= prev);
        lemma_run_push(v, prev, x);
        let st0 = v.run(prev);
        let st = v.run(frames.take(k));
        assert(st == st0.next(x));
        let j0 = k - 1;
        assert(frames.take(j0 + 1) =~= frames.take(k));
        if x {
            if loud_tail(frames.take(k)) >= pre_roll {
                assert(turns_on(frames, j0, pre_roll));
                assert(on_since(frames, j0, k, pre_roll, post_roll));
            } else {
                assert(!turns_on(frames, j0, pre_roll));
                assert(!turns_off(frames, j0, post_roll));
                if speech_by(frames, k - 1, pre_roll, post_roll) {
                    let j = choose|j: int|
                        0 <= j < k - 1 && #[trigger] on_since(frames, j, k - 1, pre_roll, post_roll);
                    assert(on_since(frames, j, k, pre_roll, post_roll));
                }
                if speech_by(frames, k, pre_roll, post_roll) {
                    let j = choose|j: int|
                        0 <= j < k && #[trigger] on_since(frames, j, k, pre_roll, post_roll);
                    assert(j != j0);
                    assert(on_since(frames, j, k - 1, pre_roll, post_roll));
                }
            }
        } else {
            if quiet_tail(frames.take(k)) >= post_roll {
                assert(turns_off(frames, j0, post_roll));
                if speech_by(frames, k, pre_roll, post_roll) {
                    let j = choose|j: int|
                        0 <= j < k && #[trigger] on_since(frames, j, k, pre_roll, post_roll);
                    if j < j0 {
                        assert(!turns_off(frames, j0, post_roll));
                    }
                    assert(!turns_on(frames, j0, pre_roll));
                }
            } else {
                assert(!turns_off(frames, j0, post_roll));
                assert(!turns_on(frames, j0, pre_roll));
                if speech_by(frames, k - 1, pre_roll, post_roll) {
                    let j = choose|j: int|
                        0 <= j < k - 1 && #[trigger] on_since(frames, j, k - 1, pre_roll, post_roll);
                    assert(on_since(frames, j, k, pre_roll, post_roll));
                }
                if speech_by(frames, k, pre_roll, post_roll) {
                    let j = choose|j: int|
                        0 <= j < k && #[trigger] on_since(frames, j, k, pre_roll, post_roll);
                    assert(j != j0);
                    assert(on_since(frames, j, k - 1, pre_roll, post_roll));
                }
            }
        }
    }
}

/// The detector's decision after a run of frames, from a fresh start: speech
/// is reported exactly when some frame ended a run of at least `pre_roll`
/// loud frames and no later frame ended a run of at least `post_roll` quiet
/// frames; otherwise the decision keeps its last value (initially no speech).
pub proof fn lemma_speech_decision(pre_roll: usize, post_roll: usize, frames: Seq<bool>)
    requires
        frames.len() < usize::MAX,
    ensures
        fresh(pre_roll, post_roll).run(frames).is_speech == speech_by(
            frames,
            frames.len() as int,
            pre_roll,
            post_roll,
        ),
{
    lemma_prefix(pre_roll, post_roll, frames, frames.len() as int);
    assert(frames.take(frames.len() as int) =~= frames);
}

} // verus!
