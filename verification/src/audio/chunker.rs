//! Utterance chunking of captured mono audio.
//!
//! Captured samples are cut into fixed-length VAD frames; frames are collected
//! into a chunk that is handed to the voice converter as one request when the
//! chunk reaches the accumulate window (continuous speech) or when speech has
//! just stopped and the chunk is long enough to be worth converting. A chunk
//! that never contained speech is dropped instead of dispatched.

use vstd::prelude::*;
use crate::audio::vad::{VadCounters, VadState};

verus! {

/// Length of one VAD frame in milliseconds.
pub const FRAME_MS: u32 = 100;

/// Longest chunk collected during continuous speech, in milliseconds.
pub const ACCUMULATE_MS: u32 = 1500;

/// Shortest chunk dispatched when speech stops, in milliseconds.
pub const MIN_FLUSH_MS: u32 = 200;

/// Loud frames needed before speech is reported.
pub const VAD_PRE_ROLL: usize = 2;

/// Quiet frames needed before speech ends.
pub const VAD_POST_ROLL: usize = 6;

/// Number of samples in `ms` milliseconds at `rate` samples per second.
pub open spec fn samples_for_ms(rate: u32, ms: u32) -> int {
    (rate as int * ms as int) / 1000
}

/// At a capture rate that is a multiple of 10 Hz a frame is a tenth of the
/// rate, the shortest chunk that is dispatched when speech stops is a fifth
/// of it (200 ms), the accumulate window is one and a half times it (1.5 s),
/// and the window is a whole number of frames. With `push_frame`'s contract
/// this bounds every chunk a chunker made by `new` ever dispatches.
pub proof fn lemma_chunk_limits_in_time(rate: u32)
    requires
        rate % 10 == 0,
        rate >= 10,
    ensures
        samples_for_ms(rate, FRAME_MS) == rate / 10,
        samples_for_ms(rate, FRAME_MS) > 0,
        samples_for_ms(rate, MIN_FLUSH_MS) == rate / 5,
        samples_for_ms(rate, ACCUMULATE_MS) == rate * 3 / 2,
        samples_for_ms(rate, ACCUMULATE_MS) == 15 * samples_for_ms(rate, FRAME_MS),
        samples_for_ms(rate, ACCUMULATE_MS) % samples_for_ms(rate, FRAME_MS) == 0,
{
    let r = rate as int;
    let f = r / 10;
    assert(r == 10 * f);
    assert(r * 100 / 1000 == f);
    assert(r * 200 / 1000 == 2 * f);
    assert(r * 1500 / 1000 == 15 * f);
    assert(r / 5 == 2 * f);
    assert(r * 3 / 2 == 15 * f);
    assert((15 * f) % f == 0) by (nonlinear_arith)
        requires f > 0;
}

/// What happened to the chunk after one frame was added.
pub enum ChunkDecision<T> {
    /// The chunk keeps growing.
    Pending,
    /// The chunk contained speech and is handed to the converter.
    Dispatch(Vec<T>),
    /// The chunk was closed without any speech in it and is discarded.
    DropSilent,
}

/// What the capture path does with one batch of captured mono samples.
pub enum CaptureStep<T> {
    /// Conversion is off: the batch goes straight to the output.
    Bypass,
    /// The converter's output is still playing: the batch is ignored.
    Gated,
    /// A whole frame is ready; the caller judges it loud or quiet and hands
    /// it to `push_frame`.
    Frame(Vec<T>),
    /// The batch was kept; no whole frame yet.
    Waiting,
}

/// Framing, VAD and chunking state of the capture path.
pub struct SpeechChunker<T> {
    frame_len: usize,
    accumulate_samples: usize,
    min_flush_samples: usize,
    frame_buf: Vec<T>,
    chunk_buf: Vec<T>,
    chunk_has_speech: bool,
    vad: VadState,
}

impl<T> SpeechChunker<T> {
    /// The open chunk is empty or shorter than the accumulate window, it is a
    /// whole number of frames, and the minimum chunk is within the window.
    #[verifier::type_invariant]
    spec fn chunk_within_window(self) -> bool {
        &&& (self.chunk_buf@.len() == 0 || self.chunk_buf@.len() < self.accumulate_samples)
        &&& (self.frame_len > 0 ==> self.chunk_buf@.len() % (self.frame_len as nat) == 0)
        &&& self.min_flush_samples <= self.accumulate_samples
    }
}

impl<T: Copy> SpeechChunker<T> {
    /// Samples per VAD frame.
    pub closed spec fn frame_len(&self) -> nat {
        self.frame_len as nat
    }

    /// Chunk length at which a chunk is closed during continuous speech.
    pub closed spec fn accumulate_samples(&self) -> nat {
        self.accumulate_samples as nat
    }

    /// Shortest chunk closed when speech stops.
    pub closed spec fn min_flush_samples(&self) -> nat {
        self.min_flush_samples as nat
    }

    /// Captured samples not yet cut into a frame.
    pub closed spec fn pending_samples(&self) -> Seq<T> {
        self.frame_buf@
    }

    /// Frames collected into the open chunk.
    pub closed spec fn chunk(&self) -> Seq<T> {
        self.chunk_buf@
    }

    /// Whether a frame of the open chunk was judged speech.
    pub closed spec fn chunk_has_speech(&self) -> bool {
        self.chunk_has_speech
    }

    /// The voice-activity counters.
    pub closed spec fn vad(&self) -> VadCounters {
        self.vad@
    }

    /// The open chunk is empty or shorter than the accumulate window, it is a
    /// whole number of frames, and the minimum chunk is within the window.
    pub open spec fn wf(&self) -> bool {
        &&& (self.chunk().len() == 0 || self.chunk().len() < self.accumulate_samples())
        &&& (self.frame_len() > 0 ==> self.chunk().len() % self.frame_len() == 0)
        &&& self.min_flush_samples() <= self.accumulate_samples()
    }

    /// The parameters are those of `other`.
    pub open spec fn same_params(&self, other: &Self) -> bool {
        &&& self.frame_len() == other.frame_len()
        &&& self.accumulate_samples() == other.accumulate_samples()
        &&& self.min_flush_samples() == other.min_flush_samples()
    }

    /// Chunker for audio captured at `capture_rate` samples per second, with
    /// 100 ms frames, a 1.5 s accumulate window, a 200 ms minimum chunk, and a
    /// detector that needs 2 loud frames to start and 6 quiet frames to stop.
    pub fn new(capture_rate: u32) -> (c: Self)
        requires
            capture_rate as int * ACCUMULATE_MS as int <= usize::MAX,
        ensures
            c.frame_len() == samples_for_ms(capture_rate, FRAME_MS),
            c.accumulate_samples() == samples_for_ms(capture_rate, ACCUMULATE_MS),
            c.min_flush_samples() == samples_for_ms(capture_rate, MIN_FLUSH_MS),
            c.pending_samples().len() == 0,
            c.chunk().len() == 0,
            !c.chunk_has_speech(),
            c.vad() == (VadCounters {
                pre_roll: VAD_PRE_ROLL,
                post_roll: VAD_POST_ROLL,
                silence_counter: 0,
                speech_counter: 0,
                is_speech: false,
            }),
            c.wf(),
            capture_rate % 10 == 0 ==> c.accumulate_samples() == 15 * c.frame_len()
                && c.min_flush_samples() == 2 * c.frame_len(),
    {
        let rate = capture_rate as usize;
        assert(rate * 200 / 1000 <= rate * 1500 / 1000) by (nonlinear_arith)
            requires rate >= 0;
        assert(capture_rate % 10 == 0 ==> rate * 1500 / 1000 == 15 * (rate * 100 / 1000)
            && rate * 200 / 1000 == 2 * (rate * 100 / 1000)) by (nonlinear_arith)
            requires rate == capture_rate as usize;
        assert(rate * 100 <= rate * 1500 && rate * 200 <= rate * 1500) by (nonlinear_arith);
        SpeechChunker {
            frame_len: rate * (FRAME_MS as usize) / 1000,
            accumulate_samples: rate * (ACCUMULATE_MS as usize) / 1000,
            min_flush_samples: rate * (MIN_FLUSH_MS as usize) / 1000,
            frame_buf: Vec::new(),
            chunk_buf: Vec::new(),
            chunk_has_speech: false,
            vad: VadState::new(VAD_PRE_ROLL, VAD_POST_ROLL),
        }
    }

    /// Processing is off: everything collected so far is discarded (the
    /// detector's counters are kept).
    pub fn bypass(&mut self)
        ensures
            final(self).same_params(old(self)),
            final(self).pending_samples().len() == 0,
            final(self).chunk().len() == 0,
            !final(self).chunk_has_speech(),
            final(self).vad() == old(self).vad(),
            old(self).wf(),
            final(self).wf(),
    {
        proof {
            use_type_invariant(&*self);
        }
        self.chunk_buf = Vec::new();
        self.frame_buf = Vec::new();
        self.chunk_has_speech = false;
    }

    /// The converter's own output is still playing: captured samples that
    /// were not yet framed are discarded so they are not recorded again.
    pub fn gate(&mut self)
        ensures
            final(self).same_params(old(self)),
            final(self).pending_samples().len() == 0,
            final(self).chunk() == old(self).chunk(),
            final(self).chunk_has_speech() == old(self).chunk_has_speech(),
            final(self).vad() == old(self).vad(),
            old(self).wf(),
            final(self).wf(),
    {
        proof {
            use_type_invariant(&*self);
        }
        self.frame_buf = Vec::new();
    }

    /// Appends captured mono samples and, once a whole frame is available,
    /// cuts off and returns the oldest frame.
    pub fn push_samples(&mut self, mono: &[T]) -> (frame: Option<Vec<T>>)
        ensures
            final(self).same_params(old(self)),
            final(self).chunk() == old(self).chunk(),
            final(self).chunk_has_speech() == old(self).chunk_has_speech(),
            final(self).vad() == old(self).vad(),
            old(self).wf(),
            final(self).wf(),
            ({
                let all = old(self).pending_samples() + mono@;
                if all.len() >= old(self).frame_len() {
                    &&& frame matches Some(f)
                    &&& f@ == all.subrange(0, old(self).frame_len() as int)
                    &&& final(self).pending_samples() == all.subrange(
                        old(self).frame_len() as int,
                        all.len() as int,
                    )
                } else {
                    &&& frame is None
                    &&& final(self).pending_samples() == all
                }
            }),
    {
        proof {
            use_type_invariant(&*self);
        }
        let mut buf: Vec<T> = Vec::new();
        core::mem::swap(&mut buf, &mut self.frame_buf);
        let mut incoming = vstd::slice::slice_to_vec(mono);
        buf.append(&mut incoming);
        if buf.len() >= self.frame_len {
            let rest = buf.split_off(self.frame_len);
            self.frame_buf = rest;
            Some(buf)
        } else {
            self.frame_buf = buf;
            None
        }
    }

    /// Handles one batch of captured mono samples: with conversion off the
    /// state is cleared as in `bypass`; while the echo gate is closed the
    /// unframed samples are dropped as in `gate`; otherwise the batch is
    /// framed as in `push_samples`.
    pub fn capture(&mut self, mono: &[T], processing: bool, gated: bool) -> (step: CaptureStep<T>)
        ensures
            final(self).same_params(old(self)),
            final(self).vad() == old(self).vad(),
            old(self).wf(),
            final(self).wf(),
            !processing ==> {
                &&& step is Bypass
                &&& final(self).pending_samples().len() == 0
                &&& final(self).chunk().len() == 0
                &&& !final(self).chunk_has_speech()
            },
            processing && gated ==> {
                &&& step is Gated
                &&& final(self).pending_samples().len() == 0
                &&& final(self).chunk() == old(self).chunk()
                &&& final(self).chunk_has_speech() == old(self).chunk_has_speech()
            },
            processing && !gated ==> {
                let all = old(self).pending_samples() + mono@;
                &&& final(self).chunk() == old(self).chunk()
                &&& final(self).chunk_has_speech() == old(self).chunk_has_speech()
                &&& if all.len() >= old(self).frame_len() {
                    &&& step matches CaptureStep::Frame(f)
                    &&& f@ == all.subrange(0, old(self).frame_len() as int)
                    &&& final(self).pending_samples() == all.subrange(
                        old(self).frame_len() as int,
                        all.len() as int,
                    )
                } else {
                    &&& step is Waiting
                    &&& final(self).pending_samples() == all
                }
            },
    {
        proof {
            use_type_invariant(&*self);
        }
        if !processing {
            self.bypass();
            CaptureStep::Bypass
        } else if gated {
            self.gate();
            CaptureStep::Gated
        } else {
            match self.push_samples(mono) {
                Some(frame) => CaptureStep::Frame(frame),
                None => CaptureStep::Waiting,
            }
        }
    }

    /// Whether the detector can count one more frame of the given kind.
    pub fn can_take_frame(&self, loud: bool) -> (ok: bool)
        ensures
            ok == self.vad().can_take(loud),
    {
        self.vad.can_observe(loud)
    }

    /// Adds one frame, judged loud or quiet by the caller, to the open chunk
    /// and decides whether the chunk is closed: when it reaches the accumulate
    /// window, or when speech has just stopped and the chunk is at least the
    /// minimum length. A closed chunk is dispatched if any of its frames was
    /// speech and dropped otherwise.
    pub fn push_frame(&mut self, frame: Vec<T>, loud: bool) -> (decision: ChunkDecision<T>)
        requires
            old(self).vad().can_take(loud),
            frame@.len() == old(self).frame_len(),
        ensures
            final(self).same_params(old(self)),
            final(self).pending_samples() == old(self).pending_samples(),
            final(self).vad() == old(self).vad().next(loud),
            old(self).wf(),
            final(self).wf(),
            decision matches ChunkDecision::Dispatch(c) ==> c@.len() >= old(self).min_flush_samples(),
            decision matches ChunkDecision::Dispatch(c) ==> c@.len() <= old(self).accumulate_samples()
                + frame@.len(),
            decision matches ChunkDecision::Dispatch(c) ==> (old(self).frame_len() > 0
                && old(self).accumulate_samples() > 0 && old(self).accumulate_samples() % old(
                self,
            ).frame_len() == 0 ==> c@.len() <= old(self).accumulate_samples() && c@.len() % old(
                self,
            ).frame_len() == 0),
            ({
                let speech = old(self).vad().next(loud).is_speech;
                let has_speech = old(self).chunk_has_speech() || speech;
                let grown = old(self).chunk() + frame@;
                let closes = grown.len() >= old(self).accumulate_samples() || (has_speech && !speech
                    && grown.len() >= old(self).min_flush_samples());
                if closes {
                    &&& final(self).chunk().len() == 0
                    &&& !final(self).chunk_has_speech()
                    &&& if has_speech {
                        decision matches ChunkDecision::Dispatch(c) && c@ == grown
                    } else {
                        decision is DropSilent
                    }
                } else {
                    &&& decision is Pending
                    &&& final(self).chunk() == grown
                    &&& final(self).chunk_has_speech() == has_speech
                }
            }),
    {
        proof {
            use_type_invariant(&*self);
        }
        let mut frame = frame;
        let mut vad = VadState::new(VAD_PRE_ROLL, VAD_POST_ROLL);
        core::mem::swap(&mut vad, &mut self.vad);
        let speech = vad.observe(loud);
        self.vad = vad;
        if speech {
            self.chunk_has_speech = true;
        }
        let mut grown: Vec<T> = Vec::new();
        core::mem::swap(&mut grown, &mut self.chunk_buf);
        let ghost before: int = grown@.len() as int;
        grown.append(&mut frame);
        proof {
            let f = self.frame_len as int;
            let a = self.accumulate_samples as int;
            if f > 0 && before % f == 0 {
                assert((before + f) % f == 0) by (nonlinear_arith)
                    requires f > 0, before % f == 0;
            }
            if f > 0 && a > 0 && a % f == 0 && before % f == 0 && (before == 0 || before < a) {
                assert(before + f <= a) by (nonlinear_arith)
                    requires f > 0, a > 0, a % f == 0, before % f == 0, before == 0 || before < a, before >= 0;
            }
        }
        let speech_stopped = self.chunk_has_speech && !speech && grown.len()
            >= self.min_flush_samples;
        if grown.len() >= self.accumulate_samples || speech_stopped {
            let had_speech = self.chunk_has_speech;
            self.chunk_has_speech = false;
            if had_speech {
                ChunkDecision::Dispatch(grown)
            } else {
                ChunkDecision::DropSilent
            }
        } else {
            self.chunk_buf = grown;
            ChunkDecision::Pending
        }
    }
}

} // verus!
