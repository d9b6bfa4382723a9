//! Timing decisions of the capture and playout paths: the echo gate that
//! keeps the converter's own output from being recorded again, the capture
//! poll interval with its clock-drift correction, and the edge-fade length.

use vstd::prelude::*;

verus! {

/// Extra time the echo gate stays closed after converted audio has played out.
pub const ECHO_MARGIN_MS: u64 = 200;

/// Base capture poll interval.
pub const BASE_POLL_MS: i64 = 10;

/// Lowest poll-interval correction.
pub const MIN_POLL_ADJUST_MS: i64 = -5;

/// Highest poll-interval correction.
pub const MAX_POLL_ADJUST_MS: i64 = 10;

/// Length of the fade applied at each end of a converted chunk.
pub const EDGE_FADE_MS: u32 = 5;

/// Duration in milliseconds of `samples` interleaved samples (rounded down).
pub open spec fn playback_ms_spec(samples: int, rate: int, channels: int) -> int {
    (samples * 1000) / (rate * channels)
}

/// Duration in milliseconds of `samples` interleaved samples at `rate` frames
/// per second with `channels` channels, rounded down.
pub fn playback_ms(samples: usize, rate: u32, channels: u16) -> (ms: u64)
    requires
        rate > 0,
        channels > 0,
        samples * 1000 <= u64::MAX,
    ensures
        ms == playback_ms_spec(samples as int, rate as int, channels as int),
{
    assert(rate as int * channels as int > 0) by (nonlinear_arith)
        requires rate > 0, channels > 0;
    assert(rate as int * channels as int <= u64::MAX) by (nonlinear_arith)
        requires rate <= u32::MAX, channels <= u16::MAX;
    (samples as u64 * 1000) / (rate as u64 * channels as u64)
}

/// The moment (in ms since the engine started) until which captured audio is
/// ignored after a chunk of `samples` converted samples entered playout at
/// `now_ms`: the chunk's duration plus the echo margin.
pub fn echo_deadline(now_ms: u64, samples: usize, rate: u32, channels: u16) -> (deadline: u64)
    requires
        rate > 0,
        channels > 0,
        samples * 1000 <= u64::MAX,
        now_ms + playback_ms_spec(samples as int, rate as int, channels as int) + ECHO_MARGIN_MS
            <= u64::MAX,
    ensures
        deadline == now_ms + playback_ms_spec(samples as int, rate as int, channels as int)
            + ECHO_MARGIN_MS,
{
    let chunk_ms = playback_ms(samples, rate, channels);
    now_ms + chunk_ms + ECHO_MARGIN_MS
}

/// Whether captured audio is ignored at `now_ms`, which holds before `deadline`.
pub fn is_echo_gated(now_ms: u64, deadline: u64) -> (gated: bool)
    ensures
        gated == (now_ms < deadline),
{
    now_ms < deadline
}

/// How the captured sample count compares with wall-clock time over a window.
#[derive(Debug, Clone, Copy, PartialEq, Eq)]
pub enum ClockDrift {
    /// More audio was captured than wall time passed (by over 5 ms).
    CaptureAhead,
    /// Less audio was captured than wall time passed (by over 5 ms).
    CaptureBehind,
    /// Within 5 ms.
    InStep,
}

/// The poll-interval correction after one drift measurement.
pub open spec fn adjusted_poll_spec(adjust_ms: i64, drift: ClockDrift) -> int {
    match drift {
        ClockDrift::CaptureAhead => if adjust_ms - 1 < MIN_POLL_ADJUST_MS {
            MIN_POLL_ADJUST_MS as int
        } else {
            adjust_ms - 1
        },
        ClockDrift::CaptureBehind => if adjust_ms + 1 > MAX_POLL_ADJUST_MS {
            MAX_POLL_ADJUST_MS as int
        } else {
            adjust_ms + 1
        },
        ClockDrift::InStep => adjust_ms as int,
    }
}

/// Nudges the poll-interval correction by one millisecond against the drift,
/// within -5 ms and +10 ms: polling sooner when capture runs ahead, later
/// when it falls behind.
pub fn adjust_poll(adjust_ms: i64, drift: ClockDrift) -> (next: i64)
    requires
        i64::MIN < adjust_ms < i64::MAX,
    ensures
        next == adjusted_poll_spec(adjust_ms, drift),
        MIN_POLL_ADJUST_MS <= adjust_ms <= MAX_POLL_ADJUST_MS ==> MIN_POLL_ADJUST_MS <= next
            <= MAX_POLL_ADJUST_MS,
{
    match drift {
        ClockDrift::CaptureAhead => {
            let n = adjust_ms - 1;
            if n < MIN_POLL_ADJUST_MS {
                MIN_POLL_ADJUST_MS
            } else {
                n
            }
        },
        ClockDrift::CaptureBehind => {
            let n = adjust_ms + 1;
            if n > MAX_POLL_ADJUST_MS {
                MAX_POLL_ADJUST_MS
            } else {
                n
            }
        },
        ClockDrift::InStep => adjust_ms,
    }
}

/// Milliseconds to sleep before the next capture poll: the base interval plus
/// the correction, at least 1.
pub fn poll_interval_ms(adjust_ms: i64) -> (ms: u64)
    requires
        adjust_ms <= i64::MAX - BASE_POLL_MS,
    ensures
        ms >= 1,
        ms == (if BASE_POLL_MS + adjust_ms < 1 { 1 } else { BASE_POLL_MS + adjust_ms }),
        MIN_POLL_ADJUST_MS <= adjust_ms <= MAX_POLL_ADJUST_MS ==> 5 <= ms <= 20,
{
    let n = BASE_POLL_MS + adjust_ms;
    if n < 1 {
        1
    } else {
        n as u64
    }
}

/// The poll-interval correction after the drift measurements `drifts`, in
/// order, starting from no correction.
pub open spec fn adjust_after(drifts: Seq<ClockDrift>) -> int
    decreases drifts.len(),
{
    if drifts.len() == 0 {
        0
    } else {
        adjusted_poll_spec(adjust_after(drifts.drop_last()) as i64, drifts.last())
    }
}

/// The sleep before a capture poll under the correction `adjust_ms`.
pub open spec fn poll_ms_spec(adjust_ms: int) -> int {
    if BASE_POLL_MS + adjust_ms < 1 {
        1
    } else {
        BASE_POLL_MS + adjust_ms
    }
}

/// Over a whole capture session the correction stays within -5 ms and
/// +10 ms, so every poll sleeps between 5 and 20 ms, and each drift
/// measurement moves the correction by at most 1 ms.
pub proof fn lemma_poll_session(drifts: Seq<ClockDrift>)
    ensures
        MIN_POLL_ADJUST_MS <= adjust_after(drifts) <= MAX_POLL_ADJUST_MS,
        5 <= poll_ms_spec(adjust_after(drifts)) <= 20,
        drifts.len() > 0 ==> -1 <= adjust_after(drifts) - adjust_after(drifts.drop_last()) <= 1,
    decreases drifts.len(),
{
    if drifts.len() > 0 {
        lemma_poll_session(drifts.drop_last());
    }
}

/// The echo-gate deadline after one more converted chunk entered playout:
/// the later of the current deadline and the chunk's own.
pub fn extend_gate(current: u64, chunk_deadline: u64) -> (deadline: u64)
    ensures
        deadline == (if chunk_deadline > current { chunk_deadline } else { current }),
{
    if chunk_deadline > current {
        chunk_deadline
    } else {
        current
    }
}

/// The echo-gate deadline once each of `deadlines`, in order, has extended a
/// gate whose deadline was 0.
pub open spec fn gate_after(deadlines: Seq<u64>) -> u64
    decreases deadlines.len(),
{
    if deadlines.len() == 0 {
        0
    } else {
        let before = gate_after(deadlines.drop_last());
        if deadlines.last() > before {
            deadlines.last()
        } else {
            before
        }
    }
}

/// Captured audio is ignored at `now` exactly when some chunk that entered
/// playout still has its deadline ahead: the echo gate lets audio through only
/// after every one of those deadlines, in whatever order they came.
pub proof fn lemma_gate_closed_iff_some_deadline_ahead(deadlines: Seq<u64>, now: u64)
    ensures
        now < gate_after(deadlines) <==> exists|i: int|
            0 <= i < deadlines.len() && now < #[trigger] deadlines[i],
    decreases deadlines.len(),
{
    if deadlines.len() > 0 {
        let d = deadlines.drop_last();
        lemma_gate_closed_iff_some_deadline_ahead(d, now);
        if exists|i: int| 0 <= i < d.len() && now < #[trigger] d[i] {
            let i = choose|i: int| 0 <= i < d.len() && now < #[trigger] d[i];
            assert(deadlines[i] == d[i]);
        }
        if exists|i: int| 0 <= i < deadlines.len() && now < #[trigger] deadlines[i] {
            let i = choose|i: int| 0 <= i < deadlines.len() && now < #[trigger] deadlines[i];
            if i < d.len() {
                assert(d[i] == deadlines[i]);
            }
        }
    }
}

/// The echo-gate deadline is the latest chunk deadline: no chunk's deadline
/// lies after it, and unless no chunk entered playout it is one of them.
pub proof fn lemma_gate_is_latest_deadline(deadlines: Seq<u64>)
    ensures
        forall|i: int| 0 <= i < deadlines.len() ==> #[trigger] deadlines[i] <= gate_after(deadlines),
        deadlines.len() > 0 ==> exists|i: int|
            0 <= i < deadlines.len() && #[trigger] deadlines[i] == gate_after(deadlines),
    decreases deadlines.len(),
{
    if deadlines.len() > 0 {
        let d = deadlines.drop_last();
        lemma_gate_is_latest_deadline(d);
        assert forall|i: int| 0 <= i < deadlines.len() implies #[trigger] deadlines[i] <= gate_after(
            deadlines,
        ) by {
            if i < d.len() {
                assert(d[i] == deadlines[i]);
            }
        }
        if deadlines.last() > gate_after(d) || d.len() == 0 {
            assert(deadlines[deadlines.len() - 1] == gate_after(deadlines));
        } else {
            let i = choose|i: int| 0 <= i < d.len() && #[trigger] d[i] == gate_after(d);
            assert(deadlines[i] == d[i]);
        }
    }
}

/// Whether a drift measurement window is complete: at least one second of
/// audio has been captured since the last measurement.
pub fn drift_window_complete(captured_samples: usize, rate: u32) -> (complete: bool)
    ensures
        complete == (captured_samples >= rate),
{
    captured_samples >= rate as usize
}

/// Samples in each edge fade of a converted chunk at `rate`.
pub fn edge_fade_len(rate: u32) -> (n: usize)
    ensures
        n == (rate as int * EDGE_FADE_MS as int) / 1000,
{
    assert(EDGE_FADE_MS == 5);
    (rate as u64 * 5 / 1000) as usize
}

} // verus!
