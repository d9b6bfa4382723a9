//! Linear-interpolation resampling of interleaved audio.
//!
//! Output frame `i` reads the input at position `i * in_rate / out_rate`: the
//! frame at the integer part of that position and the next one are blended by
//! the fractional part, given to the interpolation function as the numerator
//! and denominator `(i * in_rate) % out_rate` and `out_rate`. Positions past
//! the end of the input read `zero` for the first sample and repeat the first
//! sample for the second.

use vstd::prelude::*;

verus! {

/// Number of output frames for `in_frames` input frames.
pub open spec fn resampled_frames(in_frames: int, in_rate: int, out_rate: int) -> int {
    in_frames * out_rate / in_rate
}

/// The sample at `k`, or `fallback` when `k` is outside `s`.
pub open spec fn sample_or<T>(s: Seq<T>, k: int, fallback: T) -> T {
    if 0 <= k < s.len() {
        s[k]
    } else {
        fallback
    }
}

/// Input frame read by output frame `i`.
pub open spec fn source_frame(i: int, in_rate: int, out_rate: int) -> int {
    i * in_rate / out_rate
}

/// Numerator of the interpolation fraction of output frame `i` (the
/// denominator is `out_rate`).
pub open spec fn fraction_numerator(i: int, in_rate: int, out_rate: int) -> int {
    (i * in_rate) % out_rate
}

/// The first interpolation point of output sample `j`.
pub open spec fn left_sample<T>(input: Seq<T>, ch: int, in_rate: int, out_rate: int, zero: T, j: int) -> T {
    let idx = source_frame(j / ch, in_rate, out_rate);
    sample_or(input, idx * ch + j % ch, zero)
}

/// The second interpolation point of output sample `j`.
pub open spec fn right_sample<T>(input: Seq<T>, ch: int, in_rate: int, out_rate: int, zero: T, j: int) -> T {
    let idx = source_frame(j / ch, in_rate, out_rate);
    sample_or(input, (idx + 1) * ch + j % ch, left_sample(input, ch, in_rate, out_rate, zero, j))
}

/// `out` is the linear resampling of `input` from `in_rate` to `out_rate`.
pub open spec fn is_resampling_of<T, F: Fn(T, T, u32, u32) -> T>(
    out: Seq<T>,
    input: Seq<T>,
    channels: u16,
    in_rate: u32,
    out_rate: u32,
    zero: T,
    lerp: F,
) -> bool {
    if in_rate == out_rate {
        out == input
    } else {
        let ch = channels as int;
        &&& out.len() == resampled_frames(input.len() as int / ch, in_rate as int, out_rate as int) * ch
        &&& forall|j: int|
            0 <= j < out.len() ==> call_ensures(
                lerp,
                (
                    left_sample(input, ch, in_rate as int, out_rate as int, zero, j),
                    right_sample(input, ch, in_rate as int, out_rate as int, zero, j),
                    fraction_numerator(j / ch, in_rate as int, out_rate as int) as u32,
                    out_rate,
                ),
                #[trigger] out[j],
            )
    }
}

/// An interpolation function that accepts every argument.
pub open spec fn lerp_total<T, F: Fn(T, T, u32, u32) -> T>(lerp: F) -> bool {
    forall|a: T, b: T, num: u32, den: u32| call_requires(lerp, (a, b, num, den))
}

/// Resamples interleaved audio with `channels` channels from `in_rate` to
/// `out_rate`; equal rates return the input unchanged.
pub fn resample_linear<T: Copy, F: Fn(T, T, u32, u32) -> T>(
    input: &[T],
    channels: u16,
    in_rate: u32,
    out_rate: u32,
    zero: T,
    lerp: F,
) -> (out: Vec<T>)
    requires
        in_rate != out_rate ==> channels > 0 && in_rate > 0,
        in_rate != out_rate ==> resampled_frames(
            input@.len() as int / channels as int,
            in_rate as int,
            out_rate as int,
        ) * channels as int <= usize::MAX,
        lerp_total(lerp),
    ensures
        is_resampling_of(out@, input@, channels, in_rate, out_rate, zero, lerp),
{
    if in_rate == out_rate {
        return vstd::slice::slice_to_vec(input);
    }
    let ch = channels as usize;
    let in_frames = input.len() / ch;
    let ghost frames_spec = resampled_frames(in_frames as int, in_rate as int, out_rate as int);
    assert(in_frames as int * out_rate as int <= u128::MAX) by (nonlinear_arith)
        requires
            in_frames <= usize::MAX,
            out_rate <= u32::MAX,
    ;
    assert(frames_spec <= frames_spec * ch as int) by (nonlinear_arith)
        requires ch > 0, frames_spec >= 0;
    assert(frames_spec >= 0) by (nonlinear_arith)
        requires
            frames_spec == in_frames as int * out_rate as int / in_rate as int,
            in_rate > 0,
    ;
    let out_frames = ((in_frames as u128 * out_rate as u128) / in_rate as u128) as usize;
    assert(out_frames == frames_spec);
    assert(out_frames as int * ch as int <= usize::MAX);
    let total = out_frames * ch;
    let mut out: Vec<T> = Vec::with_capacity(total);
    let mut j: usize = 0;
    while j < total
        invariant
            ch == channels as int,
            ch > 0,
            in_rate > 0,
            in_rate != out_rate,
            total == frames_spec * ch,
            frames_spec == resampled_frames(input@.len() as int / ch as int, in_rate as int, out_rate as int),
            frames_spec <= usize::MAX,
            j <= total,
            out@.len() == j,
            lerp_total(lerp),
            forall|k: int|
                0 <= k < j ==> call_ensures(
                    lerp,
                    (
                        left_sample(input@, ch as int, in_rate as int, out_rate as int, zero, k),
                        right_sample(input@, ch as int, in_rate as int, out_rate as int, zero, k),
                        fraction_numerator(k / ch as int, in_rate as int, out_rate as int) as u32,
                        out_rate,
                    ),
                    #[trigger] out@[k],
                ),
        decreases total - j,
    {
        let i = j / ch;
        let c = j % ch;
        assert(out_rate > 0) by {
            if out_rate == 0 {
                assert(frames_spec == 0);
                assert(total == 0) by (nonlinear_arith)
                    requires total == frames_spec * ch, frames_spec == 0;
            }
        }
        assert(i as int * in_rate as int <= u128::MAX) by (nonlinear_arith)
            requires
                i <= usize::MAX,
                in_rate <= u32::MAX,
        ;
        let pos = i as u128 * in_rate as u128;
        assert(pos <= usize::MAX as int * u32::MAX as int) by (nonlinear_arith)
            requires
                pos == i as int * in_rate as int,
                i <= usize::MAX,
                in_rate <= u32::MAX,
        ;
        let idx = pos / out_rate as u128;
        let num = (pos % out_rate as u128) as u32;
        assert(idx <= pos) by (nonlinear_arith)
            requires idx == pos / out_rate as u128, out_rate > 0;
        assert(idx as int * ch as int + c as int <= (idx as int + 1) * ch as int + c as int
            <= u128::MAX) by (nonlinear_arith)
            requires
                idx <= pos,
                pos <= usize::MAX as int * u32::MAX as int,
                ch <= u16::MAX,
                c < ch,
        ;
        let k0 = idx * ch as u128 + c as u128;
        let k1 = (idx + 1) * ch as u128 + c as u128;
        let s0 = if k0 < input.len() as u128 {
            input[k0 as usize]
        } else {
            zero
        };
        let s1 = if k1 < input.len() as u128 {
            input[k1 as usize]
        } else {
            s0
        };
        let v = lerp(s0, s1, num, out_rate);
        out.push(v);
        j = j + 1;
    }
    out
}

/// Resampling between equal rates is the identity.
pub proof fn lemma_same_rate_is_identity<T, F: Fn(T, T, u32, u32) -> T>(
    out: Seq<T>,
    input: Seq<T>,
    channels: u16,
    rate: u32,
    zero: T,
    lerp: F,
)
    requires
        is_resampling_of(out, input, channels, rate, rate, zero, lerp),
    ensures
        out == input,
{
}

} // verus!
