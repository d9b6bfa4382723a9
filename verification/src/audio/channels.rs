//! Channel layout conversion for interleaved sample buffers.
//!
//! Samples are generic: duplicating a mono sample into both stereo slots is
//! exact for any sample type, while folding a stereo pair into one sample is
//! done by a mixing function that the caller supplies.

use vstd::prelude::*;

verus! {

/// Each sample of `mono` written twice in a row (left = right).
pub open spec fn duplicated<T>(mono: Seq<T>) -> Seq<T> {
    Seq::new(2 * mono.len(), |i: int| mono[i / 2])
}

/// `out` holds one mixed sample for each consecutive pair of `stereo`.
pub open spec fn is_downmix_of<T, F: Fn(T, T) -> T>(out: Seq<T>, stereo: Seq<T>, mix: F) -> bool {
    &&& 2 * out.len() == stereo.len()
    &&& forall|i: int|
        0 <= i < out.len() ==> call_ensures(mix, (stereo[2 * i], stereo[2 * i + 1]), #[trigger] out[i])
}

/// A mixing function that can be applied to any pair of samples.
pub open spec fn mix_total<T, F: Fn(T, T) -> T>(mix: F) -> bool {
    forall|a: T, b: T| call_requires(mix, (a, b))
}

/// Duplicates each mono sample into a left/right pair.
pub fn mono_to_stereo<T: Copy>(mono: &[T]) -> (stereo: Vec<T>)
    requires
        2 * mono@.len() <= usize::MAX,
    ensures
        stereo@ == duplicated(mono@),
{
    let mut out: Vec<T> = Vec::with_capacity(mono.len() * 2);
    let mut k: usize = 0;
    while k < mono.len()
        invariant
            k <= mono@.len(),
            out@.len() == 2 * k,
            forall|i: int| 0 <= i < 2 * k ==> out@[i] == mono@[i / 2],
        decreases mono@.len() - k,
    {
        let s = mono[k];
        out.push(s);
        out.push(s);
        k = k + 1;
    }
    assert(out@ =~= duplicated(mono@));
    out
}

/// Folds each left/right pair into one sample with `mix`.
pub fn stereo_to_mono<T: Copy, F: Fn(T, T) -> T>(stereo: &[T], mix: F) -> (mono: Vec<T>)
    requires
        stereo@.len() % 2 == 0,
        mix_total(mix),
    ensures
        is_downmix_of(mono@, stereo@, mix),
{
    let n = stereo.len() / 2;
    let mut out: Vec<T> = Vec::with_capacity(n);
    let mut k: usize = 0;
    while k < n
        invariant
            n * 2 == stereo@.len(),
            k <= n,
            out@.len() == k,
            mix_total(mix),
            forall|i: int|
                0 <= i < k ==> call_ensures(mix, (stereo@[2 * i], stereo@[2 * i + 1]), #[trigger] out@[i]),
        decreases n - k,
    {
        let m = mix(stereo[2 * k], stereo[2 * k + 1]);
        out.push(m);
        k = k + 1;
    }
    out
}

/// What [`expand_channels`] produces for a given layout change.
pub open spec fn expanded<T, F: Fn(T, T) -> T>(
    out: Seq<T>,
    input: Seq<T>,
    in_ch: u16,
    out_ch: u16,
    mix: F,
) -> bool {
    if in_ch == out_ch {
        out == input
    } else if in_ch == 1 && out_ch == 2 {
        out == duplicated(input)
    } else if in_ch == 2 && out_ch == 1 {
        is_downmix_of(out, input, mix)
    } else {
        out == input
    }
}

/// Converts interleaved samples from `in_ch` to `out_ch` channels: mono to
/// stereo duplicates, stereo to mono mixes each pair, and any other layout
/// change (or none) passes the samples through unchanged.
pub fn expand_channels<T: Copy, F: Fn(T, T) -> T>(input: &[T], in_ch: u16, out_ch: u16, mix: F) -> (out: Vec<T>)
    requires
        in_ch == 1 && out_ch == 2 ==> 2 * input@.len() <= usize::MAX,
        in_ch == 2 && out_ch == 1 ==> input@.len() % 2 == 0 && mix_total(mix),
    ensures
        expanded(out@, input@, in_ch, out_ch, mix),
{
    if in_ch == out_ch {
        return vstd::slice::slice_to_vec(input);
    }
    if in_ch == 1 && out_ch == 2 {
        mono_to_stereo(input)
    } else if in_ch == 2 && out_ch == 1 {
        stereo_to_mono(input, mix)
    } else {
        vstd::slice::slice_to_vec(input)
    }
}

/// Mixing a sample with itself gives that sample back.
pub open spec fn mix_is_idempotent<T, F: Fn(T, T) -> T>(mix: F) -> bool {
    forall|a: T, r: T| call_ensures(mix, (a, a), r) ==> r == a
}

/// Duplicating mono samples into stereo and folding them back with a mix that
/// returns `a` for the pair `(a, a)` gives the mono samples back.
pub proof fn lemma_stereo_round_trip<T, F: Fn(T, T) -> T>(mono: Seq<T>, back: Seq<T>, mix: F)
    requires
        mix_is_idempotent(mix),
        is_downmix_of(back, duplicated(mono), mix),
    ensures
        back == mono,
{
    let d = duplicated(mono);
    assert forall|i: int| 0 <= i < back.len() implies back[i] == mono[i] by {
        assert(d[2 * i] == mono[i]);
        assert(d[2 * i + 1] == mono[i]);
        assert(call_ensures(mix, (d[2 * i], d[2 * i + 1]), back[i]));
    }
    assert(back =~= mono);
}

} // verus!
