//! MP3 responses: the frames minimp3 decodes, folded into one mono sample per
//! group of interleaved channel samples. How a group's sum becomes a sample
//! (scaling to the caller's sample type) is given by the caller.

use vstd::prelude::*;

verus! {

/// One decoded MP3 frame.
pub struct Mp3Frame {
    /// Interleaved samples.
    pub data: Vec<i16>,
    /// Number of channels.
    pub channels: usize,
    /// Sample rate in hertz.
    pub sample_rate: i32,
}

/// A frame as plain values: samples, channels, sample rate.
pub open spec fn frame_view(f: Mp3Frame) -> (Seq<i16>, usize, i32) {
    (f.data@, f.channels, f.sample_rate)
}

/// Decoded frames as plain values.
pub open spec fn frames_view(f: Option<Vec<Mp3Frame>>) -> Option<Seq<(Seq<i16>, usize, i32)>> {
    match f {
        Some(v) => Some(v@.map_values(|x: Mp3Frame| frame_view(x))),
        None => None,
    }
}

/// The frames that minimp3 decodes from `data`, first to last, or `None`
/// when decoding stops on an error other than the end of the data.
pub uninterp spec fn mp3_frames(data: Seq<u8>) -> Option<Seq<(Seq<i16>, usize, i32)>>;

/// Runs `minimp3::Decoder::next_frame` over `data` (read from memory) until
/// it reports the end of the data; the result is `mp3_frames` of `data`.
/// Any other decoder error gives `None`.
#[verifier::external_body]
fn decode_mp3_frames(data: &[u8]) -> (f: Option<Vec<Mp3Frame>>)
    ensures
        frames_view(f) == mp3_frames(data@),
{
    let mut decoder = minimp3::Decoder::new(std::io::Cursor::new(data.to_vec()));
    let mut frames = Vec::new();
    loop {
        match decoder.next_frame() {
            Ok(f) => frames.push(Mp3Frame { data: f.data, channels: f.channels, sample_rate: f.sample_rate }),
            Err(minimp3::Error::Eof) => return Some(frames),
            Err(_) => return None,
        }
    }
}

/// Consecutive groups of `ch` samples; the last group may be shorter.
pub open spec fn sample_groups(d: Seq<i16>, ch: nat) -> Seq<Seq<i16>>
    decreases d.len(),
{
    if d.len() == 0 || ch == 0 {
        Seq::empty()
    } else if d.len() <= ch {
        seq![d]
    } else {
        seq![d.take(ch as int)] + sample_groups(d.skip(ch as int), ch)
    }
}

/// Groups paired with the channel count of their frame.
pub open spec fn tagged(gs: Seq<Seq<i16>>, ch: usize) -> Seq<(Seq<i16>, usize)> {
    gs.map_values(|g: Seq<i16>| (g, ch))
}

/// The channel groups of all frames, in order.
pub open spec fn all_groups(frames: Seq<(Seq<i16>, usize, i32)>) -> Seq<(Seq<i16>, usize)>
    decreases frames.len(),
{
    if frames.len() == 0 {
        Seq::empty()
    } else {
        all_groups(frames.drop_last()) + tagged(
            sample_groups(frames.last().0, frames.last().1 as nat),
            frames.last().1,
        )
    }
}

/// Sum of samples.
pub open spec fn sample_sum(s: Seq<i16>) -> int
    decreases s.len(),
{
    if s.len() == 0 {
        0
    } else {
        sample_sum(s.drop_last()) + s.last()
    }
}

/// A fold that accepts every group sum and channel count.
pub open spec fn fold_total<T, F: Fn(i128, usize) -> T>(fold: F) -> bool {
    forall|sum: i128, ch: usize| call_requires(fold, (sum, ch))
}

/// Default rate of an MP3 response without frames.
pub const MP3_DEFAULT_RATE: u32 = 44100;

/// `out` is the mono audio of `frames`: one folded value per channel group
/// (from the group's sum and its frame's channel count), in order, and the
/// rate of the last frame (44.1 kHz without frames).
pub open spec fn is_mono_of<T, F: Fn(i128, usize) -> T>(
    out: (Vec<T>, u32),
    frames: Seq<(Seq<i16>, usize, i32)>,
    fold: F,
) -> bool {
    let gs = all_groups(frames);
    &&& out.0@.len() == gs.len()
    &&& forall|i: int|
        0 <= i < gs.len() ==> call_ensures(fold, (sample_sum(gs[i].0) as i128, gs[i].1), #[trigger] out.0@[i])
    &&& out.1 == (if frames.len() == 0 {
        MP3_DEFAULT_RATE
    } else {
        frames.last().2 as u32
    })
}

proof fn lemma_groups_step(d: Seq<i16>, ch: nat, j: int, end: int)
    requires
        ch > 0,
        0 <= j < d.len(),
        end == (if d.len() - j <= ch { d.len() as int } else { j + ch }),
    ensures
        sample_groups(d.skip(j), ch) == seq![d.subrange(j, end)] + sample_groups(d.skip(end), ch),
{
    let s = d.skip(j);
    if s.len() <= ch {
        assert(s =~= d.subrange(j, end));
        assert(d.skip(end).len() == 0);
        assert(sample_groups(d.skip(end), ch) =~= Seq::<Seq<i16>>::empty());
        assert(seq![s] + Seq::<Seq<i16>>::empty() =~= seq![s]);
    } else {
        assert(s.take(ch as int) =~= d.subrange(j, end));
        assert(s.skip(ch as int) =~= d.skip(end));
    }
}

/// Folds decoded frames into mono audio and picks the output rate.
pub fn mono_from_frames<T, F: Fn(i128, usize) -> T>(frames: &Vec<Mp3Frame>, fold: F) -> (out: (Vec<T>, u32))
    requires
        forall|i: int| 0 <= i < frames@.len() ==> (#[trigger] frames@[i]).channels > 0,
        fold_total(fold),
    ensures
        is_mono_of(out, frames@.map_values(|x: Mp3Frame| frame_view(x)), fold),
{
    let ghost fv = frames@.map_values(|x: Mp3Frame| frame_view(x));
    let mut out: Vec<T> = Vec::new();
    let ghost mut done: Seq<(Seq<i16>, usize)> = Seq::empty();
    let mut rate: u32 = MP3_DEFAULT_RATE;
    let mut fi: usize = 0;
    assert(fv.take(0) =~= Seq::<(Seq<i16>, usize, i32)>::empty());
    while fi < frames.len()
        invariant
            fv == frames@.map_values(|x: Mp3Frame| frame_view(x)),
            forall|i: int| 0 <= i < frames@.len() ==> (#[trigger] frames@[i]).channels > 0,
            fold_total(fold),
            fi <= frames@.len(),
            done == all_groups(fv.take(fi as int)),
            out@.len() == done.len(),
            forall|k: int|
                0 <= k < done.len() ==> call_ensures(
                    fold,
                    (sample_sum(done[k].0) as i128, done[k].1),
                    #[trigger] out@[k],
                ),
            rate == (if fi == 0 { MP3_DEFAULT_RATE } else { fv[fi - 1].2 as u32 }),
        decreases frames@.len() - fi,
    {
        let f = &frames[fi];
        let ch = f.channels;
        let d = &f.data;
        assert(fv[fi as int] == frame_view(frames@[fi as int]));
        assert(fv.take(fi + 1).drop_last() =~= fv.take(fi as int));
        assert(fv.take(fi + 1).last() == fv[fi as int]);
        let ghost target = all_groups(fv.take(fi + 1));
        assert(target == done + tagged(sample_groups(d@, ch as nat), ch));
        assert(d@.skip(0) =~= d@);
        let mut j: usize = 0;
        while j < d.len()
            invariant
                ch > 0,
                fold_total(fold),
                j <= d@.len(),
                done + tagged(sample_groups(d@.skip(j as int), ch as nat), ch) == target,
                out@.len() == done.len(),
                forall|k: int|
                    0 <= k < done.len() ==> call_ensures(
                        fold,
                        (sample_sum(done[k].0) as i128, done[k].1),
                        #[trigger] out@[k],
                    ),
            decreases d@.len() - j,
        {
            let end = if d.len() - j <= ch { d.len() } else { j + ch };
            let mut acc: i128 = 0;
            let mut t: usize = j;
            assert(d@.subrange(j as int, j as int) =~= Seq::<i16>::empty());
            while t < end
                invariant
                    j <= t <= end <= d@.len(),
                    acc == sample_sum(d@.subrange(j as int, t as int)),
                    -32768 * (t - j) <= acc <= 32767 * (t - j),
                decreases end - t,
            {
                assert(d@.subrange(j as int, t + 1).drop_last() =~= d@.subrange(j as int, t as int));
                acc = acc + d[t] as i128;
                t = t + 1;
            }
            let v = fold(acc, ch);
            proof {
                lemma_groups_step(d@, ch as nat, j as int, end as int);
                let g = d@.subrange(j as int, end as int);
                let rest = sample_groups(d@.skip(end as int), ch as nat);
                assert(tagged(seq![g] + rest, ch) =~= seq![(g, ch)] + tagged(rest, ch));
                assert(done.push((g, ch)) + tagged(rest, ch) =~= done + (seq![(g, ch)] + tagged(rest, ch)));
                done = done.push((g, ch));
            }
            out.push(v);
            j = end;
        }
        proof {
            assert(sample_groups(d@.skip(j as int), ch as nat) =~= Seq::<Seq<i16>>::empty());
            assert(done + tagged(Seq::<Seq<i16>>::empty(), ch) =~= done);
        }
        rate = #[verifier::truncate] (f.sample_rate as u32);
        fi = fi + 1;
    }
    assert(fv.take(frames@.len() as int) =~= fv);
    (out, rate)
}

/// Number of mono samples of `frames`: each frame gives one sample per
/// started group of `channels` samples.
pub open spec fn mono_len(frames: Seq<(Seq<i16>, usize, i32)>) -> int
    decreases frames.len(),
{
    if frames.len() == 0 {
        0
    } else {
        let f = frames.last();
        mono_len(frames.drop_last()) + (f.0.len() + f.1 - 1) / (f.1 as int)
    }
}

proof fn lemma_groups_len(d: Seq<i16>, ch: nat)
    requires
        ch > 0,
    ensures
        sample_groups(d, ch).len() == (d.len() + ch - 1) / (ch as int),
    decreases d.len(),
{
    if d.len() == 0 {
        assert((ch - 1) / (ch as int) == 0) by (nonlinear_arith)
            requires ch > 0;
    } else if d.len() <= ch {
        assert((d.len() + ch - 1) / (ch as int) == 1) by (nonlinear_arith)
            requires 0 < d.len() <= ch;
    } else {
        lemma_groups_len(d.skip(ch as int), ch);
        let r = d.len() - ch;
        assert(d.skip(ch as int).len() == r);
        assert(sample_groups(d, ch).len() == 1 + sample_groups(d.skip(ch as int), ch).len());
        assert((d.len() + ch - 1) / (ch as int) == 1 + (r + ch - 1) / (ch as int)) by (nonlinear_arith)
            requires r == d.len() - ch, r > 0, ch > 0;
    }
}

/// Mono audio decoded from frames holds, for every frame, one sample per
/// started group of its channel samples: a frame of `n` interleaved samples
/// over `c` channels contributes the ceiling of `n / c`, and every frame
/// contributes.
pub proof fn lemma_mono_length<T, F: Fn(i128, usize) -> T>(
    out: (Vec<T>, u32),
    frames: Seq<(Seq<i16>, usize, i32)>,
    fold: F,
)
    requires
        forall|i: int| 0 <= i < frames.len() ==> (#[trigger] frames[i]).1 > 0,
        is_mono_of(out, frames, fold),
    ensures
        out.0@.len() == mono_len(frames),
{
    lemma_all_groups_len(frames);
}

proof fn lemma_all_groups_len(frames: Seq<(Seq<i16>, usize, i32)>)
    requires
        forall|i: int| 0 <= i < frames.len() ==> (#[trigger] frames[i]).1 > 0,
    ensures
        all_groups(frames).len() == mono_len(frames),
    decreases frames.len(),
{
    if frames.len() > 0 {
        let rest = frames.drop_last();
        assert forall|i: int| 0 <= i < rest.len() implies (#[trigger] rest[i]).1 > 0 by {
            assert(rest[i] == frames[i]);
        }
        lemma_all_groups_len(rest);
        assert(frames.last() == frames[frames.len() - 1]);
        lemma_groups_len(frames.last().0, frames.last().1 as nat);
    }
}

/// Some frame reports no channels.
pub open spec fn has_channelless_frame(frames: Seq<(Seq<i16>, usize, i32)>) -> bool {
    exists|i: int| 0 <= i < frames.len() && (#[trigger] frames[i]).1 == 0
}

/// Decodes an MP3 response into mono audio and its rate, folding each group
/// of interleaved channel samples with `fold`. `None` when decoding fails or
/// a decoded frame reports no channels.
pub fn decode_mp3<T, F: Fn(i128, usize) -> T>(data: &[u8], fold: F) -> (out: Option<(Vec<T>, u32)>)
    requires
        fold_total(fold),
    ensures
        match mp3_frames(data@) {
            None => out is None,
            Some(fs) => if has_channelless_frame(fs) {
                out is None
            } else {
                out matches Some(o) && is_mono_of(o, fs, fold)
            },
        },
{
    let frames = match decode_mp3_frames(data) {
        Some(f) => f,
        None => return None,
    };
    let ghost fs = frames@.map_values(|x: Mp3Frame| frame_view(x));
    assert(mp3_frames(data@) == Some(fs));
    let mut i: usize = 0;
    while i < frames.len()
        invariant
            mp3_frames(data@) == Some(fs),
            i <= frames@.len(),
            fs == frames@.map_values(|x: Mp3Frame| frame_view(x)),
            forall|k: int| 0 <= k < i ==> (#[trigger] frames@[k]).channels > 0,
        decreases frames@.len() - i,
    {
        if frames[i].channels == 0 {
            assert(fs[i as int] == frame_view(frames@[i as int]));
            assert(0 <= i < fs.len() && fs[i as int].1 == 0);
            assert(has_channelless_frame(fs));
            return None;
        }
        i = i + 1;
    }
    assert forall|k: int| 0 <= k < fs.len() implies (#[trigger] fs[k]).1 != 0 by {
        assert(fs[k] == frame_view(frames@[k]));
    }
    assert(!has_channelless_frame(fs));
    Some(mono_from_frames(&frames, fold))
}

} // verus!
