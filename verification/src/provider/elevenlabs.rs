//! Wire formats and request decisions of the ElevenLabs speech-to-speech API.
//!
//! Audio goes up as raw 16-bit little-endian PCM (or as a WAV file) and comes
//! back as a WAV file, raw 16-bit little-endian PCM at 44.1 kHz, or MP3. PCM
//! output is asked for first; an account tier that is refused PCM (HTTP 403)
//! gets MP3 from then on.

use vstd::prelude::*;
use vstd::string::*;
use crate::provider::types::Voice;
use crate::text::concat_str;

verus! {

/// Low byte of a sample's two's-complement bits.
pub open spec fn low_byte(x: i16) -> u8 {
    ((x as u16) % 256) as u8
}

/// High byte of a sample's two's-complement bits.
pub open spec fn high_byte(x: i16) -> u8 {
    ((x as u16) / 256) as u8
}

/// The sample whose little-endian bytes are `lo`, `hi`.
pub open spec fn sample_from_bytes(lo: u8, hi: u8) -> i16 {
    (lo as u16 + hi as u16 * 256) as i16
}

/// Samples as 16-bit little-endian PCM bytes.
pub open spec fn s16le_bytes(samples: Seq<i16>) -> Seq<u8> {
    Seq::new(
        2 * samples.len(),
        |k: int|
            if k % 2 == 0 {
                low_byte(samples[k / 2])
            } else {
                high_byte(samples[k / 2])
            },
    )
}

/// The samples of 16-bit little-endian PCM bytes; a trailing odd byte is
/// ignored.
pub open spec fn s16le_samples(bytes: Seq<u8>) -> Seq<i16> {
    Seq::new(bytes.len() / 2, |i: int| sample_from_bytes(bytes[2 * i], bytes[2 * i + 1]))
}

/// Encodes samples as 16-bit little-endian PCM.
pub fn encode_pcm_s16le(samples: &[i16]) -> (bytes: Vec<u8>)
    requires
        2 * samples@.len() <= usize::MAX,
    ensures
        bytes@ == s16le_bytes(samples@),
{
    let mut out: Vec<u8> = Vec::with_capacity(samples.len() * 2);
    let mut i: usize = 0;
    while i < samples.len()
        invariant
            i <= samples@.len(),
            out@.len() == 2 * i,
            forall|k: int| 0 <= k < 2 * i ==> #[trigger] out@[k] == s16le_bytes(samples@)[k],
        decreases samples@.len() - i,
    {
        let u = samples[i] as u16;
        out.push((u % 256) as u8);
        out.push((u / 256) as u8);
        i = i + 1;
    }
    assert(out@ =~= s16le_bytes(samples@));
    out
}

/// Decodes 16-bit little-endian PCM; a trailing odd byte is ignored.
pub fn decode_pcm_s16le(bytes: &[u8]) -> (samples: Vec<i16>)
    ensures
        samples@ == s16le_samples(bytes@),
{
    let len = bytes.len();
    let n = len / 2;
    assert(2 * n <= bytes@.len());
    let mut out: Vec<i16> = Vec::with_capacity(n);
    let mut i: usize = 0;
    while i < n
        invariant
            n == bytes@.len() / 2,
            len == bytes@.len(),
            2 * n <= bytes@.len(),
            i <= n,
            out@.len() == i,
            forall|k: int| 0 <= k < i ==> #[trigger] out@[k] == s16le_samples(bytes@)[k],
        decreases n - i,
    {
        let lo = bytes[2 * i];
        let hi = bytes[2 * i + 1];
        out.push(#[verifier::truncate] ((lo as u16 + hi as u16 * 256) as i16));
        i = i + 1;
    }
    assert(out@ =~= s16le_samples(bytes@));
    out
}

proof fn lemma_sample_bytes_round_trip(x: i16)
    ensures
        sample_from_bytes(low_byte(x), high_byte(x)) == x,
{
    assert(((((x as u16) % 256) as u8) as u16 + (((x as u16) / 256) as u8) as u16 * 256) as i16
        == x) by (bit_vector);
}

proof fn lemma_bytes_sample_round_trip(lo: u8, hi: u8)
    ensures
        low_byte(sample_from_bytes(lo, hi)) == lo,
        high_byte(sample_from_bytes(lo, hi)) == hi,
{
    assert(((((lo as u16 + hi as u16 * 256) as i16) as u16) % 256) as u8 == lo) by (bit_vector);
    assert(((((lo as u16 + hi as u16 * 256) as i16) as u16) / 256) as u8 == hi) by (bit_vector);
}

/// Decoding encoded samples gives the samples back.
pub proof fn lemma_pcm_round_trip(samples: Seq<i16>)
    ensures
        s16le_samples(s16le_bytes(samples)) == samples,
{
    let b = s16le_bytes(samples);
    assert forall|i: int| 0 <= i < samples.len() implies s16le_samples(b)[i] == samples[i] by {
        assert((2 * i) % 2 == 0 && (2 * i) / 2 == i);
        assert((2 * i + 1) % 2 == 1 && (2 * i + 1) / 2 == i);
        lemma_sample_bytes_round_trip(samples[i]);
    }
    assert(s16le_samples(b) =~= samples);
}

/// Encoding decoded bytes gives back the bytes up to an even length.
pub proof fn lemma_bytes_round_trip(bytes: Seq<u8>)
    ensures
        s16le_bytes(s16le_samples(bytes)) == bytes.take(2 * (bytes.len() as int / 2)),
{
    let s = s16le_samples(bytes);
    let e = s16le_bytes(s);
    assert forall|k: int| 0 <= k < e.len() implies e[k] == bytes[k] by {
        let i = k / 2;
        assert(k == 2 * i || k == 2 * i + 1);
        lemma_bytes_sample_round_trip(bytes[2 * i], bytes[2 * i + 1]);
    }
    assert(e =~= bytes.take(2 * (bytes.len() as int / 2)));
}

/// Little-endian bytes of a 16-bit value.
pub open spec fn u16_le(x: u16) -> Seq<u8> {
    seq![(x % 256) as u8, (x / 256) as u8]
}

/// Little-endian bytes of a 32-bit value.
pub open spec fn u32_le(x: u32) -> Seq<u8> {
    seq![
        (x % 256) as u8,
        ((x / 256) % 256) as u8,
        ((x / 65536) % 256) as u8,
        (x / 16777216) as u8,
    ]
}

/// The 32-bit value of four little-endian bytes.
pub open spec fn u32_from_le(b: Seq<u8>) -> u32 {
    (b[0] + b[1] * 256 + b[2] * 65536 + b[3] * 16777216) as u32
}

/// ASCII bytes of a four-letter chunk tag.
pub open spec fn tag(a: u8, b: u8, c: u8, d: u8) -> Seq<u8> {
    seq![a, b, c, d]
}

/// "RIFF"
pub open spec fn riff_tag() -> Seq<u8> {
    tag(82, 73, 70, 70)
}

/// Size of a canonical WAV header.
pub const WAV_HEADER_LEN: usize = 44;

/// A canonical 44-byte WAV (RIFF, PCM format 1, 16 bits per sample) holding
/// the PCM bytes `pcm`.
pub open spec fn wav_bytes(pcm: Seq<u8>, sample_rate: u32, channels: u16) -> Seq<u8> {
    riff_tag() + u32_le((36 + pcm.len()) as u32) + tag(87, 65, 86, 69) + tag(102, 109, 116, 32)
        + u32_le(16) + u16_le(1) + u16_le(channels) + u32_le(sample_rate) + u32_le(
        (sample_rate * channels * 2) as u32,
    ) + u16_le((channels * 2) as u16) + u16_le(16) + tag(100, 97, 116, 97) + u32_le(
        pcm.len() as u32,
    ) + pcm
}

fn push_u16_le(out: &mut Vec<u8>, x: u16)
    ensures
        final(out)@ == old(out)@ + u16_le(x),
{
    out.push((x % 256) as u8);
    out.push((x / 256) as u8);
    assert(final(out)@ =~= old(out)@ + u16_le(x));
}

fn push_u32_le(out: &mut Vec<u8>, x: u32)
    ensures
        final(out)@ == old(out)@ + u32_le(x),
{
    out.push((x % 256) as u8);
    out.push(((x / 256) % 256) as u8);
    out.push(((x / 65536) % 256) as u8);
    out.push((x / 16777216) as u8);
    assert(final(out)@ =~= old(out)@ + u32_le(x));
}

fn push_tag(out: &mut Vec<u8>, a: u8, b: u8, c: u8, d: u8)
    ensures
        final(out)@ == old(out)@ + tag(a, b, c, d),
{
    out.push(a);
    out.push(b);
    out.push(c);
    out.push(d);
    assert(final(out)@ =~= old(out)@ + tag(a, b, c, d));
}

/// Wraps 16-bit PCM bytes in a WAV file.
pub fn wav_from_pcm(pcm: &[u8], sample_rate: u32, channels: u16) -> (wav: Vec<u8>)
    requires
        pcm@.len() + 36 <= u32::MAX,
        sample_rate * channels * 2 <= u32::MAX,
        channels * 2 <= u16::MAX,
    ensures
        wav@ == wav_bytes(pcm@, sample_rate, channels),
{
    let data_len = pcm.len() as u32;
    assert(sample_rate as int * channels as int * 2 <= u32::MAX);
    let byte_rate = sample_rate * channels as u32 * 2;
    let mut wav: Vec<u8> = Vec::new();
    push_tag(&mut wav, 82, 73, 70, 70);
    push_u32_le(&mut wav, 36 + data_len);
    push_tag(&mut wav, 87, 65, 86, 69);
    push_tag(&mut wav, 102, 109, 116, 32);
    push_u32_le(&mut wav, 16);
    push_u16_le(&mut wav, 1);
    push_u16_le(&mut wav, channels);
    push_u32_le(&mut wav, sample_rate);
    push_u32_le(&mut wav, byte_rate);
    push_u16_le(&mut wav, channels * 2);
    push_u16_le(&mut wav, 16);
    push_tag(&mut wav, 100, 97, 116, 97);
    push_u32_le(&mut wav, data_len);
    let mut data = vstd::slice::slice_to_vec(pcm);
    wav.append(&mut data);
    wav
}

/// Container of a conversion response.
#[derive(Debug, Clone, Copy, PartialEq, Eq)]
pub enum ResponseFormat {
    /// A WAV file (RIFF header and more than the header).
    Wav,
    /// MP3 (an ID3 tag or an MPEG frame sync at the start).
    Mp3,
    /// Raw 16-bit little-endian PCM at 44.1 kHz.
    RawPcm,
}

/// `bytes` begins with `prefix`.
pub open spec fn starts_with(bytes: Seq<u8>, prefix: Seq<u8>) -> bool {
    prefix.len() <= bytes.len() && bytes.subrange(0, prefix.len() as int) == prefix
}

/// "ID3"
pub open spec fn id3_tag() -> Seq<u8> {
    seq![73u8, 68, 51]
}

/// The container that a response body is taken to be.
pub open spec fn response_format_of(bytes: Seq<u8>) -> ResponseFormat {
    if starts_with(bytes, riff_tag()) && bytes.len() > 44 {
        ResponseFormat::Wav
    } else if starts_with(bytes, id3_tag()) || (bytes.len() > 2 && bytes[0] == 0xFF && (bytes[1]
        & 0xE0) == 0xE0) {
        ResponseFormat::Mp3
    } else {
        ResponseFormat::RawPcm
    }
}

/// Detects the container of a conversion response body.
pub fn response_format(bytes: &[u8]) -> (format: ResponseFormat)
    ensures
        format == response_format_of(bytes@),
{
    let n = bytes.len();
    if n > 44 && bytes[0] == 82 && bytes[1] == 73 && bytes[2] == 70 && bytes[3] == 70 {
        assert(bytes@.subrange(0, 4) =~= riff_tag());
        return ResponseFormat::Wav;
    }
    assert(!(starts_with(bytes@, riff_tag()) && bytes@.len() > 44)) by {
        if starts_with(bytes@, riff_tag()) && bytes@.len() > 44 {
            assert(bytes@.subrange(0, 4)[0] == bytes@[0]);
            assert(bytes@.subrange(0, 4)[1] == bytes@[1]);
            assert(bytes@.subrange(0, 4)[2] == bytes@[2]);
            assert(bytes@.subrange(0, 4)[3] == bytes@[3]);
        }
    }
    let id3 = n >= 3 && bytes[0] == 73 && bytes[1] == 68 && bytes[2] == 51;
    assert(id3 == starts_with(bytes@, id3_tag())) by {
        if n >= 3 {
            assert(bytes@.subrange(0, 3)[0] == bytes@[0]);
            assert(bytes@.subrange(0, 3)[1] == bytes@[1]);
            assert(bytes@.subrange(0, 3)[2] == bytes@[2]);
            if id3 {
                assert(bytes@.subrange(0, 3) =~= id3_tag());
            }
        }
    }
    if id3 || (n > 2 && bytes[0] == 0xFF && (bytes[1] & 0xE0) == 0xE0) {
        ResponseFormat::Mp3
    } else {
        ResponseFormat::RawPcm
    }
}

/// Sample rate of a raw PCM response.
pub const RAW_PCM_RATE: u32 = 44100;

/// Audio of a conversion response.
#[derive(Debug, Clone)]
pub enum ResponseAudio {
    /// 16-bit PCM samples (mono) at `sample_rate`.
    Pcm { samples: Vec<i16>, sample_rate: u32 },
    /// An MP3 stream, decoded by the caller.
    Mp3,
}

/// Decodes a conversion response body. A WAV file gives the sample rate
/// stored at byte 24 and the samples after the 44-byte header; raw PCM gives
/// all its samples at 44.1 kHz; MP3 is left to the caller.
pub fn decode_response(bytes: &[u8]) -> (audio: ResponseAudio)
    ensures
        match response_format_of(bytes@) {
            ResponseFormat::Wav => audio matches ResponseAudio::Pcm { samples, sample_rate } && samples@
                == s16le_samples(bytes@.skip(44)) && sample_rate == u32_from_le(
                bytes@.subrange(24, 28),
            ),
            ResponseFormat::RawPcm => audio matches ResponseAudio::Pcm { samples, sample_rate }
                && samples@ == s16le_samples(bytes@) && sample_rate == RAW_PCM_RATE,
            ResponseFormat::Mp3 => audio is Mp3,
        },
{
    match response_format(bytes) {
        ResponseFormat::Wav => {
            let b0 = bytes[24] as u32;
            let b1 = bytes[25] as u32;
            let b2 = bytes[26] as u32;
            let b3 = bytes[27] as u32;
            let rate = b0 + b1 * 256 + b2 * 65536 + b3 * 16777216;
            assert(bytes@.subrange(24, 28) =~= seq![bytes@[24], bytes@[25], bytes@[26], bytes@[27]]);
            let body = vstd::slice::slice_subrange(bytes, WAV_HEADER_LEN, bytes.len());
            assert(body@ =~= bytes@.skip(44));
            ResponseAudio::Pcm { samples: decode_pcm_s16le(body), sample_rate: rate }
        },
        ResponseFormat::Mp3 => ResponseAudio::Mp3,
        ResponseFormat::RawPcm => ResponseAudio::Pcm {
            samples: decode_pcm_s16le(bytes),
            sample_rate: RAW_PCM_RATE,
        },
    }
}

/// A mono WAV built from encoded samples is recognised as WAV and decodes to
/// the same samples and rate.
pub proof fn lemma_wav_round_trip(samples: Seq<i16>, sample_rate: u32)
    requires
        samples.len() >= 1,
        2 * samples.len() + 36 <= u32::MAX,
        sample_rate * 2 <= u32::MAX,
    ensures
        ({
            let wav = wav_bytes(s16le_bytes(samples), sample_rate, 1);
            &&& response_format_of(wav) == ResponseFormat::Wav
            &&& s16le_samples(wav.skip(44)) == samples
            &&& u32_from_le(wav.subrange(24, 28)) == sample_rate
        }),
{
    let pcm = s16le_bytes(samples);
    let wav = wav_bytes(pcm, sample_rate, 1);
    let header = riff_tag() + u32_le((36 + pcm.len()) as u32) + tag(87, 65, 86, 69) + tag(
        102,
        109,
        116,
        32,
    ) + u32_le(16) + u16_le(1) + u16_le(1) + u32_le(sample_rate) + u32_le(
        (sample_rate * 1 * 2) as u32,
    ) + u16_le((1 * 2) as u16) + u16_le(16) + tag(100, 97, 116, 97) + u32_le(pcm.len() as u32);
    assert(header.len() == 44);
    assert(wav =~= header + pcm);
    assert(wav.subrange(0, 4) =~= riff_tag());
    assert(wav.skip(44) =~= pcm);
    lemma_pcm_round_trip(samples);
    assert(wav.subrange(24, 28) =~= u32_le(sample_rate));
    let r = sample_rate;
    assert(((r % 256) as u8 + ((r / 256) % 256) as u8 * 256 + ((r / 65536) % 256) as u8 * 65536
        + (r / 16777216) as u8 * 16777216) as u32 == r) by (bit_vector);
}

/// Output format asked of the conversion endpoint.
#[derive(Debug, Clone, Copy, PartialEq, Eq)]
pub enum OutputFormat {
    /// Raw 16-bit PCM at 44.1 kHz (not available on every account tier).
    Pcm44100,
    /// 128 kb/s MP3 at 44.1 kHz (available on every tier).
    Mp3_44100_128,
}

/// The format's name in the `output_format` query parameter.
pub open spec fn format_name(f: OutputFormat) -> Seq<char> {
    match f {
        OutputFormat::Pcm44100 => "pcm_44100"@,
        OutputFormat::Mp3_44100_128 => "mp3_44100_128"@,
    }
}

impl OutputFormat {
    /// The format's name in the `output_format` query parameter.
    pub fn as_str(&self) -> (name: &'static str)
        ensures
            name@ == format_name(*self),
    {
        match self {
            OutputFormat::Pcm44100 => "pcm_44100",
            OutputFormat::Mp3_44100_128 => "mp3_44100_128",
        }
    }
}

/// The format asked for first: PCM unless this account was refused PCM before.
pub fn initial_output_format(pcm_denied: bool) -> (format: OutputFormat)
    ensures
        format == (if pcm_denied { OutputFormat::Mp3_44100_128 } else { OutputFormat::Pcm44100 }),
{
    if pcm_denied {
        OutputFormat::Mp3_44100_128
    } else {
        OutputFormat::Pcm44100
    }
}

/// HTTP status of a refused request.
pub const HTTP_FORBIDDEN: u16 = 403;

/// Whether a response with `status` to a request for `format` is retried in
/// MP3 (and PCM marked as denied): only a 403 to a PCM request is.
pub fn retry_as_mp3(status: u16, format: OutputFormat) -> (retry: bool)
    ensures
        retry == (status == HTTP_FORBIDDEN && format == OutputFormat::Pcm44100),
{
    status == HTTP_FORBIDDEN && match format {
        OutputFormat::Pcm44100 => true,
        OutputFormat::Mp3_44100_128 => false,
    }
}

/// The format to retry with after a response with `status` to a request for
/// `format`: MP3 after a 403 to a PCM request, otherwise no retry.
pub open spec fn retry_format(status: u16, format: OutputFormat) -> Option<OutputFormat> {
    if status == HTTP_FORBIDDEN && format == OutputFormat::Pcm44100 {
        Some(OutputFormat::Mp3_44100_128)
    } else {
        None
    }
}

/// The output format to ask for, remembered across requests of one provider:
/// once the account has been refused PCM, every later request asks for MP3.
pub struct FormatPolicy {
    pcm_denied: bool,
}

impl FormatPolicy {
    /// Whether PCM has been refused.
    pub closed spec fn denied(&self) -> bool {
        self.pcm_denied
    }

    /// No refusal seen yet.
    pub fn new() -> (p: FormatPolicy)
        ensures
            !p.denied(),
    {
        FormatPolicy { pcm_denied: false }
    }

    /// The format of a request's first attempt.
    pub fn first_format(&self) -> (format: OutputFormat)
        ensures
            format == (if self.denied() {
                OutputFormat::Mp3_44100_128
            } else {
                OutputFormat::Pcm44100
            }),
    {
        initial_output_format(self.pcm_denied)
    }

    /// Records the response status to an attempt in `format` and gives the
    /// format of the one retry, if any: a 403 to PCM is retried once in MP3
    /// and remembered; nothing else is retried.
    pub fn after_response(&mut self, status: u16, format: OutputFormat) -> (retry: Option<OutputFormat>)
        ensures
            retry == retry_format(status, format),
            final(self).denied() == (old(self).denied() || retry is Some),
    {
        if retry_as_mp3(status, format) {
            self.pcm_denied = true;
            Some(OutputFormat::Mp3_44100_128)
        } else {
            None
        }
    }
}

/// A refusal is never forgotten, and once PCM is refused a request makes a
/// single attempt, in MP3, that is never retried whatever its status.
pub proof fn lemma_refusal_is_permanent(status: u16)
    ensures
        retry_format(status, OutputFormat::Mp3_44100_128) is None,
        retry_format(HTTP_FORBIDDEN, OutputFormat::Pcm44100) == Some(OutputFormat::Mp3_44100_128),
{
}

/// URL of the streaming speech-to-speech endpoint for a voice and format.
pub open spec fn speech_to_speech_url_of(voice_id: Seq<char>, format: Seq<char>) -> Seq<char> {
    "https://api.elevenlabs.io/v1/speech-to-speech/"@ + voice_id + "/stream?output_format="@
        + format
}

/// Builds the speech-to-speech URL for `voice_id` asking for `format`.
pub fn speech_to_speech_url(voice_id: &str, format: OutputFormat) -> (url: String)
    ensures
        url@ == speech_to_speech_url_of(voice_id@, format_name(format)),
{
    let head = concat_str("https://api.elevenlabs.io/v1/speech-to-speech/", voice_id);
    let mid = concat_str(head.as_str(), "/stream?output_format=");
    concat_str(mid.as_str(), format.as_str())
}

/// How audio is uploaded for conversion.
#[derive(Debug, Clone, Copy, PartialEq, Eq)]
pub enum UploadFormat {
    /// Raw 16-bit little-endian mono PCM at 16 kHz (lower latency).
    Pcm16k,
    /// A 48 kHz mono WAV file.
    Wav48k,
}

impl UploadFormat {
    /// The upload format in use: raw PCM when low latency is asked for.
    pub fn for_latency(low_latency: bool) -> (f: UploadFormat)
        ensures
            f == (if low_latency { UploadFormat::Pcm16k } else { UploadFormat::Wav48k }),
    {
        if low_latency {
            UploadFormat::Pcm16k
        } else {
            UploadFormat::Wav48k
        }
    }

    /// Sample rate of the uploaded audio.
    pub fn sample_rate(&self) -> (rate: u32)
        ensures
            rate == match self {
                UploadFormat::Pcm16k => 16000u32,
                UploadFormat::Wav48k => 48000u32,
            },
    {
        match self {
            UploadFormat::Pcm16k => 16000,
            UploadFormat::Wav48k => 48000,
        }
    }

    /// MIME type of the uploaded part.
    pub fn mime(&self) -> (mime: &'static str)
        ensures
            mime@ == match self {
                UploadFormat::Pcm16k => "application/octet-stream"@,
                UploadFormat::Wav48k => "audio/wav"@,
            },
    {
        match self {
            UploadFormat::Pcm16k => "application/octet-stream",
            UploadFormat::Wav48k => "audio/wav",
        }
    }

    /// Value of the `file_format` form field.
    pub fn file_format(&self) -> (name: &'static str)
        ensures
            name@ == match self {
                UploadFormat::Pcm16k => "pcm_s16le_16"@,
                UploadFormat::Wav48k => "other"@,
            },
    {
        match self {
            UploadFormat::Pcm16k => "pcm_s16le_16",
            UploadFormat::Wav48k => "other",
        }
    }

    /// The upload body for mono 16-bit samples at this format's rate.
    pub fn body(&self, samples: &[i16]) -> (bytes: Vec<u8>)
        requires
            2 * samples@.len() <= usize::MAX,
            *self == UploadFormat::Wav48k ==> 2 * samples@.len() + 36 <= u32::MAX,
        ensures
            bytes@ == match self {
                UploadFormat::Pcm16k => s16le_bytes(samples@),
                UploadFormat::Wav48k => wav_bytes(s16le_bytes(samples@), 48000, 1),
            },
    {
        let pcm = encode_pcm_s16le(samples);
        match self {
            UploadFormat::Pcm16k => pcm,
            UploadFormat::Wav48k => wav_from_pcm(pcm.as_slice(), 48000, 1),
        }
    }
}

/// The voice listed by the provider under `voice_id` and `name`.
pub fn voice_from_listing(voice_id: String, name: String) -> (v: Voice)
    ensures
        v.id == voice_id,
        v.name == name,
        v.language is None,
        v.provider@ == "elevenlabs"@,
{
    Voice { id: voice_id, name, language: None, provider: String::from_str("elevenlabs") }
}

/// The voices of a voice listing, given as `(voice_id, name)` pairs, in order.
pub fn voices_from_listing(listing: Vec<(String, String)>) -> (voices: Vec<Voice>)
    ensures
        voices@.len() == listing@.len(),
        forall|i: int|
            0 <= i < voices@.len() ==> {
                &&& (#[trigger] voices@[i]).id == listing@[i].0
                &&& voices@[i].name == listing@[i].1
                &&& voices@[i].language is None
                &&& voices@[i].provider@ == "elevenlabs"@
            },
{
    let mut out: Vec<Voice> = Vec::new();
    let mut rest = listing;
    let ghost all = rest@;
    let n = rest.len();
    let mut items: Vec<(String, String)> = Vec::new();
    while rest.len() > 0
        invariant
            all.len() == n,
            rest@ == all.subrange(0, rest@.len() as int),
            items@.len() + rest@.len() == n,
            forall|k: int| 0 <= k < items@.len() ==> items@[k] == all[n - 1 - k],
        decreases rest@.len(),
    {
        let e = rest.pop().unwrap();
        items.push(e);
    }
    while items.len() > 0
        invariant
            all.len() == n,
            out@.len() + items@.len() == n,
            forall|k: int| 0 <= k < items@.len() ==> items@[k] == all[n - 1 - k],
            forall|k: int|
                0 <= k < out@.len() ==> {
                    &&& (#[trigger] out@[k]).id == all[k].0
                    &&& out@[k].name == all[k].1
                    &&& out@[k].language is None
                    &&& out@[k].provider@ == "elevenlabs"@
                },
        decreases items@.len(),
    {
        let (id, name) = items.pop().unwrap();
        out.push(voice_from_listing(id, name));
    }
    out
}

} // verus!
