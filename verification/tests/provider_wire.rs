use voice_changer::commands::provider::{
    require_api_key, require_provider, saved_credentials, voice_dtos, CommandError, VoiceDto,
};
use voice_changer::provider::elevenlabs::{
    decode_pcm_s16le, decode_response, encode_pcm_s16le, initial_output_format, response_format,
    retry_as_mp3, speech_to_speech_url, voice_from_listing, voices_from_listing, wav_from_pcm,
    FormatPolicy, OutputFormat, ResponseAudio, ResponseFormat, UploadFormat,
};
use voice_changer::provider::mp3::{decode_mp3, mono_from_frames, Mp3Frame};
use voice_changer::text::{concat_str, contains};

#[test]
fn pcm_encoding_is_little_endian_twos_complement() {
    let bytes = encode_pcm_s16le(&[1, -1, 256, i16::MIN]);
    assert_eq!(bytes, vec![1, 0, 255, 255, 0, 1, 0, 128]);
    assert_eq!(decode_pcm_s16le(&bytes), vec![1, -1, 256, i16::MIN]);
    // A trailing odd byte is ignored.
    assert_eq!(decode_pcm_s16le(&[0x34, 0x12, 0x99]), vec![0x1234]);
}

#[test]
fn pcm_round_trip_all_extremes() {
    let samples: Vec<i16> = vec![0, 1, -1, 32767, -32768, 12345, -12345];
    assert_eq!(decode_pcm_s16le(&encode_pcm_s16le(&samples)), samples);
}

#[test]
fn wav_header_layout() {
    let wav = wav_from_pcm(&[1, 2, 3, 4], 48_000, 1);
    assert_eq!(wav.len(), 48);
    assert_eq!(&wav[0..4], b"RIFF");
    assert_eq!(&wav[4..8], &40u32.to_le_bytes());
    assert_eq!(&wav[8..16], b"WAVEfmt ");
    assert_eq!(&wav[16..20], &16u32.to_le_bytes());
    assert_eq!(&wav[20..22], &1u16.to_le_bytes());
    assert_eq!(&wav[22..24], &1u16.to_le_bytes());
    assert_eq!(&wav[24..28], &48_000u32.to_le_bytes());
    assert_eq!(&wav[28..32], &96_000u32.to_le_bytes());
    assert_eq!(&wav[32..34], &2u16.to_le_bytes());
    assert_eq!(&wav[34..36], &16u16.to_le_bytes());
    assert_eq!(&wav[36..40], b"data");
    assert_eq!(&wav[40..44], &4u32.to_le_bytes());
    assert_eq!(&wav[44..], &[1, 2, 3, 4]);
}

#[test]
fn wav_response_decodes_to_its_samples() {
    let samples: Vec<i16> = vec![100, -200, 300];
    let wav = wav_from_pcm(&encode_pcm_s16le(&samples), 22_050, 1);
    assert_eq!(response_format(&wav), ResponseFormat::Wav);
    match decode_response(&wav) {
        ResponseAudio::Pcm { samples: got, sample_rate } => {
            assert_eq!(got, samples);
            assert_eq!(sample_rate, 22_050);
        },
        ResponseAudio::Mp3 => panic!("WAV taken for MP3"),
    }
}

#[test]
fn response_container_detection() {
    assert_eq!(response_format(b"ID3\x04rest"), ResponseFormat::Mp3);
    assert_eq!(response_format(&[0xFF, 0xFB, 0x90, 0x00]), ResponseFormat::Mp3);
    assert_eq!(response_format(&[0xFF, 0xFB]), ResponseFormat::RawPcm);
    // "RIFF" with no more than the header is raw PCM.
    let mut short = b"RIFF".to_vec();
    short.resize(44, 0);
    assert_eq!(response_format(&short), ResponseFormat::RawPcm);
    match decode_response(&[0x10, 0x00, 0xF0, 0xFF]) {
        ResponseAudio::Pcm { samples, sample_rate } => {
            assert_eq!(samples, vec![16, -16]);
            assert_eq!(sample_rate, 44_100);
        },
        ResponseAudio::Mp3 => panic!("raw PCM taken for MP3"),
    }
    assert!(matches!(decode_response(b"ID3xyz"), ResponseAudio::Mp3));
}

#[test]
fn output_format_fallback() {
    assert_eq!(initial_output_format(false), OutputFormat::Pcm44100);
    assert_eq!(initial_output_format(true), OutputFormat::Mp3_44100_128);
    assert!(retry_as_mp3(403, OutputFormat::Pcm44100));
    assert!(!retry_as_mp3(403, OutputFormat::Mp3_44100_128));
    assert!(!retry_as_mp3(200, OutputFormat::Pcm44100));
    assert_eq!(OutputFormat::Pcm44100.as_str(), "pcm_44100");
    assert_eq!(
        speech_to_speech_url("voice123", OutputFormat::Mp3_44100_128),
        "https://api.elevenlabs.io/v1/speech-to-speech/voice123/stream?output_format=mp3_44100_128"
    );
}

#[test]
fn upload_formats() {
    let f = UploadFormat::for_latency(true);
    assert_eq!(f, UploadFormat::Pcm16k);
    assert_eq!(f.sample_rate(), 16_000);
    assert_eq!(f.mime(), "application/octet-stream");
    assert_eq!(f.file_format(), "pcm_s16le_16");
    assert_eq!(f.body(&[2, -2]), vec![2, 0, 254, 255]);
    let w = UploadFormat::for_latency(false);
    assert_eq!(w.mime(), "audio/wav");
    assert_eq!(w.file_format(), "other");
    assert_eq!(w.body(&[2]).len(), 46);
}

#[test]
fn voices_from_listing_keep_order() {
    let voices = voices_from_listing(vec![
        ("v1".to_string(), "Rachel".to_string()),
        ("v2".to_string(), "Adam".to_string()),
    ]);
    assert_eq!(voices.len(), 2);
    assert_eq!(voices[0].id, "v1");
    assert_eq!(voices[1].name, "Adam");
    assert_eq!(voices[1].provider, "elevenlabs");
    assert_eq!(voices[0].language, None);
    let dto = VoiceDto::from(voice_from_listing("v3".to_string(), "Bella".to_string()));
    assert_eq!(dto.id, "v3");
    assert_eq!(dto.provider, "elevenlabs");
    let dtos = voice_dtos(voices);
    assert_eq!(dtos[0].name, "Rachel");
}

#[test]
fn credential_decisions() {
    assert_eq!(require_api_key(Some("k".to_string())), Ok("k".to_string()));
    assert_eq!(require_api_key(None), Err(CommandError::NoApiKey));
    assert_eq!(CommandError::NoApiKey.message(), "No API key stored. Re-enter credentials.");
    assert_eq!(require_provider::<u8>(None, true), Err(CommandError::NoProviderForStart));
    assert_eq!(CommandError::NoProviderForStart.message(), "No provider configured. Set API key first.");
    assert_eq!(require_provider::<u8>(None, false), Err(CommandError::NoProvider));
    assert_eq!(CommandError::NoProvider.message(), "No provider configured.");
    assert_eq!(require_provider(Some(5u8), true), Ok(5));
    assert_eq!(
        saved_credentials(Some("k".to_string()), Some("v".to_string())),
        Some(("k".to_string(), "v".to_string()))
    );
    assert_eq!(saved_credentials(Some("k".to_string()), None), None);
}

#[test]
fn text_helpers() {
    assert!(contains("error 429 too many", "429"));
    assert!(!contains("42 9", "429"));
    assert!(contains("abc", ""));
    assert_eq!(concat_str("ab", "cd"), "abcd");
}

#[test]
fn empty_mp3_response_decodes_to_no_audio_at_default_rate() {
    let (samples, rate) = decode_mp3(&[], |sum: i128, ch: usize| sum as f32 / ch as f32 / 32768.0).unwrap();
    assert!(samples.is_empty());
    assert_eq!(rate, 44100);
}

#[test]
fn mp3_frames_fold_each_channel_group() {
    let frames = vec![
        Mp3Frame { data: vec![2, 4, -6, 8], channels: 2, sample_rate: 22050 },
        Mp3Frame { data: vec![5, -7, 1], channels: 1, sample_rate: 24000 },
        Mp3Frame { data: vec![1, 2, 3, 4, 5], channels: 2, sample_rate: 48000 },
    ];
    let (sums, rate) = mono_from_frames(&frames, |sum: i128, ch: usize| (sum, ch));
    assert_eq!(sums, vec![(6, 2), (2, 2), (5, 1), (-7, 1), (1, 1), (3, 2), (7, 2), (5, 2)]);
    assert_eq!(rate, 48000);

    let stereo = vec![Mp3Frame { data: vec![2, 4, -6, 8], channels: 2, sample_rate: 22050 }];
    let (mono, rate) = mono_from_frames(&stereo, |sum: i128, ch: usize| sum as f32 / ch as f32);
    assert_eq!(mono, vec![3.0, 1.0]);
    assert_eq!(rate, 22050);

    let (none, rate) = mono_from_frames(&Vec::new(), |sum: i128, _ch: usize| sum);
    assert!(none.is_empty());
    assert_eq!(rate, 44100);
}

#[test]
fn pcm_refusal_is_retried_once_and_remembered() {
    let mut policy = FormatPolicy::new();
    assert_eq!(policy.first_format(), OutputFormat::Pcm44100);
    assert_eq!(policy.after_response(200, OutputFormat::Pcm44100), None);
    assert_eq!(policy.first_format(), OutputFormat::Pcm44100);
    assert_eq!(policy.after_response(403, OutputFormat::Pcm44100), Some(OutputFormat::Mp3_44100_128));
    assert_eq!(policy.first_format(), OutputFormat::Mp3_44100_128);
    assert_eq!(policy.after_response(403, OutputFormat::Mp3_44100_128), None);
    assert_eq!(policy.after_response(500, OutputFormat::Mp3_44100_128), None);
    assert_eq!(policy.first_format(), OutputFormat::Mp3_44100_128);
}
