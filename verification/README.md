# voice_changer

Verified core of a real-time voice changer that sits between a microphone and
a virtual microphone, sending speech to the ElevenLabs speech-to-speech API.

- `src/` — the library, checked by Verus:
  - `audio/channels.rs`, `audio/resample.rs`: channel layout conversion and
    linear resampling of interleaved samples (generic over the sample type;
    the arithmetic on samples is supplied by the caller).
  - `audio/vad.rs`, `audio/chunker.rs`: voice-activity hysteresis and the
    framing / utterance chunking of captured audio.
  - `audio/timing.rs`: echo gate, capture poll interval, fade length.
  - `audio/engine.rs`: engine state and switches, including the conversion
    session that decides which converted audio may still be played.
  - `audio/device.rs`, `audio/device_watcher.rs`: device filtering and choice,
    device-list changes.
  - `provider/`: 16-bit PCM and WAV formats, response detection, MP3
    decoding (through `minimp3`) into mono audio, request decisions and voice
    listings of the conversion API.
  - `commands/`: values and decisions of the user-interface commands.
  - `db.rs`: the SQLite credential store (through `rusqlite`).
  - `text.rs`: character-level string helpers.
- `app/` — the desktop shell: audio streams (cpal), background tasks, HTTP
  (reqwest), the floating-point sample work (scaling, fades, sinc resampling
  with rubato), files, and the Tauri commands.
- `tests/` — tests of the library.
