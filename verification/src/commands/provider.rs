//! Provider commands: the voice list and the stored credentials.

use vstd::prelude::*;
use vstd::string::*;
use crate::provider::types::Voice;

verus! {

/// Key under which the ElevenLabs API key is stored.
pub const API_KEY_KEY: &'static str = "elevenlabs_api_key";

/// Key under which the selected ElevenLabs voice is stored.
pub const VOICE_ID_KEY: &'static str = "elevenlabs_voice_id";

/// A voice as the user interface receives it.
#[derive(Debug, Clone)]
pub struct VoiceDto {
    pub id: String,
    pub name: String,
    pub language: Option<String>,
    pub provider: String,
}

/// The user-interface form of a voice: the same four fields.
pub open spec fn voice_dto_of(v: Voice) -> VoiceDto {
    VoiceDto { id: v.id, name: v.name, language: v.language, provider: v.provider }
}

impl From<Voice> for VoiceDto {
    fn from(v: Voice) -> (dto: VoiceDto) {
        VoiceDto { id: v.id, name: v.name, language: v.language, provider: v.provider }
    }
}

impl vstd::std_specs::convert::FromSpecImpl<Voice> for VoiceDto {
    open spec fn obeys_from_spec() -> bool {
        true
    }

    open spec fn from_spec(v: Voice) -> VoiceDto {
        voice_dto_of(v)
    }
}

/// The voices as the user interface receives them, in order.
pub fn voice_dtos(voices: Vec<Voice>) -> (dtos: Vec<VoiceDto>)
    ensures
        dtos@.len() == voices@.len(),
        forall|i: int| 0 <= i < dtos@.len() ==> #[trigger] dtos@[i] == voice_dto_of(voices@[i]),
{
    let mut rest = voices;
    let ghost all = rest@;
    let n = rest.len();
    let mut reversed: Vec<Voice> = Vec::new();
    while rest.len() > 0
        invariant
            all.len() == n,
            rest@ == all.subrange(0, rest@.len() as int),
            reversed@.len() + rest@.len() == n,
            forall|k: int| 0 <= k < reversed@.len() ==> reversed@[k] == all[n - 1 - k],
        decreases rest@.len(),
    {
        let v = rest.pop().unwrap();
        reversed.push(v);
    }
    let mut out: Vec<VoiceDto> = Vec::new();
    while reversed.len() > 0
        invariant
            all.len() == n,
            out@.len() + reversed@.len() == n,
            forall|k: int| 0 <= k < reversed@.len() ==> reversed@[k] == all[n - 1 - k],
            forall|k: int| 0 <= k < out@.len() ==> #[trigger] out@[k] == voice_dto_of(all[k]),
        decreases reversed@.len(),
    {
        let v = reversed.pop().unwrap();
        out.push(VoiceDto::from(v));
    }
    out
}

/// Why a provider command could not proceed.
#[derive(Debug, Clone, Copy, PartialEq, Eq)]
pub enum CommandError {
    /// A voice was chosen but no API key is stored.
    NoApiKey,
    /// No provider has been configured for starting the engine.
    NoProviderForStart,
    /// No provider has been configured for listing voices.
    NoProvider,
}

/// The message the user interface shows for a command error.
pub open spec fn command_error_text(e: CommandError) -> Seq<char> {
    match e {
        CommandError::NoApiKey => "No API key stored. Re-enter credentials."@,
        CommandError::NoProviderForStart => "No provider configured. Set API key first."@,
        CommandError::NoProvider => "No provider configured."@,
    }
}

impl CommandError {
    /// The message the user interface shows.
    pub fn message(&self) -> (text: String)
        ensures
            text@ == command_error_text(*self),
    {
        match self {
            CommandError::NoApiKey => String::from_str("No API key stored. Re-enter credentials."),
            CommandError::NoProviderForStart => String::from_str(
                "No provider configured. Set API key first.",
            ),
            CommandError::NoProvider => String::from_str("No provider configured."),
        }
    }
}

/// The stored API key needed before a chosen voice can be used.
pub fn require_api_key(stored: Option<String>) -> (key: Result<String, CommandError>)
    ensures
        match stored {
            Some(k) => key == Ok::<String, CommandError>(k),
            None => key == Err::<String, CommandError>(CommandError::NoApiKey),
        },
{
    match stored {
        Some(k) => Ok(k),
        None => Err(CommandError::NoApiKey),
    }
}

/// The configured provider, needed to start the engine (`for_start`) or to
/// list voices.
pub fn require_provider<P>(provider: Option<P>, for_start: bool) -> (p: Result<P, CommandError>)
    ensures
        match provider {
            Some(x) => p == Ok::<P, CommandError>(x),
            None => p == Err::<P, CommandError>(
                if for_start {
                    CommandError::NoProviderForStart
                } else {
                    CommandError::NoProvider
                },
            ),
        },
{
    match provider {
        Some(x) => Ok(x),
        None => Err(
            if for_start {
                CommandError::NoProviderForStart
            } else {
                CommandError::NoProvider
            },
        ),
    }
}

/// Saved credentials restore a provider only when both the API key and the
/// voice are stored.
pub fn saved_credentials(api_key: Option<String>, voice_id: Option<String>) -> (both: Option<(String, String)>)
    ensures
        match (api_key, voice_id) {
            (Some(k), Some(v)) => both == Some((k, v)),
            _ => both is None,
        },
{
    match (api_key, voice_id) {
        (Some(k), Some(v)) => Some((k, v)),
        _ => None,
    }
}

} // verus!
