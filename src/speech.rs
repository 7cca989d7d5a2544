use vstd::prelude::*;
use base64::Engine;

verus! {

#[verifier::external_type_specification]
#[verifier::external_body]
pub struct ExDecodeError(base64::DecodeError);

/// The bytes that the standard, padded base64 alphabet decodes a text to,
/// or `None` when the text is not valid base64.
pub uninterp spec fn base64_decoded(s: Seq<char>) -> Option<Seq<u8>>;

/// Relies on `base64::engine::general_purpose::STANDARD.decode`: the decoded
/// bytes, or an error exactly when the text is not valid base64.
#[verifier::external_body]
fn decode_base64(s: &str) -> (r: Result<Vec<u8>, base64::DecodeError>)
    ensures
        match r {
            Ok(v) => base64_decoded(s@) == Some(v@),
            Err(_) => base64_decoded(s@) is None,
        },
{
    base64::engine::general_purpose::STANDARD.decode(s)
}

/// Why speaking a text failed; each is logged and never interrupts a turn.
#[derive(Clone, Copy, Debug, PartialEq, Eq, Structural)]
pub enum SpeechError {
    /// The synthesis request could not be sent.
    Request,
    /// The synthesis service answered with a non-success status code.
    Api(u16),
    /// The synthesis answer could not be read.
    Parse,
    /// The synthesis answer held no audio.
    MissingAudio,
    /// The audio was not valid base64.
    AudioDecode,
    /// The audio could not be played.
    Playback,
}

/// How a text is spoken.
#[derive(Clone, Copy, Debug, PartialEq, Eq, Structural)]
pub enum SpeechRoute {
    /// The cloud synthesis service, when a credential is configured.
    Cloud,
    /// The operating system's own voice.
    System,
}

/// Speech goes to the cloud service exactly when it has a credential.
pub fn speech_route(cloud_api_key: &Option<String>) -> (r: SpeechRoute)
    ensures
        r == (if cloud_api_key is Some { SpeechRoute::Cloud } else { SpeechRoute::System }),
{
    match cloud_api_key {
        Some(_) => SpeechRoute::Cloud,
        None => SpeechRoute::System,
    }
}

/// The cloud project used when none is configured.
pub const DEFAULT_SPEECH_PROJECT: &'static str = "clippy-tts";

pub const SYNTHESIS_URL_PREFIX: &'static str = "https://texttospeech.googleapis.com/v1/projects/";

pub const SYNTHESIS_URL_SUFFIX: &'static str = "/locations/global:synthesize";

/// The synthesis endpoint of the configured project (or the default one).
pub fn synthesis_url(project_id: &Option<String>) -> (r: String)
    ensures
        r@ == SYNTHESIS_URL_PREFIX@ + (match project_id {
            Some(p) => p@,
            None => DEFAULT_SPEECH_PROJECT@,
        }) + SYNTHESIS_URL_SUFFIX@,
{
    let mut url = String::from_str(SYNTHESIS_URL_PREFIX);
    match project_id {
        Some(p) => url.append(p.as_str()),
        None => url.append(DEFAULT_SPEECH_PROJECT),
    }
    url.append(SYNTHESIS_URL_SUFFIX);
    url
}

/// Decodes the base64 audio content of a synthesis answer.
pub fn decode_audio_content(content: &str) -> (r: Result<Vec<u8>, SpeechError>)
    ensures
        match r {
            Ok(v) => base64_decoded(content@) == Some(v@),
            Err(e) => e == SpeechError::AudioDecode && base64_decoded(content@) is None,
        },
{
    match decode_base64(content) {
        Ok(v) => Ok(v),
        Err(_) => Err(SpeechError::AudioDecode),
    }
}

} // verus!
