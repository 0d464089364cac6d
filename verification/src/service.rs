//! The decisions that surround the calls to the transcription and the
//! formatting service. The calls themselves are made by the application; the
//! library says whether a call is due, what is sent, and what a reply means.

use crate::instructions::{build_gemini_instructions, instructions};
use crate::keys::opt_text;
use crate::settings::{AppSettings, SettingsView};
use vstd::prelude::*;
use vstd::string::*;

verus! {

/// What a transcription returns when no key for the service is configured.
pub const TRANSCRIPTION_DEMO_NOTICE: &'static str = "(demo: STT disabled; set GROQ_API_KEY)";

/// Where audio is sent for transcription.
pub const TRANSCRIPTION_ENDPOINT: &'static str =
    "https://api.groq.com/openai/v1/audio/transcriptions";

/// The transcription model.
pub const TRANSCRIPTION_MODEL: &'static str = "whisper-large-v3";

/// The file name and the media type under which audio is sent.
pub const AUDIO_FILE_NAME: &'static str = "audio.webm";

pub const AUDIO_MEDIA_TYPE: &'static str = "audio/webm";

/// The formatting model.
pub const FORMATTING_MODEL: &'static str = "gemini-1.5-flash-latest";

pub const FORMATTING_URL_HEAD: &'static str =
    "https://generativelanguage.googleapis.com/v1beta/models/";

pub const FORMATTING_URL_CALL: &'static str = ":generateContent?key=";

pub const TRANSCRIPTION_FAILURE_HEAD: &'static str = "STT HTTP ";

pub const FORMATTING_FAILURE_HEAD: &'static str = "Gemini HTTP ";

/// The bytes that `base64::decode` yields for `text`; `None` where it
/// reports an error.
pub uninterp spec fn base64_decoded(text: Seq<char>) -> Option<Seq<u8>>;

/// `base64::DecodeError`, declared so that a decoding error can be carried
/// from the decoder to the function that renders it. Nothing is known of its
/// contents.
#[verifier::external_type_specification]
#[verifier::external_body]
pub struct ExDecodeError(base64::DecodeError);

/// Calls `base64::decode`, the standard alphabet with padding.
///
/// Trusted: the outcome is the one named by [`base64_decoded`].
#[verifier::external_body]
#[allow(deprecated)]
fn engine_decode(text: &str) -> (out: Result<Vec<u8>, base64::DecodeError>)
    ensures
        match out {
            Ok(bytes) => base64_decoded(text@) == Some(bytes@),
            Err(_) => base64_decoded(text@) is None,
        },
{
    base64::decode(text)
}

/// Renders a decoding error with its `Display` impl. Nothing is claimed of
/// the text.
#[verifier::external_body]
fn engine_error_text(error: &base64::DecodeError) -> (text: String) {
    error.to_string()
}

/// Audio that could not be decoded.
#[derive(Debug, Clone, PartialEq, Eq)]
pub struct AudioError {
    /// What the decoder reported.
    pub detail: String,
}

/// Decodes the base64 text in which recorded audio arrives.
pub fn decode_audio(audio_b64: &str) -> (out: Result<Vec<u8>, AudioError>)
    ensures
        match out {
            Ok(bytes) => base64_decoded(audio_b64@) == Some(bytes@),
            Err(_) => base64_decoded(audio_b64@) is None,
        },
{
    match engine_decode(audio_b64) {
        Ok(bytes) => Ok(bytes),
        Err(e) => Err(AudioError { detail: engine_error_text(&e) }),
    }
}

/// The key to use for a service: the one from the environment where there is
/// one, the stored one otherwise.
pub fn resolve_api_key(from_environment: Option<String>, stored: Option<String>) -> (key: Option<
    String,
>)
    ensures
        opt_text(key) == match from_environment {
            Some(k) => Some(k@),
            None => opt_text(stored),
        },
{
    match from_environment {
        Some(k) => Some(k),
        None => stored,
    }
}

/// What to do with a transcription request before any audio is sent.
#[derive(Debug, Clone, PartialEq, Eq)]
pub enum TranscriptionGate {
    /// No call is made; this text is the result.
    Finished(String),
    /// The audio is sent, with this key.
    Send(String),
}

/// Mathematical model of a [`TranscriptionGate`].
pub ghost enum TranscriptionGateView {
    Finished(Seq<char>),
    Send(Seq<char>),
}

impl View for TranscriptionGate {
    type V = TranscriptionGateView;

    open spec fn view(&self) -> TranscriptionGateView {
        match self {
            TranscriptionGate::Finished(t) => TranscriptionGateView::Finished(t@),
            TranscriptionGate::Send(k) => TranscriptionGateView::Send(k@),
        }
    }
}

/// Offline, a transcription is empty. Without a key it is the demo notice.
/// Otherwise the audio is sent.
pub open spec fn transcription_decision(
    s: SettingsView,
    api_key: Option<Seq<char>>,
) -> TranscriptionGateView {
    if s.offline_mode {
        TranscriptionGateView::Finished(Seq::empty())
    } else {
        match api_key {
            None => TranscriptionGateView::Finished(TRANSCRIPTION_DEMO_NOTICE@),
            Some(k) => TranscriptionGateView::Send(k),
        }
    }
}

/// Decides whether a transcription request leads to a call.
pub fn transcription_gate(settings: &AppSettings, api_key: Option<String>) -> (gate:
    TranscriptionGate)
    ensures
        gate@ == transcription_decision(settings@, opt_text(api_key)),
{
    if settings.offline_mode {
        return TranscriptionGate::Finished(String::new());
    }
    match api_key {
        None => TranscriptionGate::Finished(String::from_str(TRANSCRIPTION_DEMO_NOTICE)),
        Some(k) => TranscriptionGate::Send(k),
    }
}

/// The error text for a transcription reply whose status is no success.
pub fn transcription_failure(status: &str) -> (message: String)
    ensures
        message@ == TRANSCRIPTION_FAILURE_HEAD@ + status@,
{
    let mut message = String::from_str(TRANSCRIPTION_FAILURE_HEAD);
    message.append(status);
    message
}

/// The error text for a formatting reply whose status is no success.
pub fn formatting_failure(status: &str) -> (message: String)
    ensures
        message@ == FORMATTING_FAILURE_HEAD@ + status@,
{
    let mut message = String::from_str(FORMATTING_FAILURE_HEAD);
    message.append(status);
    message
}

/// What is sent to the formatting model.
#[derive(Debug, Clone, PartialEq, Eq)]
pub struct FormattingRequest {
    /// The address of the call, with the model and the key in it.
    pub url: String,
    /// The text to format, sent in the user role.
    pub text: String,
    /// The system instructions.
    pub instructions: String,
}

/// What to do with a formatting request.
#[derive(Debug, Clone, PartialEq, Eq)]
pub enum FormattingGate {
    /// No call is made; the text is returned as it came.
    Unchanged(String),
    /// The call is made.
    Call(FormattingRequest),
}

/// Mathematical model of a [`FormattingGate`].
pub ghost enum FormattingGateView {
    Unchanged(Seq<char>),
    Call { url: Seq<char>, text: Seq<char>, instructions: Seq<char> },
}

impl View for FormattingGate {
    type V = FormattingGateView;

    open spec fn view(&self) -> FormattingGateView {
        match self {
            FormattingGate::Unchanged(t) => FormattingGateView::Unchanged(t@),
            FormattingGate::Call(r) => FormattingGateView::Call {
                url: r.url@,
                text: r.text@,
                instructions: r.instructions@,
            },
        }
    }
}

/// The address of a formatting call made with `key`.
pub open spec fn formatting_url(key: Seq<char>) -> Seq<char> {
    FORMATTING_URL_HEAD@ + FORMATTING_MODEL@ + FORMATTING_URL_CALL@ + key
}

/// With formatting switched off, offline, or without a key, the text stays
/// as it is. Otherwise it is sent with the instructions built from the
/// settings.
pub open spec fn formatting_decision(
    s: SettingsView,
    api_key: Option<Seq<char>>,
    text: Seq<char>,
) -> FormattingGateView {
    if !s.enable_gemini || s.offline_mode {
        FormattingGateView::Unchanged(text)
    } else {
        match api_key {
            None => FormattingGateView::Unchanged(text),
            Some(k) => FormattingGateView::Call {
                url: formatting_url(k),
                text: text,
                instructions: instructions(s),
            },
        }
    }
}

/// Decides whether a formatting request leads to a call, and builds the call.
pub fn formatting_gate(settings: &AppSettings, api_key: Option<String>, text: String) -> (gate:
    FormattingGate)
    ensures
        gate@ == formatting_decision(settings@, opt_text(api_key), text@),
{
    if !settings.enable_gemini || settings.offline_mode {
        return FormattingGate::Unchanged(text);
    }
    match api_key {
        None => FormattingGate::Unchanged(text),
        Some(k) => {
            let mut url = String::from_str(FORMATTING_URL_HEAD);
            url.append(FORMATTING_MODEL);
            url.append(FORMATTING_URL_CALL);
            url.append(k.as_str());
            FormattingGate::Call(
                FormattingRequest { url, text, instructions: build_gemini_instructions(settings) },
            )
        },
    }
}

/// One part of a candidate reply.
#[derive(Debug, Clone, PartialEq, Eq)]
pub struct ReplyPart {
    pub text: Option<String>,
}

/// The content of a candidate reply.
#[derive(Debug, Clone, PartialEq, Eq)]
pub struct ReplyContent {
    pub parts: Option<Vec<ReplyPart>>,
}

/// One candidate of a formatting reply.
#[derive(Debug, Clone, PartialEq, Eq)]
pub struct ReplyCandidate {
    pub content: Option<ReplyContent>,
}

/// The text of the first part, from `from` on, that has one; empty where
/// none has.
pub open spec fn first_text(parts: Seq<ReplyPart>, from: int) -> Seq<char>
    decreases parts.len() - from,
{
    if 0 <= from < parts.len() {
        match parts[from].text {
            Some(t) => t@,
            None => first_text(parts, from + 1),
        }
    } else {
        Seq::empty()
    }
}

/// The text of one candidate: that of its first part with a text.
pub open spec fn candidate_text(candidate: ReplyCandidate) -> Seq<char> {
    match candidate.content {
        Some(content) => match content.parts {
            Some(parts) => first_text(parts@, 0),
            None => Seq::empty(),
        },
        None => Seq::empty(),
    }
}

/// The text of a reply: that of its last candidate; empty where there is no
/// candidate.
pub open spec fn reply_text(candidates: Option<Vec<ReplyCandidate>>) -> Seq<char> {
    match candidates {
        Some(list) => if list@.len() > 0 {
            candidate_text(list@.last())
        } else {
            Seq::empty()
        },
        None => Seq::empty(),
    }
}

/// Picks the formatted text out of a reply of the formatting model.
pub fn pick_reply_text(candidates: Option<Vec<ReplyCandidate>>) -> (text: String)
    ensures
        text@ == reply_text(candidates),
{
    let mut list = match candidates {
        Some(list) => list,
        None => {
            return String::new();
        },
    };
    let last = match list.pop() {
        Some(candidate) => candidate,
        None => {
            return String::new();
        },
    };
    let content = match last.content {
        Some(content) => content,
        None => {
            return String::new();
        },
    };
    let parts = match content.parts {
        Some(parts) => parts,
        None => {
            return String::new();
        },
    };
    let mut i: usize = 0;
    while i < parts.len()
        invariant
            i <= parts.len(),
            reply_text(candidates) == first_text(parts@, 0),
            first_text(parts@, 0) == first_text(parts@, i as int),
        decreases parts.len() - i,
    {
        match &parts[i].text {
            Some(t) => {
                return t.clone();
            },
            None => {},
        }
        i = i + 1;
    }
    String::new()
}

} // verus!
