use privacy_mask::instructions::build_gemini_instructions;
use privacy_mask::service::{
    decode_audio, formatting_failure, formatting_gate, pick_reply_text, resolve_api_key,
    transcription_failure, transcription_gate, FormattingGate, FormattingRequest, ReplyCandidate,
    ReplyContent, ReplyPart, TranscriptionGate,
};
use privacy_mask::settings::AppSettings;

fn candidate(parts: Vec<Option<&str>>) -> ReplyCandidate {
    ReplyCandidate {
        content: Some(ReplyContent {
            parts: Some(
                parts.into_iter().map(|t| ReplyPart { text: t.map(|s| s.to_string()) }).collect(),
            ),
        }),
    }
}

#[test]
fn audio_is_decoded_from_base64() {
    assert_eq!(decode_audio("aGVsbG8="), Ok(b"hello".to_vec()));
    assert_eq!(decode_audio(""), Ok(vec![]));
    assert_eq!(decode_audio("AAEC/w=="), Ok(vec![0, 1, 2, 255]));
}

#[test]
fn broken_audio_is_an_error() {
    let error = decode_audio("not base64!").unwrap_err();
    assert!(!error.detail.is_empty());
    assert!(decode_audio("aGVsbG8").is_err());
}

#[test]
fn environment_key_wins() {
    let key = |k: &str| Some(k.to_string());
    assert_eq!(resolve_api_key(key("env"), key("file")), key("env"));
    assert_eq!(resolve_api_key(None, key("file")), key("file"));
    assert_eq!(resolve_api_key(key(""), key("file")), key(""));
    assert_eq!(resolve_api_key(None, None), None);
}

#[test]
fn transcription_gate_decides() {
    let mut s = AppSettings::default();
    assert_eq!(
        transcription_gate(&s, None),
        TranscriptionGate::Finished("(demo: STT disabled; set GROQ_API_KEY)".to_string())
    );
    let key = Some("k".to_string());
    assert_eq!(transcription_gate(&s, key.clone()), TranscriptionGate::Send("k".to_string()));
    s.offline_mode = true;
    assert_eq!(transcription_gate(&s, key), TranscriptionGate::Finished(String::new()));
    assert_eq!(transcription_gate(&s, None), TranscriptionGate::Finished(String::new()));
}

#[test]
fn formatting_gate_decides() {
    let mut s = AppSettings::default();
    let unchanged = FormattingGate::Unchanged("text".to_string());
    assert_eq!(formatting_gate(&s, None, "text".to_string()), unchanged);
    assert_eq!(
        formatting_gate(&s, Some("KEY".to_string()), "text".to_string()),
        FormattingGate::Call(FormattingRequest {
            url: "https://generativelanguage.googleapis.com/v1beta/models/\
                  gemini-1.5-flash-latest:generateContent?key=KEY"
                .to_string(),
            text: "text".to_string(),
            instructions: build_gemini_instructions(&s),
        })
    );
    s.offline_mode = true;
    assert_eq!(
        formatting_gate(&s, Some("KEY".to_string()), "text".to_string()),
        FormattingGate::Unchanged("text".to_string())
    );
    s.offline_mode = false;
    s.enable_gemini = false;
    assert_eq!(
        formatting_gate(&s, Some("KEY".to_string()), "text".to_string()),
        FormattingGate::Unchanged("text".to_string())
    );
}

#[test]
fn failure_messages() {
    assert_eq!(transcription_failure("401 Unauthorized"), "STT HTTP 401 Unauthorized");
    assert_eq!(
        formatting_failure("500 Internal Server Error"),
        "Gemini HTTP 500 Internal Server Error"
    );
}

#[test]
fn reply_text_comes_from_the_last_candidate() {
    assert_eq!(pick_reply_text(None), "");
    assert_eq!(pick_reply_text(Some(vec![])), "");
    assert_eq!(pick_reply_text(Some(vec![candidate(vec![Some("one")])])), "one");
    let first = candidate(vec![Some("first")]);
    let last = candidate(vec![None, Some("second"), Some("third")]);
    assert_eq!(pick_reply_text(Some(vec![first.clone(), last])), "second");
    assert_eq!(pick_reply_text(Some(vec![first.clone(), candidate(vec![None])])), "");
    assert_eq!(pick_reply_text(Some(vec![first, ReplyCandidate { content: None }])), "");
    assert_eq!(
        pick_reply_text(Some(vec![ReplyCandidate { content: Some(ReplyContent { parts: None }) }])),
        ""
    );
    assert_eq!(pick_reply_text(Some(vec![candidate(vec![])])), "");
}
