use privacy_mask::keys::{Keys, KeysPresence};

fn keys(groq: Option<&str>, gemini: Option<&str>) -> Keys {
    Keys {
        groq_api_key: groq.map(|k| k.to_string()),
        gemini_api_key: gemini.map(|k| k.to_string()),
    }
}

#[test]
fn default_keys_are_absent() {
    assert_eq!(Keys::default(), keys(None, None));
    assert_eq!(KeysPresence::default(), KeysPresence { has_groq: false, has_gemini: false });
    assert!(Keys::default().is_blank());
}

#[test]
fn presence_reports_what_is_set() {
    let presence = |has_groq, has_gemini| KeysPresence { has_groq, has_gemini };
    assert_eq!(keys(Some("g"), None).presence(), presence(true, false));
    assert_eq!(keys(None, Some("m")).presence(), presence(false, true));
    assert_eq!(keys(Some(""), Some("")).presence(), presence(true, true));
    assert_eq!(keys(None, None).presence(), presence(false, false));
}

#[test]
fn update_takes_only_keys_that_are_not_empty() {
    let stored = keys(Some("old-groq"), None);
    assert_eq!(
        stored.clone().updated_with(keys(Some("new"), Some("gem"))),
        keys(Some("new"), Some("gem"))
    );
    assert_eq!(stored.clone().updated_with(keys(Some(""), None)), keys(Some("old-groq"), None));
    assert_eq!(stored.clone().updated_with(keys(None, Some(""))), keys(Some("old-groq"), None));
    assert_eq!(stored.updated_with(keys(None, Some("gem"))), keys(Some("old-groq"), Some("gem")));
}

#[test]
fn clear_names_one_key_or_both() {
    let stored = keys(Some("a"), Some("b"));
    assert_eq!(stored.clone().cleared(Some("groq")), keys(None, Some("b")));
    assert_eq!(stored.clone().cleared(Some("gemini")), keys(Some("a"), None));
    assert_eq!(stored.clone().cleared(None), keys(None, None));
    assert_eq!(stored.clone().cleared(Some("all")), keys(None, None));
    assert_eq!(stored.cleared(Some("Groq")), keys(None, None));
}

#[test]
fn blank_keys_are_not_stored() {
    assert!(keys(None, None).is_blank());
    assert!(keys(Some(""), None).is_blank());
    assert!(keys(Some(""), Some("")).is_blank());
    assert!(!keys(Some("a"), None).is_blank());
    assert!(!keys(None, Some("b")).is_blank());
    assert!(keys(Some("a"), Some("b")).cleared(None).is_blank());
}
