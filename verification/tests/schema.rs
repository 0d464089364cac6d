use privacy_mask::json::{Json, JsonNumber};
use privacy_mask::schema::{
    settings_from_json, settings_to_json, update_settings, updated_settings,
    SettingsValidationError,
};
use privacy_mask::settings::{AppSettings, ReplaceRule};

fn text(s: &str) -> Json {
    Json::Text(s.to_string())
}

fn number(n: JsonNumber) -> Json {
    Json::Number(n)
}

fn object(members: Vec<(&str, Json)>) -> Json {
    Json::Object(members.into_iter().map(|(k, v)| (k.to_string(), v)).collect())
}

fn rule(pattern: &str, replace: &str, flags: Option<&str>) -> ReplaceRule {
    ReplaceRule {
        pattern: pattern.to_string(),
        replace: replace.to_string(),
        flags: flags.map(|f| f.to_string()),
    }
}

fn rule_json(pattern: &str, replace: &str, flags: Json) -> Json {
    object(vec![("pattern", text(pattern)), ("replace", text(replace)), ("flags", flags)])
}

#[test]
fn record_is_written_with_camel_case_keys() {
    let mut s = AppSettings::default();
    s.whitelist_words = vec!["tokyo".to_string()];
    s.custom_replace_rules = vec![rule("a", "b", None), rule("c", "d", Some("i"))];
    let value = settings_to_json(&s);
    let keys: Vec<&str> = match &value {
        Json::Object(members) => members.iter().map(|(k, _)| k.as_str()).collect(),
        _ => panic!("a record is written as an object"),
    };
    assert_eq!(
        keys,
        vec![
            "settingsVersion",
            "securityMasterMode",
            "enableGemini",
            "noSave",
            "encryptTempFiles",
            "autoClearClipboard",
            "clearAllOnExit",
            "maskStrength",
            "maskPhone",
            "maskEmail",
            "maskAddress",
            "maskNumbers",
            "maskNames",
            "whitelistWords",
            "sendTextOnlyToGemini",
            "disableDataTraining",
            "regionPreference",
            "useByoKey",
            "saveEmailDisplayName",
            "shortLivedSession",
            "clearTokensOnLogout",
            "enableErrorLogs",
            "enableUsageStats",
            "autoDeleteLogsAfterDays",
            "enableDlpScan",
            "dlpAction",
            "offlineMode",
            "naturalizeExpressions",
            "autoPunctuation",
            "unifyForeignWords",
            "preserveOriginalProperNouns",
            "noSummaryOrEmbellishment",
            "customReplaceRules",
        ]
    );
    assert_eq!(value.get("settingsVersion"), Some(&Json::Number(JsonNumber::PosInt(1))));
    assert_eq!(value.get("autoDeleteLogsAfterDays"), Some(&Json::Number(JsonNumber::PosInt(90))));
    assert_eq!(value.get("dlpAction"), Some(&text("mask")));
    assert_eq!(value.get("maskNames"), Some(&Json::Bool(false)));
    assert_eq!(value.get("whitelistWords"), Some(&Json::Array(vec![text("tokyo")])));
    assert_eq!(
        value.get("customReplaceRules"),
        Some(&Json::Array(vec![rule_json("a", "b", Json::Null), rule_json("c", "d", text("i"))]))
    );
}

#[test]
fn written_record_reads_back() {
    let mut s = AppSettings::default();
    s.settings_version = 7;
    s.dlp_action = "warn".to_string();
    s.mask_names = true;
    s.whitelist_words = vec!["a".to_string(), "b".to_string()];
    s.custom_replace_rules = vec![rule("x", "y", Some("i")), rule("p", "q", None)];
    assert_eq!(settings_from_json(&settings_to_json(&s)), Ok(s));
    let fresh = AppSettings::default();
    assert_eq!(settings_from_json(&settings_to_json(&fresh)), Ok(fresh));
}

#[test]
fn rules_patch_replaces_the_whole_list() {
    let mut s = AppSettings::default();
    s.custom_replace_rules = vec![rule("rule1", "1", None), rule("rule2", "2", None)];
    let patch =
        object(vec![("customReplaceRules", Json::Array(vec![rule_json("ruleA", "A", Json::Null)]))]);
    let mut expected = s.clone();
    expected.custom_replace_rules = vec![rule("ruleA", "A", None)];
    assert_eq!(updated_settings(&s, &patch), Ok(expected.clone()));
    assert_eq!(update_settings(&mut s, &patch), Ok(()));
    assert_eq!(s, expected);
}

#[test]
fn two_rules_discard_a_third() {
    let mut s = AppSettings::default();
    s.custom_replace_rules = vec![rule("1", "a", None), rule("2", "b", None), rule("3", "c", None)];
    let patch = object(vec![(
        "customReplaceRules",
        Json::Array(vec![
            rule_json("x", "y", text("i")),
            object(vec![("pattern", text("p")), ("replace", text("q"))]),
        ]),
    )]);
    assert_eq!(update_settings(&mut s, &patch), Ok(()));
    assert_eq!(s.custom_replace_rules, vec![rule("x", "y", Some("i")), rule("p", "q", None)]);
}

#[test]
fn patch_touches_only_what_it_names() {
    let mut s = AppSettings::default();
    let patch = object(vec![
        ("maskEmail", Json::Bool(false)),
        ("dlpAction", text("block")),
        ("autoDeleteLogsAfterDays", Json::Number(JsonNumber::PosInt(30))),
        ("whitelistWords", Json::Array(vec![text("kyoto")])),
    ]);
    let mut expected = AppSettings::default();
    expected.mask_email = false;
    expected.dlp_action = "block".to_string();
    expected.auto_delete_logs_after_days = 30;
    expected.whitelist_words = vec!["kyoto".to_string()];
    assert_eq!(update_settings(&mut s, &patch), Ok(()));
    assert_eq!(s, expected);
    assert_eq!(update_settings(&mut s, &object(vec![])), Ok(()));
    assert_eq!(s, expected);
}

#[test]
fn unknown_members_are_ignored() {
    let mut s = AppSettings::default();
    let patch = object(vec![("theme", text("dark")), ("maskPhone", Json::Bool(false))]);
    assert_eq!(update_settings(&mut s, &patch), Ok(()));
    let mut expected = AppSettings::default();
    expected.mask_phone = false;
    assert_eq!(s, expected);
}

#[test]
fn ill_typed_patch_is_rejected_and_changes_nothing() {
    let mut s = AppSettings::default();
    s.dlp_action = "warn".to_string();
    let before = s.clone();
    let cases = vec![
        (object(vec![("maskEmail", text("yes"))]), "maskEmail"),
        (object(vec![("settingsVersion", number(JsonNumber::NegInt(-1)))]), "settingsVersion"),
        (object(vec![("settingsVersion", number(JsonNumber::PosInt(1 << 32)))]), "settingsVersion"),
        (
            object(vec![("autoDeleteLogsAfterDays", number(JsonNumber::Float(0x4000000000000000)))]),
            "autoDeleteLogsAfterDays",
        ),
        (object(vec![("dlpAction", Json::Null)]), "dlpAction"),
        (
            object(vec![("whitelistWords", Json::Array(vec![text("a"), Json::Bool(true)]))]),
            "whitelistWords",
        ),
        (object(vec![("whitelistWords", text("a"))]), "whitelistWords"),
        (object(vec![("customReplaceRules", Json::Array(vec![text("a")]))]), "customReplaceRules"),
        (
            object(vec![(
                "customReplaceRules",
                Json::Array(vec![object(vec![("pattern", text("a"))])]),
            )]),
            "customReplaceRules",
        ),
        (
            object(vec![(
                "customReplaceRules",
                Json::Array(vec![rule_json("a", "b", Json::Bool(true))]),
            )]),
            "customReplaceRules",
        ),
        (object(vec![("offlineMode", Json::Null), ("maskNames", Json::Null)]), "maskNames"),
    ];
    for (patch, field) in cases {
        assert_eq!(update_settings(&mut s, &patch), Err(SettingsValidationError::BadField(field)));
        assert_eq!(s, before);
    }
}

#[test]
fn patch_that_is_no_object_is_rejected() {
    let mut s = AppSettings::default();
    for patch in [Json::Null, Json::Bool(true), text("x"), Json::Array(vec![])] {
        assert_eq!(update_settings(&mut s, &patch), Err(SettingsValidationError::NotAnObject));
        assert_eq!(s, AppSettings::default());
    }
}

#[test]
fn missing_member_is_named() {
    let mut members = match settings_to_json(&AppSettings::default()) {
        Json::Object(members) => members,
        _ => panic!("a record is written as an object"),
    };
    members.retain(|(k, _)| k != "regionPreference" && k != "offlineMode");
    assert_eq!(
        settings_from_json(&Json::Object(members)),
        Err(SettingsValidationError::BadField("regionPreference"))
    );
    assert_eq!(
        settings_from_json(&object(vec![])),
        Err(SettingsValidationError::BadField("settingsVersion"))
    );
    assert_eq!(settings_from_json(&Json::Null), Err(SettingsValidationError::NotAnObject));
}

#[test]
fn largest_count_is_accepted() {
    let mut s = AppSettings::default();
    let patch = object(vec![("settingsVersion", Json::Number(JsonNumber::PosInt(4294967295)))]);
    assert_eq!(update_settings(&mut s, &patch), Ok(()));
    assert_eq!(s.settings_version, u32::MAX);
}
