use privacy_mask::masking::{
    apply_custom_rules, dlp_gate, mask_builtin, mask_text, rule_pattern, DlpBlocked, DlpVerdict,
    MaskedText,
};
use privacy_mask::settings::{AppSettings, ReplaceRule};

fn quiet_settings() -> AppSettings {
    let mut s = AppSettings::default();
    s.enable_dlp_scan = false;
    s.mask_email = false;
    s.mask_phone = false;
    s.mask_numbers = false;
    s
}

fn rule(pattern: &str, replace: &str, flags: Option<&str>) -> ReplaceRule {
    ReplaceRule {
        pattern: pattern.to_string(),
        replace: replace.to_string(),
        flags: flags.map(|f| f.to_string()),
    }
}

#[test]
fn masks_email_and_phone() {
    let mut s = quiet_settings();
    s.mask_email = true;
    s.mask_phone = true;
    let out = mask_text(&s, "Contact me at a@b.com or 090-1234-5678");
    assert_eq!(
        out,
        Ok(MaskedText { text: "Contact me at ＜メール＞ or ＜電話番号＞".to_string(), warned: false })
    );
}

#[test]
fn block_rejects_sensitive_text() {
    let mut s = quiet_settings();
    s.mask_email = true;
    s.mask_phone = true;
    s.enable_dlp_scan = true;
    s.dlp_action = "block".to_string();
    let out = mask_text(&s, "Contact me at a@b.com or 090-1234-5678");
    assert_eq!(out, Err(DlpBlocked));
    assert_eq!(out.unwrap_err().message(), "DLP block");
}

#[test]
fn masks_long_digit_run() {
    let mut s = quiet_settings();
    s.mask_numbers = true;
    let out = mask_text(&s, "ID 123456789").unwrap();
    assert_eq!(out.text, "ID ＜数列＞");
    assert!(!out.warned);
}

#[test]
fn placeholder_text_is_left_alone() {
    let s = AppSettings::default();
    let masked = "＜メール＞ と ＜電話番号＞ と ＜数列＞";
    let out = mask_text(&s, masked).unwrap();
    assert_eq!(out.text, masked);
    assert!(!out.warned);
}

#[test]
fn masking_twice_changes_nothing_more() {
    let s = AppSettings::default();
    let once = mask_text(&s, "mail a@b.com, tel 090-1234-5678, id 123456789").unwrap();
    let twice = mask_text(&s, &once.text).unwrap();
    assert_eq!(twice.text, once.text);
}

#[test]
fn masked_email_leaves_no_address() {
    let mut s = quiet_settings();
    s.mask_email = true;
    let out = mask_text(&s, "to First.Last+tag@Example.CO.JP and x_y%z@sub-domain.example.org now")
        .unwrap();
    assert_eq!(out.text, "to ＜メール＞ and ＜メール＞ now");
    assert!(out.text.contains("＜メール＞"));
    assert!(!out.text.contains('@'));
}

#[test]
fn block_covers_every_detector() {
    let mut s = quiet_settings();
    s.enable_dlp_scan = true;
    s.dlp_action = "block".to_string();
    for text in ["write to a@b.com", "call 090-1234-5678", "ID 123456789"] {
        let out = mask_text(&s, text);
        assert_eq!(out, Err(DlpBlocked));
        let message = out.unwrap_err().message();
        assert_eq!(message, "DLP block");
        assert!(!message.contains(text));
    }
}

#[test]
fn block_lets_harmless_text_through() {
    let mut s = quiet_settings();
    s.enable_dlp_scan = true;
    s.dlp_action = "block".to_string();
    let out = mask_text(&s, "nothing to see here");
    assert_eq!(out, Ok(MaskedText { text: "nothing to see here".to_string(), warned: false }));
}

#[test]
fn block_is_ignored_when_scanning_is_off() {
    let mut s = quiet_settings();
    s.dlp_action = "block".to_string();
    s.mask_email = true;
    let out = mask_text(&s, "write to a@b.com").unwrap();
    assert_eq!(out.text, "write to ＜メール＞");
    assert!(!out.warned);
}

#[test]
fn warn_masks_and_raises_the_flag() {
    let mut s = AppSettings::default();
    s.dlp_action = "warn".to_string();
    let out = mask_text(&s, "write to a@b.com").unwrap();
    assert_eq!(out.text, "write to ＜メール＞");
    assert!(out.warned);
    let calm = mask_text(&s, "nothing to see here").unwrap();
    assert_eq!(calm.text, "nothing to see here");
    assert!(!calm.warned);
}

#[test]
fn gate_verdicts() {
    let mut s = AppSettings::default();
    assert_eq!(dlp_gate(&s, "a@b.com"), DlpVerdict::Proceed);
    s.dlp_action = "warn".to_string();
    assert_eq!(dlp_gate(&s, "a@b.com"), DlpVerdict::Warn);
    assert_eq!(dlp_gate(&s, "hello"), DlpVerdict::Proceed);
    s.dlp_action = "block".to_string();
    assert_eq!(dlp_gate(&s, "tel 03-1234-5678"), DlpVerdict::Blocked);
    assert_eq!(dlp_gate(&s, "hello"), DlpVerdict::Proceed);
    s.dlp_action = "BLOCK".to_string();
    assert_eq!(dlp_gate(&s, "a@b.com"), DlpVerdict::Proceed);
    s.dlp_action = "block".to_string();
    s.enable_dlp_scan = false;
    assert_eq!(dlp_gate(&s, "a@b.com"), DlpVerdict::Proceed);
}

#[test]
fn custom_rule_sees_the_placeholder() {
    let mut s = quiet_settings();
    s.mask_email = true;
    s.custom_replace_rules = vec![rule("＜メール＞", "[email removed]", None)];
    let out = mask_text(&s, "write to a@b.com please").unwrap();
    assert_eq!(out.text, "write to [email removed] please");
}

#[test]
fn custom_rules_run_with_every_toggle_off() {
    let mut s = quiet_settings();
    s.custom_replace_rules = vec![rule("secret", "******", None)];
    let out = mask_text(&s, "the secret plan, a@b.com").unwrap();
    assert_eq!(out.text, "the ****** plan, a@b.com");
}

#[test]
fn custom_rules_apply_in_list_order() {
    let mut s = quiet_settings();
    s.custom_replace_rules = vec![rule("a", "b", None), rule("b", "c", None)];
    assert_eq!(apply_custom_rules(&s, "aab"), "ccc");
    s.custom_replace_rules = vec![rule("b", "c", None), rule("a", "b", None)];
    assert_eq!(apply_custom_rules(&s, "aab"), "bbc");
}

#[test]
fn rule_that_does_not_compile_is_skipped() {
    let mut s = quiet_settings();
    s.custom_replace_rules =
        vec![rule("x", "y", None), rule("(unclosed", "!", None), rule("y", "z", None)];
    assert_eq!(apply_custom_rules(&s, "x(unclosed"), "z(unclosed");
    s.custom_replace_rules = vec![rule("x", "y", Some("q"))];
    assert_eq!(apply_custom_rules(&s, "x"), "x");
}

#[test]
fn rule_flags_become_an_inline_group() {
    let plain = rule("tokyo", "T", None);
    let folded = rule("tokyo", "T", Some("i"));
    assert_eq!(rule_pattern(&plain), "tokyo");
    assert_eq!(rule_pattern(&folded), "(?i)tokyo");
    let mut s = quiet_settings();
    s.custom_replace_rules = vec![plain];
    assert_eq!(apply_custom_rules(&s, "Tokyo tokyo"), "Tokyo T");
    s.custom_replace_rules = vec![folded];
    assert_eq!(apply_custom_rules(&s, "Tokyo tokyo"), "T T");
}

#[test]
fn rule_replacement_may_name_groups() {
    let mut s = quiet_settings();
    s.custom_replace_rules = vec![rule(r"(\w+)-(\w+)", "$2-$1", None)];
    assert_eq!(apply_custom_rules(&s, "left-right up-down"), "right-left down-up");
}

#[test]
fn no_rules_no_change() {
    let s = quiet_settings();
    assert_eq!(apply_custom_rules(&s, "a@b.com 123456789"), "a@b.com 123456789");
    assert_eq!(mask_text(&s, "a@b.com 123456789").unwrap().text, "a@b.com 123456789");
    assert_eq!(mask_text(&s, "").unwrap().text, "");
}

#[test]
fn builtin_stages_follow_the_toggles() {
    let text = "a@b.com 090-1234-5678 1234567";
    let mut s = quiet_settings();
    assert_eq!(mask_builtin(&s, text.to_string()), text);
    s.mask_email = true;
    assert_eq!(mask_builtin(&s, text.to_string()), "＜メール＞ 090-1234-5678 1234567");
    s.mask_email = false;
    s.mask_numbers = true;
    assert_eq!(mask_builtin(&s, text.to_string()), "a@b.com 090-1234-5678 ＜数列＞");
    s.mask_numbers = false;
    s.mask_phone = true;
    assert_eq!(mask_builtin(&s, text.to_string()), "a@b.com ＜電話番号＞");
}

#[test]
fn address_and_name_toggles_have_no_effect() {
    let mut s = AppSettings::default();
    let text = "東京都千代田区1-1 山田太郎 a@b.com";
    s.mask_address = true;
    s.mask_names = true;
    let with = mask_text(&s, text).unwrap();
    s.mask_address = false;
    s.mask_names = false;
    let without = mask_text(&s, text).unwrap();
    assert_eq!(with, without);
    assert_eq!(with.text, "東京都千代田区1-1 山田太郎 ＜メール＞");
}

#[test]
fn japanese_text_around_spans_is_kept() {
    let s = AppSettings::default();
    let out = mask_text(&s, "連絡先はtaro@example.jpです。電話は03-1234-5678。").unwrap();
    assert_eq!(out.text, "連絡先は＜メール＞です。電話は＜電話番号＞。");
}
