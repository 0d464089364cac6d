use privacy_mask::instructions::build_gemini_instructions;
use privacy_mask::settings::{AppSettings, ReplaceRule};

#[test]
fn default_instructions() {
    let s = AppSettings::default();
    let expected = [
        "あなたは入力テキストを自然な文に整形します。",
        "不自然な口語のつなぎを自然に置換します。",
        "句読点を適切に挿入します。",
        "外来語の表記を統一します（全角/半角の揺れも統一）。",
        "固有名詞は原文のまま保持します。",
        "要約や脚色はしません。事実の追加・削除も行いません。",
        "出力は入力と同じ言語で返してください。",
    ]
    .join("\n");
    assert_eq!(build_gemini_instructions(&s), expected);
}

#[test]
fn switched_off_lines_are_left_out() {
    let mut s = AppSettings::default();
    s.naturalize_expressions = false;
    s.auto_punctuation = false;
    s.unify_foreign_words = false;
    s.preserve_original_proper_nouns = false;
    s.no_summary_or_embellishment = false;
    assert_eq!(
        build_gemini_instructions(&s),
        "あなたは入力テキストを自然な文に整形します。\n出力は入力と同じ言語で返してください。"
    );
    s.auto_punctuation = true;
    assert_eq!(
        build_gemini_instructions(&s),
        "あなたは入力テキストを自然な文に整形します。\n句読点を適切に挿入します。\n出力は入力と同じ言語で返してください。"
    );
}

#[test]
fn each_rule_adds_a_line() {
    let mut s = AppSettings::default();
    s.naturalize_expressions = false;
    s.auto_punctuation = false;
    s.unify_foreign_words = false;
    s.preserve_original_proper_nouns = false;
    s.no_summary_or_embellishment = false;
    s.custom_replace_rules = vec![
        ReplaceRule { pattern: "foo".to_string(), replace: "bar".to_string(), flags: None },
        ReplaceRule {
            pattern: "".to_string(),
            replace: "".to_string(),
            flags: Some("i".to_string()),
        },
    ];
    assert_eq!(
        build_gemini_instructions(&s),
        "あなたは入力テキストを自然な文に整形します。\n出力は入力と同じ言語で返してください。\n次の置換規則を適用: /foo/ -> bar\n次の置換規則を適用: // -> "
    );
}
