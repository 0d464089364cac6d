use privacy_mask::pattern::{
    check_detectors, detect_any, find, replace_all, substitute, Category, EMAIL_PLACEHOLDER,
    NUMBER_SEQ_PLACEHOLDER, PHONE_PLACEHOLDER,
};

#[test]
fn built_in_detectors_compile() {
    assert!(check_detectors());
}

#[test]
fn email_detector() {
    assert!(detect_any(Category::Email, "a@b.com"));
    assert!(detect_any(Category::Email, "MAIL: USER@EXAMPLE.ORG"));
    assert!(!detect_any(Category::Email, "a@b"));
    assert!(!detect_any(Category::Email, "a@b.c"));
    assert!(!detect_any(Category::Email, "no address here"));
}

#[test]
fn phone_detector() {
    assert!(detect_any(Category::Phone, "090-1234-5678"));
    assert!(detect_any(Category::Phone, "+81 (90) 1234 5678"));
    assert!(detect_any(Category::Phone, "1234"));
    assert!(!detect_any(Category::Phone, "123"));
    assert!(!detect_any(Category::Phone, "no digits"));
}

#[test]
fn number_sequence_detector() {
    assert!(detect_any(Category::NumberSequence, "123456"));
    assert!(detect_any(Category::NumberSequence, "x1234567y"));
    assert!(!detect_any(Category::NumberSequence, "12345"));
    assert!(!detect_any(Category::NumberSequence, "123 456"));
}

#[test]
fn replace_all_substitutes_every_span() {
    assert_eq!(
        replace_all(Category::Email, "a@b.com, c@d.org".to_string(), EMAIL_PLACEHOLDER),
        "＜メール＞, ＜メール＞"
    );
    assert_eq!(
        replace_all(Category::NumberSequence, "1234567 and 7654321".to_string(), "#"),
        "# and #"
    );
    assert_eq!(
        replace_all(Category::Phone, "tel 03-1234-5678.".to_string(), PHONE_PLACEHOLDER),
        "tel ＜電話番号＞."
    );
    assert_eq!(
        replace_all(Category::NumberSequence, "12345".to_string(), NUMBER_SEQ_PLACEHOLDER),
        "12345"
    );
}

#[test]
fn placeholders_are_the_full_width_tokens() {
    assert_eq!(Category::Email.placeholder(), "＜メール＞");
    assert_eq!(Category::Phone.placeholder(), "＜電話番号＞");
    assert_eq!(Category::NumberSequence.placeholder(), "＜数列＞");
    assert_eq!(Category::NumberSequence.pattern(), r"\d{6,}");
}

#[test]
fn find_on_arbitrary_patterns() {
    assert!(find("b+", "abbbc"));
    assert!(!find("z", "abbbc"));
    assert!(!find("(", "("));
}

#[test]
fn substitute_on_arbitrary_patterns() {
    assert_eq!(substitute("b+", "abbbcb".to_string(), "-"), "a-c-");
    assert_eq!(substitute("z", "abbbc".to_string(), "-"), "abbbc");
    assert_eq!(substitute("(", "a(b".to_string(), "-"), "a(b");
    assert_eq!(substitute("(a)(b)", "ab".to_string(), "$2$1"), "ba");
}
