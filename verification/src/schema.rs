//! The settings record as a structural value: how a record is written as an
//! object, which objects are records, and how a patch updates a record.
//!
//! A record is an object with one member per field, keyed by the field's
//! name in camel case. Members with other keys are ignored when an object is
//! read back; a missing or ill-typed member makes the object invalid.

use crate::json::{
    item_views, lemma_array_view, lemma_object_view, lookup, lookup_member, member_views, merge,
    merge_value, Json, JsonNumber, JsonValue, Members,
};
use crate::settings::{rule_views, text_views, AppSettings, ReplaceRule, RuleView, SettingsView};
use vstd::prelude::*;
use vstd::string::*;

verus! {

pub const KEY_SETTINGS_VERSION: &'static str = "settingsVersion";

pub const KEY_SECURITY_MASTER_MODE: &'static str = "securityMasterMode";

pub const KEY_ENABLE_GEMINI: &'static str = "enableGemini";

pub const KEY_NO_SAVE: &'static str = "noSave";

pub const KEY_ENCRYPT_TEMP_FILES: &'static str = "encryptTempFiles";

pub const KEY_AUTO_CLEAR_CLIPBOARD: &'static str = "autoClearClipboard";

pub const KEY_CLEAR_ALL_ON_EXIT: &'static str = "clearAllOnExit";

pub const KEY_MASK_STRENGTH: &'static str = "maskStrength";

pub const KEY_MASK_PHONE: &'static str = "maskPhone";

pub const KEY_MASK_EMAIL: &'static str = "maskEmail";

pub const KEY_MASK_ADDRESS: &'static str = "maskAddress";

pub const KEY_MASK_NUMBERS: &'static str = "maskNumbers";

pub const KEY_MASK_NAMES: &'static str = "maskNames";

pub const KEY_WHITELIST_WORDS: &'static str = "whitelistWords";

pub const KEY_SEND_TEXT_ONLY_TO_GEMINI: &'static str = "sendTextOnlyToGemini";

pub const KEY_DISABLE_DATA_TRAINING: &'static str = "disableDataTraining";

pub const KEY_REGION_PREFERENCE: &'static str = "regionPreference";

pub const KEY_USE_BYO_KEY: &'static str = "useByoKey";

pub const KEY_SAVE_EMAIL_DISPLAY_NAME: &'static str = "saveEmailDisplayName";

pub const KEY_SHORT_LIVED_SESSION: &'static str = "shortLivedSession";

pub const KEY_CLEAR_TOKENS_ON_LOGOUT: &'static str = "clearTokensOnLogout";

pub const KEY_ENABLE_ERROR_LOGS: &'static str = "enableErrorLogs";

pub const KEY_ENABLE_USAGE_STATS: &'static str = "enableUsageStats";

pub const KEY_AUTO_DELETE_LOGS_AFTER_DAYS: &'static str = "autoDeleteLogsAfterDays";

pub const KEY_ENABLE_DLP_SCAN: &'static str = "enableDlpScan";

pub const KEY_DLP_ACTION: &'static str = "dlpAction";

pub const KEY_OFFLINE_MODE: &'static str = "offlineMode";

pub const KEY_NATURALIZE_EXPRESSIONS: &'static str = "naturalizeExpressions";

pub const KEY_AUTO_PUNCTUATION: &'static str = "autoPunctuation";

pub const KEY_UNIFY_FOREIGN_WORDS: &'static str = "unifyForeignWords";

pub const KEY_PRESERVE_ORIGINAL_PROPER_NOUNS: &'static str = "preserveOriginalProperNouns";

pub const KEY_NO_SUMMARY_OR_EMBELLISHMENT: &'static str = "noSummaryOrEmbellishment";

pub const KEY_CUSTOM_REPLACE_RULES: &'static str = "customReplaceRules";

pub const KEY_PATTERN: &'static str = "pattern";

pub const KEY_REPLACE: &'static str = "replace";

pub const KEY_FLAGS: &'static str = "flags";

/// Why a value was not accepted as a settings record.
#[derive(Debug, Clone, Copy, PartialEq, Eq)]
pub enum SettingsValidationError {
    /// The value is no object.
    NotAnObject,
    /// The member with this key is missing or has the wrong type. Of several
    /// such members, the one that comes first in the record is named.
    BadField(&'static str),
}

/// Mathematical model of a [`SettingsValidationError`].
pub ghost enum ValidationFailure {
    NotAnObject,
    BadField(Seq<char>),
}

impl View for SettingsValidationError {
    type V = ValidationFailure;

    open spec fn view(&self) -> ValidationFailure {
        match self {
            SettingsValidationError::NotAnObject => ValidationFailure::NotAnObject,
            SettingsValidationError::BadField(key) => ValidationFailure::BadField(key@),
        }
    }
}

/// A boolean is read from a `Bool` only.
pub open spec fn as_bool(v: JsonValue) -> Option<bool> {
    match v {
        JsonValue::Bool(b) => Some(b),
        _ => None,
    }
}

/// A 32-bit count is read from an unsigned integer that fits.
pub open spec fn as_u32(v: JsonValue) -> Option<u32> {
    match v {
        JsonValue::Number(JsonNumber::PosInt(n)) => if n <= u32::MAX {
            Some(n as u32)
        } else {
            None
        },
        _ => None,
    }
}

/// A text is read from a `Text` only.
pub open spec fn as_text(v: JsonValue) -> Option<Seq<char>> {
    match v {
        JsonValue::Text(t) => Some(t),
        _ => None,
    }
}

/// A list of texts is read from an array whose items are all texts.
pub open spec fn as_text_list(v: JsonValue) -> Option<Seq<Seq<char>>> {
    match v {
        JsonValue::Array(items) => if forall|i: int|
            0 <= i < items.len() ==> as_text(#[trigger] items[i]) is Some {
            Some(Seq::new(items.len(), |i: int| as_text(items[i])->Some_0))
        } else {
            None
        },
        _ => None,
    }
}

/// The flags of a rule: absent when the member is missing or null, present
/// when it is a text, invalid otherwise.
pub open spec fn as_flags(found: Option<JsonValue>) -> Option<Option<Seq<char>>> {
    match found {
        None => Some(None),
        Some(JsonValue::Null) => Some(None),
        Some(JsonValue::Text(t)) => Some(Some(t)),
        Some(_) => None,
    }
}

/// A rule is read from an object with a text `pattern`, a text `replace` and
/// optional `flags`.
pub open spec fn as_rule(v: JsonValue) -> Option<RuleView> {
    match v {
        JsonValue::Object(members) => {
            let pattern = field_text(members, KEY_PATTERN@);
            let replace = field_text(members, KEY_REPLACE@);
            let flags = as_flags(lookup(members, KEY_FLAGS@));
            if pattern is Some && replace is Some && flags is Some {
                Some(
                    RuleView {
                        pattern: pattern->Some_0,
                        replace: replace->Some_0,
                        flags: flags->Some_0,
                    },
                )
            } else {
                None
            }
        },
        _ => None,
    }
}

/// A list of rules is read from an array whose items are all rules.
pub open spec fn as_rule_list(v: JsonValue) -> Option<Seq<RuleView>> {
    match v {
        JsonValue::Array(items) => if forall|i: int|
            0 <= i < items.len() ==> as_rule(#[trigger] items[i]) is Some {
            Some(Seq::new(items.len(), |i: int| as_rule(items[i])->Some_0))
        } else {
            None
        },
        _ => None,
    }
}

/// The boolean under `key`, if there is one.
#[verifier::opaque]
pub open spec fn field_bool(members: Members, key: Seq<char>) -> Option<bool> {
    match lookup(members, key) {
        Some(v) => as_bool(v),
        None => None,
    }
}

/// The 32-bit count under `key`, if there is one.
#[verifier::opaque]
pub open spec fn field_u32(members: Members, key: Seq<char>) -> Option<u32> {
    match lookup(members, key) {
        Some(v) => as_u32(v),
        None => None,
    }
}

/// The text under `key`, if there is one.
#[verifier::opaque]
pub open spec fn field_text(members: Members, key: Seq<char>) -> Option<Seq<char>> {
    match lookup(members, key) {
        Some(v) => as_text(v),
        None => None,
    }
}

/// The list of texts under `key`, if there is one.
#[verifier::opaque]
pub open spec fn field_text_list(members: Members, key: Seq<char>) -> Option<Seq<Seq<char>>> {
    match lookup(members, key) {
        Some(v) => as_text_list(v),
        None => None,
    }
}

/// The list of rules under `key`, if there is one.
#[verifier::opaque]
pub open spec fn field_rule_list(members: Members, key: Seq<char>) -> Option<Seq<RuleView>> {
    match lookup(members, key) {
        Some(v) => as_rule_list(v),
        None => None,
    }
}

/// The key of the first field of the record, in declaration order, that
/// `members` lacks or holds with the wrong type; `None` when every field is
/// there.
pub open spec fn first_bad_key(members: Members) -> Option<Seq<char>> {
    if field_u32(members, KEY_SETTINGS_VERSION@) is None {
        Some(KEY_SETTINGS_VERSION@)
    } else if field_text(members, KEY_SECURITY_MASTER_MODE@) is None {
        Some(KEY_SECURITY_MASTER_MODE@)
    } else if field_bool(members, KEY_ENABLE_GEMINI@) is None {
        Some(KEY_ENABLE_GEMINI@)
    } else if field_bool(members, KEY_NO_SAVE@) is None {
        Some(KEY_NO_SAVE@)
    } else if field_bool(members, KEY_ENCRYPT_TEMP_FILES@) is None {
        Some(KEY_ENCRYPT_TEMP_FILES@)
    } else if field_bool(members, KEY_AUTO_CLEAR_CLIPBOARD@) is None {
        Some(KEY_AUTO_CLEAR_CLIPBOARD@)
    } else if field_bool(members, KEY_CLEAR_ALL_ON_EXIT@) is None {
        Some(KEY_CLEAR_ALL_ON_EXIT@)
    } else if field_text(members, KEY_MASK_STRENGTH@) is None {
        Some(KEY_MASK_STRENGTH@)
    } else if field_bool(members, KEY_MASK_PHONE@) is None {
        Some(KEY_MASK_PHONE@)
    } else if field_bool(members, KEY_MASK_EMAIL@) is None {
        Some(KEY_MASK_EMAIL@)
    } else if field_bool(members, KEY_MASK_ADDRESS@) is None {
        Some(KEY_MASK_ADDRESS@)
    } else if field_bool(members, KEY_MASK_NUMBERS@) is None {
        Some(KEY_MASK_NUMBERS@)
    } else if field_bool(members, KEY_MASK_NAMES@) is None {
        Some(KEY_MASK_NAMES@)
    } else if field_text_list(members, KEY_WHITELIST_WORDS@) is None {
        Some(KEY_WHITELIST_WORDS@)
    } else if field_bool(members, KEY_SEND_TEXT_ONLY_TO_GEMINI@) is None {
        Some(KEY_SEND_TEXT_ONLY_TO_GEMINI@)
    } else if field_bool(members, KEY_DISABLE_DATA_TRAINING@) is None {
        Some(KEY_DISABLE_DATA_TRAINING@)
    } else if field_text(members, KEY_REGION_PREFERENCE@) is None {
        Some(KEY_REGION_PREFERENCE@)
    } else if field_bool(members, KEY_USE_BYO_KEY@) is None {
        Some(KEY_USE_BYO_KEY@)
    } else if field_bool(members, KEY_SAVE_EMAIL_DISPLAY_NAME@) is None {
        Some(KEY_SAVE_EMAIL_DISPLAY_NAME@)
    } else if field_bool(members, KEY_SHORT_LIVED_SESSION@) is None {
        Some(KEY_SHORT_LIVED_SESSION@)
    } else if field_bool(members, KEY_CLEAR_TOKENS_ON_LOGOUT@) is None {
        Some(KEY_CLEAR_TOKENS_ON_LOGOUT@)
    } else if field_bool(members, KEY_ENABLE_ERROR_LOGS@) is None {
        Some(KEY_ENABLE_ERROR_LOGS@)
    } else if field_bool(members, KEY_ENABLE_USAGE_STATS@) is None {
        Some(KEY_ENABLE_USAGE_STATS@)
    } else if field_u32(members, KEY_AUTO_DELETE_LOGS_AFTER_DAYS@) is None {
        Some(KEY_AUTO_DELETE_LOGS_AFTER_DAYS@)
    } else if field_bool(members, KEY_ENABLE_DLP_SCAN@) is None {
        Some(KEY_ENABLE_DLP_SCAN@)
    } else if field_text(members, KEY_DLP_ACTION@) is None {
        Some(KEY_DLP_ACTION@)
    } else if field_bool(members, KEY_OFFLINE_MODE@) is None {
        Some(KEY_OFFLINE_MODE@)
    } else if field_bool(members, KEY_NATURALIZE_EXPRESSIONS@) is None {
        Some(KEY_NATURALIZE_EXPRESSIONS@)
    } else if field_bool(members, KEY_AUTO_PUNCTUATION@) is None {
        Some(KEY_AUTO_PUNCTUATION@)
    } else if field_bool(members, KEY_UNIFY_FOREIGN_WORDS@) is None {
        Some(KEY_UNIFY_FOREIGN_WORDS@)
    } else if field_bool(members, KEY_PRESERVE_ORIGINAL_PROPER_NOUNS@) is None {
        Some(KEY_PRESERVE_ORIGINAL_PROPER_NOUNS@)
    } else if field_bool(members, KEY_NO_SUMMARY_OR_EMBELLISHMENT@) is None {
        Some(KEY_NO_SUMMARY_OR_EMBELLISHMENT@)
    } else if field_rule_list(members, KEY_CUSTOM_REPLACE_RULES@) is None {
        Some(KEY_CUSTOM_REPLACE_RULES@)
    } else {
        None
    }
}

/// The record that `members` holds, where every field is there.
pub open spec fn settings_from(members: Members) -> SettingsView {
    SettingsView {
        settings_version: field_u32(members, KEY_SETTINGS_VERSION@)->Some_0,
        security_master_mode: field_text(members, KEY_SECURITY_MASTER_MODE@)->Some_0,
        enable_gemini: field_bool(members, KEY_ENABLE_GEMINI@)->Some_0,
        no_save: field_bool(members, KEY_NO_SAVE@)->Some_0,
        encrypt_temp_files: field_bool(members, KEY_ENCRYPT_TEMP_FILES@)->Some_0,
        auto_clear_clipboard: field_bool(members, KEY_AUTO_CLEAR_CLIPBOARD@)->Some_0,
        clear_all_on_exit: field_bool(members, KEY_CLEAR_ALL_ON_EXIT@)->Some_0,
        mask_strength: field_text(members, KEY_MASK_STRENGTH@)->Some_0,
        mask_phone: field_bool(members, KEY_MASK_PHONE@)->Some_0,
        mask_email: field_bool(members, KEY_MASK_EMAIL@)->Some_0,
        mask_address: field_bool(members, KEY_MASK_ADDRESS@)->Some_0,
        mask_numbers: field_bool(members, KEY_MASK_NUMBERS@)->Some_0,
        mask_names: field_bool(members, KEY_MASK_NAMES@)->Some_0,
        whitelist_words: field_text_list(members, KEY_WHITELIST_WORDS@)->Some_0,
        send_text_only_to_gemini: field_bool(members, KEY_SEND_TEXT_ONLY_TO_GEMINI@)->Some_0,
        disable_data_training: field_bool(members, KEY_DISABLE_DATA_TRAINING@)->Some_0,
        region_preference: field_text(members, KEY_REGION_PREFERENCE@)->Some_0,
        use_byo_key: field_bool(members, KEY_USE_BYO_KEY@)->Some_0,
        save_email_display_name: field_bool(members, KEY_SAVE_EMAIL_DISPLAY_NAME@)->Some_0,
        short_lived_session: field_bool(members, KEY_SHORT_LIVED_SESSION@)->Some_0,
        clear_tokens_on_logout: field_bool(members, KEY_CLEAR_TOKENS_ON_LOGOUT@)->Some_0,
        enable_error_logs: field_bool(members, KEY_ENABLE_ERROR_LOGS@)->Some_0,
        enable_usage_stats: field_bool(members, KEY_ENABLE_USAGE_STATS@)->Some_0,
        auto_delete_logs_after_days: field_u32(members, KEY_AUTO_DELETE_LOGS_AFTER_DAYS@)->Some_0,
        enable_dlp_scan: field_bool(members, KEY_ENABLE_DLP_SCAN@)->Some_0,
        dlp_action: field_text(members, KEY_DLP_ACTION@)->Some_0,
        offline_mode: field_bool(members, KEY_OFFLINE_MODE@)->Some_0,
        naturalize_expressions: field_bool(members, KEY_NATURALIZE_EXPRESSIONS@)->Some_0,
        auto_punctuation: field_bool(members, KEY_AUTO_PUNCTUATION@)->Some_0,
        unify_foreign_words: field_bool(members, KEY_UNIFY_FOREIGN_WORDS@)->Some_0,
        preserve_original_proper_nouns: field_bool(
            members,
            KEY_PRESERVE_ORIGINAL_PROPER_NOUNS@,
        )->Some_0,
        no_summary_or_embellishment: field_bool(members, KEY_NO_SUMMARY_OR_EMBELLISHMENT@)->Some_0,
        custom_replace_rules: field_rule_list(members, KEY_CUSTOM_REPLACE_RULES@)->Some_0,
    }
}

/// Reads `v` as a settings record.
pub open spec fn settings_of(v: JsonValue) -> Result<SettingsView, ValidationFailure> {
    match v {
        JsonValue::Object(members) => match first_bad_key(members) {
            Some(key) => Err(ValidationFailure::BadField(key)),
            None => Ok(settings_from(members)),
        },
        _ => Err(ValidationFailure::NotAnObject),
    }
}

/// A list of texts as an array.
pub open spec fn text_list_json(items: Seq<Seq<char>>) -> JsonValue {
    JsonValue::Array(Seq::new(items.len(), |i: int| JsonValue::Text(items[i])))
}

/// The flags of a rule as a value: null when absent.
pub open spec fn flags_json(flags: Option<Seq<char>>) -> JsonValue {
    match flags {
        Some(f) => JsonValue::Text(f),
        None => JsonValue::Null,
    }
}

/// A rule as an object.
pub open spec fn rule_json(rule: RuleView) -> JsonValue {
    JsonValue::Object(
        Seq::empty().push((KEY_PATTERN@, JsonValue::Text(rule.pattern))).push(
            (KEY_REPLACE@, JsonValue::Text(rule.replace)),
        ).push((KEY_FLAGS@, flags_json(rule.flags))),
    )
}

/// A list of rules as an array.
pub open spec fn rule_list_json(rules: Seq<RuleView>) -> JsonValue {
    JsonValue::Array(Seq::new(rules.len(), |i: int| rule_json(rules[i])))
}

/// A count as a value.
pub open spec fn u32_json(n: u32) -> JsonValue {
    JsonValue::Number(JsonNumber::PosInt(n as u64))
}

/// The fields that govern storage and the master mode, added to `members`
/// in declaration order.
#[verifier::opaque]
pub open spec fn with_general_members(
    members: Members,
    s: SettingsView,
) -> Members {
    members
        .push((KEY_SETTINGS_VERSION@, u32_json(s.settings_version)))
        .push((KEY_SECURITY_MASTER_MODE@, JsonValue::Text(s.security_master_mode)))
        .push((KEY_ENABLE_GEMINI@, JsonValue::Bool(s.enable_gemini)))
        .push((KEY_NO_SAVE@, JsonValue::Bool(s.no_save)))
        .push((KEY_ENCRYPT_TEMP_FILES@, JsonValue::Bool(s.encrypt_temp_files)))
        .push((KEY_AUTO_CLEAR_CLIPBOARD@, JsonValue::Bool(s.auto_clear_clipboard)))
        .push((KEY_CLEAR_ALL_ON_EXIT@, JsonValue::Bool(s.clear_all_on_exit)))
}

/// The masking fields, added to `members` in declaration order.
#[verifier::opaque]
pub open spec fn with_masking_members(
    members: Members,
    s: SettingsView,
) -> Members {
    members
        .push((KEY_MASK_STRENGTH@, JsonValue::Text(s.mask_strength)))
        .push((KEY_MASK_PHONE@, JsonValue::Bool(s.mask_phone)))
        .push((KEY_MASK_EMAIL@, JsonValue::Bool(s.mask_email)))
        .push((KEY_MASK_ADDRESS@, JsonValue::Bool(s.mask_address)))
        .push((KEY_MASK_NUMBERS@, JsonValue::Bool(s.mask_numbers)))
        .push((KEY_MASK_NAMES@, JsonValue::Bool(s.mask_names)))
        .push((KEY_WHITELIST_WORDS@, text_list_json(s.whitelist_words)))
}

/// The fields on the remote services, the session and the logs, added to
/// `members` in declaration order.
#[verifier::opaque]
pub open spec fn with_service_members(
    members: Members,
    s: SettingsView,
) -> Members {
    members
        .push((KEY_SEND_TEXT_ONLY_TO_GEMINI@, JsonValue::Bool(s.send_text_only_to_gemini)))
        .push((KEY_DISABLE_DATA_TRAINING@, JsonValue::Bool(s.disable_data_training)))
        .push((KEY_REGION_PREFERENCE@, JsonValue::Text(s.region_preference)))
        .push((KEY_USE_BYO_KEY@, JsonValue::Bool(s.use_byo_key)))
        .push((KEY_SAVE_EMAIL_DISPLAY_NAME@, JsonValue::Bool(s.save_email_display_name)))
        .push((KEY_SHORT_LIVED_SESSION@, JsonValue::Bool(s.short_lived_session)))
        .push((KEY_CLEAR_TOKENS_ON_LOGOUT@, JsonValue::Bool(s.clear_tokens_on_logout)))
        .push((KEY_ENABLE_ERROR_LOGS@, JsonValue::Bool(s.enable_error_logs)))
        .push((KEY_ENABLE_USAGE_STATS@, JsonValue::Bool(s.enable_usage_stats)))
        .push((KEY_AUTO_DELETE_LOGS_AFTER_DAYS@, u32_json(s.auto_delete_logs_after_days)))
}

/// The DLP fields and the formatting toggles, added to `members` in
/// declaration order.
#[verifier::opaque]
pub open spec fn with_pipeline_members(
    members: Members,
    s: SettingsView,
) -> Members {
    members
        .push((KEY_ENABLE_DLP_SCAN@, JsonValue::Bool(s.enable_dlp_scan)))
        .push((KEY_DLP_ACTION@, JsonValue::Text(s.dlp_action)))
        .push((KEY_OFFLINE_MODE@, JsonValue::Bool(s.offline_mode)))
        .push((KEY_NATURALIZE_EXPRESSIONS@, JsonValue::Bool(s.naturalize_expressions)))
        .push((KEY_AUTO_PUNCTUATION@, JsonValue::Bool(s.auto_punctuation)))
        .push((KEY_UNIFY_FOREIGN_WORDS@, JsonValue::Bool(s.unify_foreign_words)))
        .push(
            (
                KEY_PRESERVE_ORIGINAL_PROPER_NOUNS@,
                JsonValue::Bool(s.preserve_original_proper_nouns),
            ),
        )
        .push((KEY_NO_SUMMARY_OR_EMBELLISHMENT@, JsonValue::Bool(s.no_summary_or_embellishment)))
}

/// The custom rules, added to `members`.
#[verifier::opaque]
pub open spec fn with_rule_members(
    members: Members,
    s: SettingsView,
) -> Members {
    members
        .push((KEY_CUSTOM_REPLACE_RULES@, rule_list_json(s.custom_replace_rules)))
}

/// The members of the object that stands for the record `s`, in declaration
/// order.
pub open spec fn settings_members(s: SettingsView) -> Members {
    with_rule_members(
        with_pipeline_members(
            with_service_members(with_masking_members(with_general_members(Seq::empty(), s), s), s),
            s,
        ),
        s,
    )
}

/// The record `s` as an object.
pub open spec fn settings_json(s: SettingsView) -> JsonValue {
    JsonValue::Object(settings_members(s))
}

fn read_bool(members: &Vec<(String, Json)>, key: &str) -> (out: Option<bool>)
    ensures
        out == field_bool(member_views(members@), key@),
{
    proof {
        reveal(field_bool);
    }
    match lookup_member(members, key) {
        Some(v) => match v {
            Json::Bool(b) => Some(*b),
            _ => None,
        },
        None => None,
    }
}

fn read_u32(members: &Vec<(String, Json)>, key: &str) -> (out: Option<u32>)
    ensures
        out == field_u32(member_views(members@), key@),
{
    proof {
        reveal(field_u32);
    }
    match lookup_member(members, key) {
        Some(v) => match v {
            Json::Number(n) => match n {
                JsonNumber::PosInt(n) => if *n <= u32::MAX as u64 {
                    Some(*n as u32)
                } else {
                    None
                },
                _ => None,
            },
            _ => None,
        },
        None => None,
    }
}

fn text_of(value: &Json) -> (out: Option<String>)
    ensures
        match out {
            Some(t) => as_text(value@) == Some(t@),
            None => as_text(value@) is None,
        },
{
    match value {
        Json::Text(t) => Some(t.clone()),
        _ => None,
    }
}

fn read_text(members: &Vec<(String, Json)>, key: &str) -> (out: Option<String>)
    ensures
        match out {
            Some(t) => field_text(member_views(members@), key@) == Some(t@),
            None => field_text(member_views(members@), key@) is None,
        },
{
    proof {
        reveal(field_text);
    }
    match lookup_member(members, key) {
        Some(v) => text_of(v),
        None => None,
    }
}

fn text_list_of(value: &Json) -> (out: Option<Vec<String>>)
    ensures
        match out {
            Some(items) => as_text_list(value@) == Some(text_views(items@)),
            None => as_text_list(value@) is None,
        },
{
    match value {
        Json::Array(items) => {
            let ghost views = item_views(items@);
            proof {
                lemma_array_view(*items);
            }
            let mut texts: Vec<String> = Vec::new();
            let mut i: usize = 0;
            while i < items.len()
                invariant
                    i <= items.len(),
                    views == item_views(items@),
                    value@ == JsonValue::Array(views),
                    texts@.len() == i,
                    forall|j: int| 0 <= j < i ==> as_text(#[trigger] views[j]) == Some(texts@[j]@),
                decreases items.len() - i,
            {
                match text_of(&items[i]) {
                    Some(t) => {
                        texts.push(t);
                    },
                    None => {
                        assert(as_text(views[i as int]) is None);
                        return None;
                    },
                }
                i = i + 1;
            }
            assert(Seq::new(views.len(), |i: int| as_text(views[i])->Some_0) =~= text_views(
                texts@,
            ));
            Some(texts)
        },
        _ => None,
    }
}

fn read_text_list(members: &Vec<(String, Json)>, key: &str) -> (out: Option<Vec<String>>)
    ensures
        match out {
            Some(items) => field_text_list(member_views(members@), key@) == Some(
                text_views(items@),
            ),
            None => field_text_list(member_views(members@), key@) is None,
        },
{
    proof {
        reveal(field_text_list);
    }
    match lookup_member(members, key) {
        Some(v) => text_list_of(v),
        None => None,
    }
}

fn rule_of(value: &Json) -> (out: Option<ReplaceRule>)
    ensures
        match out {
            Some(rule) => as_rule(value@) == Some(rule@),
            None => as_rule(value@) is None,
        },
{
    let members = match value {
        Json::Object(members) => members,
        _ => {
            return None;
        },
    };
    proof {
        lemma_object_view(*members);
    }
    let pattern = match read_text(members, KEY_PATTERN) {
        Some(t) => t,
        None => {
            return None;
        },
    };
    let replace = match read_text(members, KEY_REPLACE) {
        Some(t) => t,
        None => {
            return None;
        },
    };
    let flags = match lookup_member(members, KEY_FLAGS) {
        Some(v) => match v {
            Json::Null => None,
            Json::Text(t) => Some(t.clone()),
            _ => {
                return None;
            },
        },
        None => None,
    };
    Some(ReplaceRule { pattern, replace, flags })
}

fn rule_list_of(value: &Json) -> (out: Option<Vec<ReplaceRule>>)
    ensures
        match out {
            Some(rules) => as_rule_list(value@) == Some(rule_views(rules@)),
            None => as_rule_list(value@) is None,
        },
{
    match value {
        Json::Array(items) => {
            let ghost views = item_views(items@);
            proof {
                lemma_array_view(*items);
            }
            let mut rules: Vec<ReplaceRule> = Vec::new();
            let mut i: usize = 0;
            while i < items.len()
                invariant
                    i <= items.len(),
                    views == item_views(items@),
                    value@ == JsonValue::Array(views),
                    rules@.len() == i,
                    forall|j: int| 0 <= j < i ==> as_rule(#[trigger] views[j]) == Some(rules@[j]@),
                decreases items.len() - i,
            {
                match rule_of(&items[i]) {
                    Some(rule) => {
                        rules.push(rule);
                    },
                    None => {
                        assert(as_rule(views[i as int]) is None);
                        return None;
                    },
                }
                i = i + 1;
            }
            assert(Seq::new(views.len(), |i: int| as_rule(views[i])->Some_0) =~= rule_views(
                rules@,
            ));
            Some(rules)
        },
        _ => None,
    }
}

fn read_rule_list(members: &Vec<(String, Json)>, key: &str) -> (out: Option<Vec<ReplaceRule>>)
    ensures
        match out {
            Some(rules) => field_rule_list(member_views(members@), key@) == Some(
                rule_views(rules@),
            ),
            None => field_rule_list(member_views(members@), key@) is None,
        },
{
    proof {
        reveal(field_rule_list);
    }
    match lookup_member(members, key) {
        Some(v) => rule_list_of(v),
        None => None,
    }
}

fn with_member(members: Vec<(String, Json)>, key: &str, value: Json) -> (out: Vec<(String, Json)>)
    ensures
        member_views(out@) == member_views(members@).push((key@, value@)),
{
    let mut out = members;
    out.push((String::from_str(key), value));
    assert(member_views(out@) =~= member_views(members@).push((key@, value@)));
    out
}

fn with_bool(members: Vec<(String, Json)>, key: &str, value: bool) -> (out: Vec<(String, Json)>)
    ensures
        member_views(out@) == member_views(members@).push((key@, JsonValue::Bool(value))),
{
    with_member(members, key, Json::Bool(value))
}

fn with_u32(members: Vec<(String, Json)>, key: &str, value: u32) -> (out: Vec<(String, Json)>)
    ensures
        member_views(out@) == member_views(members@).push((key@, u32_json(value))),
{
    with_member(members, key, Json::Number(JsonNumber::PosInt(value as u64)))
}

fn with_text(members: Vec<(String, Json)>, key: &str, value: &String) -> (out: Vec<(String, Json)>)
    ensures
        member_views(out@) == member_views(members@).push((key@, JsonValue::Text(value@))),
{
    with_member(members, key, Json::Text(value.clone()))
}

fn text_list_to_json(items: &Vec<String>) -> (out: Json)
    ensures
        out@ == text_list_json(text_views(items@)),
{
    let mut values: Vec<Json> = Vec::new();
    let mut i: usize = 0;
    while i < items.len()
        invariant
            i <= items.len(),
            values@.len() == i,
            forall|j: int| 0 <= j < i ==> (#[trigger] values@[j])@ == JsonValue::Text(items@[j]@),
        decreases items.len() - i,
    {
        values.push(Json::Text(items[i].clone()));
        i = i + 1;
    }
    proof {
        lemma_array_view(values);
        assert(item_views(values@) =~= Seq::new(
            text_views(items@).len(),
            |i: int| JsonValue::Text(text_views(items@)[i]),
        ));
    }
    Json::Array(values)
}

fn rule_to_json(rule: &ReplaceRule) -> (out: Json)
    ensures
        out@ == rule_json(rule@),
{
    let flags = match &rule.flags {
        Some(f) => Json::Text(f.clone()),
        None => Json::Null,
    };
    let members: Vec<(String, Json)> = Vec::new();
    assert(member_views(members@) =~= Seq::empty());
    let members = with_member(members, KEY_PATTERN, Json::Text(rule.pattern.clone()));
    let members = with_member(members, KEY_REPLACE, Json::Text(rule.replace.clone()));
    let members = with_member(members, KEY_FLAGS, flags);
    proof {
        lemma_object_view(members);
        assert(member_views(members@) =~= rule_json(rule@)->Object_0);
    }
    Json::Object(members)
}

fn rule_list_to_json(rules: &Vec<ReplaceRule>) -> (out: Json)
    ensures
        out@ == rule_list_json(rule_views(rules@)),
{
    let mut values: Vec<Json> = Vec::new();
    let mut i: usize = 0;
    while i < rules.len()
        invariant
            i <= rules.len(),
            values@.len() == i,
            forall|j: int| 0 <= j < i ==> (#[trigger] values@[j])@ == rule_json(rules@[j]@),
        decreases rules.len() - i,
    {
        values.push(rule_to_json(&rules[i]));
        i = i + 1;
    }
    proof {
        lemma_array_view(values);
        assert(item_views(values@) =~= Seq::new(
            rule_views(rules@).len(),
            |i: int| rule_json(rule_views(rules@)[i]),
        ));
    }
    Json::Array(values)
}

/// Writes the record `s` as an object.
pub fn settings_to_json(s: &AppSettings) -> (out: Json)
    ensures
        out@ == settings_json(s@),
{
    let members = write_record(s);
    proof {
        lemma_object_view(members);
    }
    Json::Object(members)
}

fn write_general_fields(members: Vec<(String, Json)>, s: &AppSettings) -> (out: Vec<
    (String, Json),
>)
    ensures
        member_views(out@) == with_general_members(member_views(members@), s@),
{
    proof {
        reveal(with_general_members);
    }
    let members = with_u32(members, KEY_SETTINGS_VERSION, s.settings_version);
    let members = with_text(members, KEY_SECURITY_MASTER_MODE, &s.security_master_mode);
    let members = with_bool(members, KEY_ENABLE_GEMINI, s.enable_gemini);
    let members = with_bool(members, KEY_NO_SAVE, s.no_save);
    let members = with_bool(members, KEY_ENCRYPT_TEMP_FILES, s.encrypt_temp_files);
    let members = with_bool(members, KEY_AUTO_CLEAR_CLIPBOARD, s.auto_clear_clipboard);
    let members = with_bool(members, KEY_CLEAR_ALL_ON_EXIT, s.clear_all_on_exit);
    members
}

fn write_masking_fields(members: Vec<(String, Json)>, s: &AppSettings) -> (out: Vec<
    (String, Json),
>)
    ensures
        member_views(out@) == with_masking_members(member_views(members@), s@),
{
    proof {
        reveal(with_masking_members);
    }
    let members = with_text(members, KEY_MASK_STRENGTH, &s.mask_strength);
    let members = with_bool(members, KEY_MASK_PHONE, s.mask_phone);
    let members = with_bool(members, KEY_MASK_EMAIL, s.mask_email);
    let members = with_bool(members, KEY_MASK_ADDRESS, s.mask_address);
    let members = with_bool(members, KEY_MASK_NUMBERS, s.mask_numbers);
    let members = with_bool(members, KEY_MASK_NAMES, s.mask_names);
    let members = with_member(members, KEY_WHITELIST_WORDS, text_list_to_json(&s.whitelist_words));
    members
}

fn write_service_fields(members: Vec<(String, Json)>, s: &AppSettings) -> (out: Vec<
    (String, Json),
>)
    ensures
        member_views(out@) == with_service_members(member_views(members@), s@),
{
    proof {
        reveal(with_service_members);
    }
    let members = with_bool(members, KEY_SEND_TEXT_ONLY_TO_GEMINI, s.send_text_only_to_gemini);
    let members = with_bool(members, KEY_DISABLE_DATA_TRAINING, s.disable_data_training);
    let members = with_text(members, KEY_REGION_PREFERENCE, &s.region_preference);
    let members = with_bool(members, KEY_USE_BYO_KEY, s.use_byo_key);
    let members = with_bool(members, KEY_SAVE_EMAIL_DISPLAY_NAME, s.save_email_display_name);
    let members = with_bool(members, KEY_SHORT_LIVED_SESSION, s.short_lived_session);
    let members = with_bool(members, KEY_CLEAR_TOKENS_ON_LOGOUT, s.clear_tokens_on_logout);
    let members = with_bool(members, KEY_ENABLE_ERROR_LOGS, s.enable_error_logs);
    let members = with_bool(members, KEY_ENABLE_USAGE_STATS, s.enable_usage_stats);
    let members = with_u32(members, KEY_AUTO_DELETE_LOGS_AFTER_DAYS, s.auto_delete_logs_after_days);
    members
}

fn write_pipeline_fields(members: Vec<(String, Json)>, s: &AppSettings) -> (out: Vec<
    (String, Json),
>)
    ensures
        member_views(out@) == with_pipeline_members(member_views(members@), s@),
{
    proof {
        reveal(with_pipeline_members);
    }
    let members = with_bool(members, KEY_ENABLE_DLP_SCAN, s.enable_dlp_scan);
    let members = with_text(members, KEY_DLP_ACTION, &s.dlp_action);
    let members = with_bool(members, KEY_OFFLINE_MODE, s.offline_mode);
    let members = with_bool(members, KEY_NATURALIZE_EXPRESSIONS, s.naturalize_expressions);
    let members = with_bool(members, KEY_AUTO_PUNCTUATION, s.auto_punctuation);
    let members = with_bool(members, KEY_UNIFY_FOREIGN_WORDS, s.unify_foreign_words);
    let members = with_bool(
        members,
        KEY_PRESERVE_ORIGINAL_PROPER_NOUNS,
        s.preserve_original_proper_nouns,
    );
    let members = with_bool(
        members,
        KEY_NO_SUMMARY_OR_EMBELLISHMENT,
        s.no_summary_or_embellishment,
    );
    members
}

fn write_rule_fields(members: Vec<(String, Json)>, s: &AppSettings) -> (out: Vec<
    (String, Json),
>)
    ensures
        member_views(out@) == with_rule_members(member_views(members@), s@),
{
    proof {
        reveal(with_rule_members);
    }
    with_member(members, KEY_CUSTOM_REPLACE_RULES, rule_list_to_json(&s.custom_replace_rules))
}

/// Writes the fields of the record `s` as members, in declaration order.
fn write_record(s: &AppSettings) -> (members: Vec<(String, Json)>)
    ensures
        member_views(members@) == settings_members(s@),
{
    let members: Vec<(String, Json)> = Vec::new();
    assert(member_views(members@) =~= Seq::empty());
    let members = write_general_fields(members, s);
    let members = write_masking_fields(members, s);
    let members = write_service_fields(members, s);
    let members = write_pipeline_fields(members, s);
    write_rule_fields(members, s)
}

/// Reads `value` as a settings record. Members that are no fields of the
/// record are ignored.
pub fn settings_from_json(value: &Json) -> (out: Result<AppSettings, SettingsValidationError>)
    ensures
        match out {
            Ok(s) => settings_of(value@) == Ok::<SettingsView, ValidationFailure>(s@),
            Err(e) => settings_of(value@) == Err::<SettingsView, ValidationFailure>(e@),
        },
{
    match value {
        Json::Object(members) => {
            proof {
                lemma_object_view(*members);
            }
            match read_record(members) {
                Ok(s) => Ok(s),
                Err(key) => Err(SettingsValidationError::BadField(key)),
            }
        },
        _ => Err(SettingsValidationError::NotAnObject),
    }
}

/// Reads the fields of the record from `members`, in declaration order, and
/// stops at the first one that is missing or ill-typed.
fn read_record(members: &Vec<(String, Json)>) -> (out: Result<AppSettings, &'static str>)
    ensures
        match out {
            Ok(s) => first_bad_key(member_views(members@)) is None && s@ == settings_from(
                member_views(members@),
            ),
            Err(key) => first_bad_key(member_views(members@)) == Some(key@),
        },
{
    let settings_version = match read_u32(members, KEY_SETTINGS_VERSION) {
        Some(v) => v,
        None => {
            return Err(KEY_SETTINGS_VERSION);
        },
    };
    let security_master_mode = match read_text(members, KEY_SECURITY_MASTER_MODE) {
        Some(v) => v,
        None => {
            return Err(KEY_SECURITY_MASTER_MODE);
        },
    };
    let enable_gemini = match read_bool(members, KEY_ENABLE_GEMINI) {
        Some(v) => v,
        None => {
            return Err(KEY_ENABLE_GEMINI);
        },
    };
    let no_save = match read_bool(members, KEY_NO_SAVE) {
        Some(v) => v,
        None => {
            return Err(KEY_NO_SAVE);
        },
    };
    let encrypt_temp_files = match read_bool(members, KEY_ENCRYPT_TEMP_FILES) {
        Some(v) => v,
        None => {
            return Err(KEY_ENCRYPT_TEMP_FILES);
        },
    };
    let auto_clear_clipboard = match read_bool(members, KEY_AUTO_CLEAR_CLIPBOARD) {
        Some(v) => v,
        None => {
            return Err(KEY_AUTO_CLEAR_CLIPBOARD);
        },
    };
    let clear_all_on_exit = match read_bool(members, KEY_CLEAR_ALL_ON_EXIT) {
        Some(v) => v,
        None => {
            return Err(KEY_CLEAR_ALL_ON_EXIT);
        },
    };
    let mask_strength = match read_text(members, KEY_MASK_STRENGTH) {
        Some(v) => v,
        None => {
            return Err(KEY_MASK_STRENGTH);
        },
    };
    let mask_phone = match read_bool(members, KEY_MASK_PHONE) {
        Some(v) => v,
        None => {
            return Err(KEY_MASK_PHONE);
        },
    };
    let mask_email = match read_bool(members, KEY_MASK_EMAIL) {
        Some(v) => v,
        None => {
            return Err(KEY_MASK_EMAIL);
        },
    };
    let mask_address = match read_bool(members, KEY_MASK_ADDRESS) {
        Some(v) => v,
        None => {
            return Err(KEY_MASK_ADDRESS);
        },
    };
    let mask_numbers = match read_bool(members, KEY_MASK_NUMBERS) {
        Some(v) => v,
        None => {
            return Err(KEY_MASK_NUMBERS);
        },
    };
    let mask_names = match read_bool(members, KEY_MASK_NAMES) {
        Some(v) => v,
        None => {
            return Err(KEY_MASK_NAMES);
        },
    };
    let whitelist_words = match read_text_list(members, KEY_WHITELIST_WORDS) {
        Some(v) => v,
        None => {
            return Err(KEY_WHITELIST_WORDS);
        },
    };
    let send_text_only_to_gemini = match read_bool(members, KEY_SEND_TEXT_ONLY_TO_GEMINI) {
        Some(v) => v,
        None => {
            return Err(KEY_SEND_TEXT_ONLY_TO_GEMINI);
        },
    };
    let disable_data_training = match read_bool(members, KEY_DISABLE_DATA_TRAINING) {
        Some(v) => v,
        None => {
            return Err(KEY_DISABLE_DATA_TRAINING);
        },
    };
    let region_preference = match read_text(members, KEY_REGION_PREFERENCE) {
        Some(v) => v,
        None => {
            return Err(KEY_REGION_PREFERENCE);
        },
    };
    let use_byo_key = match read_bool(members, KEY_USE_BYO_KEY) {
        Some(v) => v,
        None => {
            return Err(KEY_USE_BYO_KEY);
        },
    };
    let save_email_display_name = match read_bool(members, KEY_SAVE_EMAIL_DISPLAY_NAME) {
        Some(v) => v,
        None => {
            return Err(KEY_SAVE_EMAIL_DISPLAY_NAME);
        },
    };
    let short_lived_session = match read_bool(members, KEY_SHORT_LIVED_SESSION) {
        Some(v) => v,
        None => {
            return Err(KEY_SHORT_LIVED_SESSION);
        },
    };
    let clear_tokens_on_logout = match read_bool(members, KEY_CLEAR_TOKENS_ON_LOGOUT) {
        Some(v) => v,
        None => {
            return Err(KEY_CLEAR_TOKENS_ON_LOGOUT);
        },
    };
    let enable_error_logs = match read_bool(members, KEY_ENABLE_ERROR_LOGS) {
        Some(v) => v,
        None => {
            return Err(KEY_ENABLE_ERROR_LOGS);
        },
    };
    let enable_usage_stats = match read_bool(members, KEY_ENABLE_USAGE_STATS) {
        Some(v) => v,
        None => {
            return Err(KEY_ENABLE_USAGE_STATS);
        },
    };
    let auto_delete_logs_after_days = match read_u32(members, KEY_AUTO_DELETE_LOGS_AFTER_DAYS) {
        Some(v) => v,
        None => {
            return Err(KEY_AUTO_DELETE_LOGS_AFTER_DAYS);
        },
    };
    let enable_dlp_scan = match read_bool(members, KEY_ENABLE_DLP_SCAN) {
        Some(v) => v,
        None => {
            return Err(KEY_ENABLE_DLP_SCAN);
        },
    };
    let dlp_action = match read_text(members, KEY_DLP_ACTION) {
        Some(v) => v,
        None => {
            return Err(KEY_DLP_ACTION);
        },
    };
    let offline_mode = match read_bool(members, KEY_OFFLINE_MODE) {
        Some(v) => v,
        None => {
            return Err(KEY_OFFLINE_MODE);
        },
    };
    let naturalize_expressions = match read_bool(members, KEY_NATURALIZE_EXPRESSIONS) {
        Some(v) => v,
        None => {
            return Err(KEY_NATURALIZE_EXPRESSIONS);
        },
    };
    let auto_punctuation = match read_bool(members, KEY_AUTO_PUNCTUATION) {
        Some(v) => v,
        None => {
            return Err(KEY_AUTO_PUNCTUATION);
        },
    };
    let unify_foreign_words = match read_bool(members, KEY_UNIFY_FOREIGN_WORDS) {
        Some(v) => v,
        None => {
            return Err(KEY_UNIFY_FOREIGN_WORDS);
        },
    };
    let preserve_original_proper_nouns = match read_bool(
        members,
        KEY_PRESERVE_ORIGINAL_PROPER_NOUNS,
    ) {
        Some(v) => v,
        None => {
            return Err(KEY_PRESERVE_ORIGINAL_PROPER_NOUNS);
        },
    };
    let no_summary_or_embellishment = match read_bool(members, KEY_NO_SUMMARY_OR_EMBELLISHMENT) {
        Some(v) => v,
        None => {
            return Err(KEY_NO_SUMMARY_OR_EMBELLISHMENT);
        },
    };
    let custom_replace_rules = match read_rule_list(members, KEY_CUSTOM_REPLACE_RULES) {
        Some(v) => v,
        None => {
            return Err(KEY_CUSTOM_REPLACE_RULES);
        },
    };
    Ok(
        AppSettings {
            settings_version,
            security_master_mode,
            enable_gemini,
            no_save,
            encrypt_temp_files,
            auto_clear_clipboard,
            clear_all_on_exit,
            mask_strength,
            mask_phone,
            mask_email,
            mask_address,
            mask_numbers,
            mask_names,
            whitelist_words,
            send_text_only_to_gemini,
            disable_data_training,
            region_preference,
            use_byo_key,
            save_email_display_name,
            short_lived_session,
            clear_tokens_on_logout,
            enable_error_logs,
            enable_usage_stats,
            auto_delete_logs_after_days,
            enable_dlp_scan,
            dlp_action,
            offline_mode,
            naturalize_expressions,
            auto_punctuation,
            unify_foreign_words,
            preserve_original_proper_nouns,
            no_summary_or_embellishment,
            custom_replace_rules,
        },
    )
}

/// What an update of the record `s` by `patch` yields: the patch is merged
/// onto the record written as an object, and the result is read back.
pub open spec fn update_outcome(
    s: SettingsView,
    patch: JsonValue,
) -> Result<SettingsView, ValidationFailure> {
    settings_of(merge_value(settings_json(s), patch))
}

/// Computes the settings that `patch` turns `current` into, or says why the
/// patched record is not valid.
pub fn updated_settings(current: &AppSettings, patch: &Json) -> (out: Result<
    AppSettings,
    SettingsValidationError,
>)
    ensures
        match out {
            Ok(s) => update_outcome(current@, patch@) == Ok::<SettingsView, ValidationFailure>(s@),
            Err(e) => update_outcome(current@, patch@) == Err::<SettingsView, ValidationFailure>(
                e@,
            ),
        },
{
    let mut value = settings_to_json(current);
    merge(&mut value, patch);
    settings_from_json(&value)
}

/// Applies `patch` to `settings`. When the patched record is not valid the
/// settings stay exactly as they were.
pub fn update_settings(settings: &mut AppSettings, patch: &Json) -> (out: Result<
    (),
    SettingsValidationError,
>)
    ensures
        match out {
            Ok(_) => update_outcome(old(settings)@, patch@) == Ok::<
                SettingsView,
                ValidationFailure,
            >(final(settings)@),
            Err(e) => {
                &&& update_outcome(old(settings)@, patch@) == Err::<
                    SettingsView,
                    ValidationFailure,
                >(e@)
                &&& *final(settings) == *old(settings)
            },
        },
{
    match updated_settings(settings, patch) {
        Ok(next) => {
            *settings = next;
            Ok(())
        },
        Err(e) => Err(e),
    }
}

} // verus!
