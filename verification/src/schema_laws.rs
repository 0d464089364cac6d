//! What holds of the settings record as a structural value: a record that
//! is written is read back unchanged, and a patch of the custom rules
//! replaces the list as a whole.

use crate::json::{
    first_index, has_key, lemma_lookup_empty, lemma_lookup_push, lookup, merge_first, merge_value,
    JsonValue, Members,
};
use crate::schema::{
    as_rule, as_rule_list, as_text, as_text_list, field_bool, field_rule_list, field_text,
    field_text_list, field_u32, first_bad_key, flags_json, rule_json, rule_list_json,
    settings_from, settings_json, settings_members, settings_of, text_list_json, u32_json,
    update_outcome, with_general_members, with_masking_members, with_pipeline_members,
    with_rule_members, with_service_members, ValidationFailure,
    KEY_AUTO_CLEAR_CLIPBOARD, KEY_AUTO_DELETE_LOGS_AFTER_DAYS, KEY_AUTO_PUNCTUATION,
    KEY_CLEAR_ALL_ON_EXIT, KEY_CLEAR_TOKENS_ON_LOGOUT, KEY_CUSTOM_REPLACE_RULES,
    KEY_DISABLE_DATA_TRAINING, KEY_DLP_ACTION, KEY_ENABLE_DLP_SCAN, KEY_ENABLE_ERROR_LOGS,
    KEY_ENABLE_GEMINI, KEY_ENABLE_USAGE_STATS, KEY_ENCRYPT_TEMP_FILES, KEY_FLAGS, KEY_MASK_ADDRESS,
    KEY_MASK_EMAIL, KEY_MASK_NAMES, KEY_MASK_NUMBERS, KEY_MASK_PHONE, KEY_MASK_STRENGTH,
    KEY_NATURALIZE_EXPRESSIONS, KEY_NO_SAVE, KEY_NO_SUMMARY_OR_EMBELLISHMENT, KEY_OFFLINE_MODE,
    KEY_PATTERN, KEY_PRESERVE_ORIGINAL_PROPER_NOUNS, KEY_REGION_PREFERENCE, KEY_REPLACE,
    KEY_SAVE_EMAIL_DISPLAY_NAME, KEY_SECURITY_MASTER_MODE, KEY_SEND_TEXT_ONLY_TO_GEMINI,
    KEY_SETTINGS_VERSION, KEY_SHORT_LIVED_SESSION, KEY_UNIFY_FOREIGN_WORDS, KEY_USE_BYO_KEY,
    KEY_WHITELIST_WORDS,
};
use crate::settings::{RuleView, SettingsView};
use vstd::prelude::*;

verus! {

/// What tells the keys of the record apart: the length and the fifth
/// character.
spec fn key_tag(key: Seq<char>) -> (nat, char) {
    (key.len(), key[4])
}

proof fn lemma_key_tags()
    ensures
        key_tag(KEY_SETTINGS_VERSION@) == (15nat, 'i'),
        key_tag(KEY_SECURITY_MASTER_MODE@) == (18nat, 'r'),
        key_tag(KEY_ENABLE_GEMINI@) == (12nat, 'l'),
        key_tag(KEY_NO_SAVE@) == (6nat, 'v'),
        key_tag(KEY_ENCRYPT_TEMP_FILES@) == (16nat, 'y'),
        key_tag(KEY_AUTO_CLEAR_CLIPBOARD@) == (18nat, 'C'),
        key_tag(KEY_CLEAR_ALL_ON_EXIT@) == (14nat, 'r'),
        key_tag(KEY_MASK_STRENGTH@) == (12nat, 'S'),
        key_tag(KEY_MASK_PHONE@) == (9nat, 'P'),
        key_tag(KEY_MASK_EMAIL@) == (9nat, 'E'),
        key_tag(KEY_MASK_ADDRESS@) == (11nat, 'A'),
        key_tag(KEY_MASK_NUMBERS@) == (11nat, 'N'),
        key_tag(KEY_MASK_NAMES@) == (9nat, 'N'),
        key_tag(KEY_WHITELIST_WORDS@) == (14nat, 'e'),
        key_tag(KEY_SEND_TEXT_ONLY_TO_GEMINI@) == (20nat, 'T'),
        key_tag(KEY_DISABLE_DATA_TRAINING@) == (19nat, 'b'),
        key_tag(KEY_REGION_PREFERENCE@) == (16nat, 'o'),
        key_tag(KEY_USE_BYO_KEY@) == (9nat, 'y'),
        key_tag(KEY_SAVE_EMAIL_DISPLAY_NAME@) == (20nat, 'E'),
        key_tag(KEY_SHORT_LIVED_SESSION@) == (17nat, 't'),
        key_tag(KEY_CLEAR_TOKENS_ON_LOGOUT@) == (19nat, 'r'),
        key_tag(KEY_ENABLE_ERROR_LOGS@) == (15nat, 'l'),
        key_tag(KEY_ENABLE_USAGE_STATS@) == (16nat, 'l'),
        key_tag(KEY_AUTO_DELETE_LOGS_AFTER_DAYS@) == (23nat, 'D'),
        key_tag(KEY_ENABLE_DLP_SCAN@) == (13nat, 'l'),
        key_tag(KEY_DLP_ACTION@) == (9nat, 'c'),
        key_tag(KEY_OFFLINE_MODE@) == (11nat, 'i'),
        key_tag(KEY_NATURALIZE_EXPRESSIONS@) == (21nat, 'r'),
        key_tag(KEY_AUTO_PUNCTUATION@) == (15nat, 'P'),
        key_tag(KEY_UNIFY_FOREIGN_WORDS@) == (17nat, 'y'),
        key_tag(KEY_PRESERVE_ORIGINAL_PROPER_NOUNS@) == (27nat, 'e'),
        key_tag(KEY_NO_SUMMARY_OR_EMBELLISHMENT@) == (24nat, 'm'),
        key_tag(KEY_CUSTOM_REPLACE_RULES@) == (18nat, 'o'),
{
    reveal_strlit("settingsVersion");
    reveal_strlit("securityMasterMode");
    reveal_strlit("enableGemini");
    reveal_strlit("noSave");
    reveal_strlit("encryptTempFiles");
    reveal_strlit("autoClearClipboard");
    reveal_strlit("clearAllOnExit");
    reveal_strlit("maskStrength");
    reveal_strlit("maskPhone");
    reveal_strlit("maskEmail");
    reveal_strlit("maskAddress");
    reveal_strlit("maskNumbers");
    reveal_strlit("maskNames");
    reveal_strlit("whitelistWords");
    reveal_strlit("sendTextOnlyToGemini");
    reveal_strlit("disableDataTraining");
    reveal_strlit("regionPreference");
    reveal_strlit("useByoKey");
    reveal_strlit("saveEmailDisplayName");
    reveal_strlit("shortLivedSession");
    reveal_strlit("clearTokensOnLogout");
    reveal_strlit("enableErrorLogs");
    reveal_strlit("enableUsageStats");
    reveal_strlit("autoDeleteLogsAfterDays");
    reveal_strlit("enableDlpScan");
    reveal_strlit("dlpAction");
    reveal_strlit("offlineMode");
    reveal_strlit("naturalizeExpressions");
    reveal_strlit("autoPunctuation");
    reveal_strlit("unifyForeignWords");
    reveal_strlit("preserveOriginalProperNouns");
    reveal_strlit("noSummaryOrEmbellishment");
    reveal_strlit("customReplaceRules");
}

/// How lookups see a list of members that was built by adding one member
/// after the other.
proof fn lemma_push_rules()
    ensures
        forall|key: Seq<char>| !(#[trigger] has_key(Members::empty(), key)),
        forall|members: Members, k: Seq<char>, v: JsonValue, key: Seq<char>|
            #[trigger] has_key(members.push((k, v)), key) == (has_key(members, key) || k == key),
        forall|members: Members, k: Seq<char>, v: JsonValue, key: Seq<char>|
            #[trigger] lookup(members.push((k, v)), key) == if has_key(members, key) {
                lookup(members, key)
            } else if k == key {
                Some(v)
            } else {
                None
            },
{
    assert forall|key: Seq<char>| !(#[trigger] has_key(Members::empty(), key)) by {
        lemma_lookup_empty(key);
    }
    assert forall|members: Members, k: Seq<char>, v: JsonValue, key: Seq<char>|
        #[trigger] has_key(members.push((k, v)), key) == (has_key(members, key) || k == key) by {
        lemma_lookup_push(members, k, v, key);
    }
    assert forall|members: Members, k: Seq<char>, v: JsonValue, key: Seq<char>|
        #[trigger] lookup(members.push((k, v)), key) == if has_key(members, key) {
            lookup(members, key)
        } else if k == key {
            Some(v)
        } else {
            None
        } by {
        lemma_lookup_push(members, k, v, key);
    }
}

/// A list of texts written as an array is read back as the same list.
pub proof fn lemma_text_list_reads_back(items: Seq<Seq<char>>)
    ensures
        as_text_list(text_list_json(items)) == Some(items),
{
    let values = text_list_json(items)->Array_0;
    assert forall|i: int| 0 <= i < values.len() implies as_text(#[trigger] values[i]) is Some by {}
    assert(Seq::new(values.len(), |i: int| as_text(values[i])->Some_0) =~= items);
}

/// A rule written as an object is read back as the same rule.
pub proof fn lemma_rule_reads_back(rule: RuleView)
    ensures
        as_rule(rule_json(rule)) == Some(rule),
{
    lemma_push_rules();
    reveal(field_text);
    reveal_strlit("pattern");
    reveal_strlit("replace");
    reveal_strlit("flags");
    assert(KEY_PATTERN@[0] != KEY_REPLACE@[0]);
    assert(KEY_PATTERN@.len() != KEY_FLAGS@.len());
    assert(KEY_REPLACE@.len() != KEY_FLAGS@.len());
    let members = rule_json(rule)->Object_0;
    assert(field_text(members, KEY_PATTERN@) == Some(rule.pattern));
    assert(field_text(members, KEY_REPLACE@) == Some(rule.replace));
    assert(lookup(members, KEY_FLAGS@) == Some(flags_json(rule.flags)));
}

/// A list of rules written as an array is read back as the same list.
pub proof fn lemma_rule_list_reads_back(rules: Seq<RuleView>)
    ensures
        as_rule_list(rule_list_json(rules)) == Some(rules),
{
    let values = rule_list_json(rules)->Array_0;
    assert forall|i: int| 0 <= i < values.len() implies as_rule(#[trigger] values[i]) == Some(
        rules[i],
    ) by {
        lemma_rule_reads_back(rules[i]);
    }
    assert(Seq::new(values.len(), |i: int| as_rule(values[i])->Some_0) =~= rules);
}

/// `longer` holds `value` under `key`, provided `base` had no such key.
spec fn adds(base: Members, longer: Members, key: Seq<char>, value: JsonValue) -> bool {
    !has_key(base, key) ==> lookup(longer, key) == Some(value)
}

/// The key is none of those that `with_general_members` adds.
spec fn outside_general(key: Seq<char>) -> bool {
    &&& key != KEY_SETTINGS_VERSION@
    &&& key != KEY_SECURITY_MASTER_MODE@
    &&& key != KEY_ENABLE_GEMINI@
    &&& key != KEY_NO_SAVE@
    &&& key != KEY_ENCRYPT_TEMP_FILES@
    &&& key != KEY_AUTO_CLEAR_CLIPBOARD@
    &&& key != KEY_CLEAR_ALL_ON_EXIT@
}

proof fn lemma_general_members(base: Members, s: SettingsView)
    ensures
        ({
            let longer = with_general_members(base, s);
            &&& forall|key: Seq<char>|
                outside_general(key) ==> #[trigger] has_key(longer, key) == has_key(base, key)
            &&& forall|key: Seq<char>|
                outside_general(key) ==> #[trigger] lookup(longer, key) == lookup(base, key)
            &&& adds(base, longer, KEY_SETTINGS_VERSION@, u32_json(s.settings_version))
            &&& adds(
                base,
                longer,
                KEY_SECURITY_MASTER_MODE@,
                JsonValue::Text(s.security_master_mode),
            )
            &&& adds(base, longer, KEY_ENABLE_GEMINI@, JsonValue::Bool(s.enable_gemini))
            &&& adds(base, longer, KEY_NO_SAVE@, JsonValue::Bool(s.no_save))
            &&& adds(base, longer, KEY_ENCRYPT_TEMP_FILES@, JsonValue::Bool(s.encrypt_temp_files))
            &&& adds(
                base,
                longer,
                KEY_AUTO_CLEAR_CLIPBOARD@,
                JsonValue::Bool(s.auto_clear_clipboard),
            )
            &&& adds(base, longer, KEY_CLEAR_ALL_ON_EXIT@, JsonValue::Bool(s.clear_all_on_exit))
        }),
{
    reveal(with_general_members);
    lemma_key_tags();
    lemma_push_rules();
}

/// The key is none of those that `with_masking_members` adds.
spec fn outside_masking(key: Seq<char>) -> bool {
    &&& key != KEY_MASK_STRENGTH@
    &&& key != KEY_MASK_PHONE@
    &&& key != KEY_MASK_EMAIL@
    &&& key != KEY_MASK_ADDRESS@
    &&& key != KEY_MASK_NUMBERS@
    &&& key != KEY_MASK_NAMES@
    &&& key != KEY_WHITELIST_WORDS@
}

proof fn lemma_masking_members(base: Members, s: SettingsView)
    ensures
        ({
            let longer = with_masking_members(base, s);
            &&& forall|key: Seq<char>|
                outside_masking(key) ==> #[trigger] has_key(longer, key) == has_key(base, key)
            &&& forall|key: Seq<char>|
                outside_masking(key) ==> #[trigger] lookup(longer, key) == lookup(base, key)
            &&& adds(base, longer, KEY_MASK_STRENGTH@, JsonValue::Text(s.mask_strength))
            &&& adds(base, longer, KEY_MASK_PHONE@, JsonValue::Bool(s.mask_phone))
            &&& adds(base, longer, KEY_MASK_EMAIL@, JsonValue::Bool(s.mask_email))
            &&& adds(base, longer, KEY_MASK_ADDRESS@, JsonValue::Bool(s.mask_address))
            &&& adds(base, longer, KEY_MASK_NUMBERS@, JsonValue::Bool(s.mask_numbers))
            &&& adds(base, longer, KEY_MASK_NAMES@, JsonValue::Bool(s.mask_names))
            &&& adds(base, longer, KEY_WHITELIST_WORDS@, text_list_json(s.whitelist_words))
        }),
{
    reveal(with_masking_members);
    lemma_key_tags();
    lemma_push_rules();
}

/// The key is none of those that `with_service_members` adds.
spec fn outside_service(key: Seq<char>) -> bool {
    &&& key != KEY_SEND_TEXT_ONLY_TO_GEMINI@
    &&& key != KEY_DISABLE_DATA_TRAINING@
    &&& key != KEY_REGION_PREFERENCE@
    &&& key != KEY_USE_BYO_KEY@
    &&& key != KEY_SAVE_EMAIL_DISPLAY_NAME@
    &&& key != KEY_SHORT_LIVED_SESSION@
    &&& key != KEY_CLEAR_TOKENS_ON_LOGOUT@
    &&& key != KEY_ENABLE_ERROR_LOGS@
    &&& key != KEY_ENABLE_USAGE_STATS@
    &&& key != KEY_AUTO_DELETE_LOGS_AFTER_DAYS@
}

proof fn lemma_service_members(base: Members, s: SettingsView)
    ensures
        ({
            let longer = with_service_members(base, s);
            &&& forall|key: Seq<char>|
                outside_service(key) ==> #[trigger] has_key(longer, key) == has_key(base, key)
            &&& forall|key: Seq<char>|
                outside_service(key) ==> #[trigger] lookup(longer, key) == lookup(base, key)
            &&& adds(
                base,
                longer,
                KEY_SEND_TEXT_ONLY_TO_GEMINI@,
                JsonValue::Bool(s.send_text_only_to_gemini),
            )
            &&& adds(
                base,
                longer,
                KEY_DISABLE_DATA_TRAINING@,
                JsonValue::Bool(s.disable_data_training),
            )
            &&& adds(base, longer, KEY_REGION_PREFERENCE@, JsonValue::Text(s.region_preference))
            &&& adds(base, longer, KEY_USE_BYO_KEY@, JsonValue::Bool(s.use_byo_key))
            &&& adds(
                base,
                longer,
                KEY_SAVE_EMAIL_DISPLAY_NAME@,
                JsonValue::Bool(s.save_email_display_name),
            )
            &&& adds(base, longer, KEY_SHORT_LIVED_SESSION@, JsonValue::Bool(s.short_lived_session))
            &&& adds(
                base,
                longer,
                KEY_CLEAR_TOKENS_ON_LOGOUT@,
                JsonValue::Bool(s.clear_tokens_on_logout),
            )
            &&& adds(base, longer, KEY_ENABLE_ERROR_LOGS@, JsonValue::Bool(s.enable_error_logs))
            &&& adds(base, longer, KEY_ENABLE_USAGE_STATS@, JsonValue::Bool(s.enable_usage_stats))
            &&& adds(
                base,
                longer,
                KEY_AUTO_DELETE_LOGS_AFTER_DAYS@,
                u32_json(s.auto_delete_logs_after_days),
            )
        }),
{
    reveal(with_service_members);
    lemma_key_tags();
    lemma_push_rules();
}

/// The key is none of those that `with_pipeline_members` adds.
spec fn outside_pipeline(key: Seq<char>) -> bool {
    &&& key != KEY_ENABLE_DLP_SCAN@
    &&& key != KEY_DLP_ACTION@
    &&& key != KEY_OFFLINE_MODE@
    &&& key != KEY_NATURALIZE_EXPRESSIONS@
    &&& key != KEY_AUTO_PUNCTUATION@
    &&& key != KEY_UNIFY_FOREIGN_WORDS@
    &&& key != KEY_PRESERVE_ORIGINAL_PROPER_NOUNS@
    &&& key != KEY_NO_SUMMARY_OR_EMBELLISHMENT@
}

proof fn lemma_pipeline_members(base: Members, s: SettingsView)
    ensures
        ({
            let longer = with_pipeline_members(base, s);
            &&& forall|key: Seq<char>|
                outside_pipeline(key) ==> #[trigger] has_key(longer, key) == has_key(base, key)
            &&& forall|key: Seq<char>|
                outside_pipeline(key) ==> #[trigger] lookup(longer, key) == lookup(base, key)
            &&& adds(base, longer, KEY_ENABLE_DLP_SCAN@, JsonValue::Bool(s.enable_dlp_scan))
            &&& adds(base, longer, KEY_DLP_ACTION@, JsonValue::Text(s.dlp_action))
            &&& adds(base, longer, KEY_OFFLINE_MODE@, JsonValue::Bool(s.offline_mode))
            &&& adds(
                base,
                longer,
                KEY_NATURALIZE_EXPRESSIONS@,
                JsonValue::Bool(s.naturalize_expressions),
            )
            &&& adds(base, longer, KEY_AUTO_PUNCTUATION@, JsonValue::Bool(s.auto_punctuation))
            &&& adds(base, longer, KEY_UNIFY_FOREIGN_WORDS@, JsonValue::Bool(s.unify_foreign_words))
            &&& adds(
                base,
                longer,
                KEY_PRESERVE_ORIGINAL_PROPER_NOUNS@,
                JsonValue::Bool(s.preserve_original_proper_nouns),
            )
            &&& adds(
                base,
                longer,
                KEY_NO_SUMMARY_OR_EMBELLISHMENT@,
                JsonValue::Bool(s.no_summary_or_embellishment),
            )
        }),
{
    reveal(with_pipeline_members);
    lemma_key_tags();
    lemma_push_rules();
}

/// The key is none of those that `with_rule_members` adds.
spec fn outside_rule(key: Seq<char>) -> bool {
    &&& key != KEY_CUSTOM_REPLACE_RULES@
}

proof fn lemma_rule_members(base: Members, s: SettingsView)
    ensures
        ({
            let longer = with_rule_members(base, s);
            &&& forall|key: Seq<char>|
                outside_rule(key) ==> #[trigger] has_key(longer, key) == has_key(base, key)
            &&& forall|key: Seq<char>|
                outside_rule(key) ==> #[trigger] lookup(longer, key) == lookup(base, key)
            &&& adds(
                base,
                longer,
                KEY_CUSTOM_REPLACE_RULES@,
                rule_list_json(s.custom_replace_rules),
            )
        }),
{
    reveal(with_rule_members);
    lemma_key_tags();
    lemma_push_rules();
}

proof fn lemma_general_fields_read_back(s: SettingsView)
    ensures
        ({
            let members = settings_members(s);
            &&& field_u32(members, KEY_SETTINGS_VERSION@) == Some(s.settings_version)
            &&& field_text(members, KEY_SECURITY_MASTER_MODE@) == Some(s.security_master_mode)
            &&& field_bool(members, KEY_ENABLE_GEMINI@) == Some(s.enable_gemini)
            &&& field_bool(members, KEY_NO_SAVE@) == Some(s.no_save)
            &&& field_bool(members, KEY_ENCRYPT_TEMP_FILES@) == Some(s.encrypt_temp_files)
            &&& field_bool(members, KEY_AUTO_CLEAR_CLIPBOARD@) == Some(s.auto_clear_clipboard)
            &&& field_bool(members, KEY_CLEAR_ALL_ON_EXIT@) == Some(s.clear_all_on_exit)
        }),
{
    lemma_key_tags();
    lemma_push_rules();
    let b0 = Members::empty();
    let b1 = with_general_members(b0, s);
    let b2 = with_masking_members(b1, s);
    let b3 = with_service_members(b2, s);
    let b4 = with_pipeline_members(b3, s);
    lemma_general_members(b0, s);
    lemma_masking_members(b1, s);
    lemma_service_members(b2, s);
    lemma_pipeline_members(b3, s);
    lemma_rule_members(b4, s);
    reveal(field_bool);
    reveal(field_text);
    reveal(field_u32);
    let members = settings_members(s);
    assert(lookup(members, KEY_SETTINGS_VERSION@) == Some(u32_json(s.settings_version)));
    assert(lookup(members, KEY_SECURITY_MASTER_MODE@) == Some(
        JsonValue::Text(s.security_master_mode),
    ));
    assert(lookup(members, KEY_ENABLE_GEMINI@) == Some(JsonValue::Bool(s.enable_gemini)));
    assert(lookup(members, KEY_NO_SAVE@) == Some(JsonValue::Bool(s.no_save)));
    assert(lookup(members, KEY_ENCRYPT_TEMP_FILES@) == Some(JsonValue::Bool(s.encrypt_temp_files)));
    assert(lookup(members, KEY_AUTO_CLEAR_CLIPBOARD@) == Some(
        JsonValue::Bool(s.auto_clear_clipboard),
    ));
    assert(lookup(members, KEY_CLEAR_ALL_ON_EXIT@) == Some(JsonValue::Bool(s.clear_all_on_exit)));
}

proof fn lemma_masking_fields_read_back(s: SettingsView)
    ensures
        ({
            let members = settings_members(s);
            &&& field_text(members, KEY_MASK_STRENGTH@) == Some(s.mask_strength)
            &&& field_bool(members, KEY_MASK_PHONE@) == Some(s.mask_phone)
            &&& field_bool(members, KEY_MASK_EMAIL@) == Some(s.mask_email)
            &&& field_bool(members, KEY_MASK_ADDRESS@) == Some(s.mask_address)
            &&& field_bool(members, KEY_MASK_NUMBERS@) == Some(s.mask_numbers)
            &&& field_bool(members, KEY_MASK_NAMES@) == Some(s.mask_names)
            &&& field_text_list(members, KEY_WHITELIST_WORDS@) == Some(s.whitelist_words)
        }),
{
    lemma_key_tags();
    lemma_push_rules();
    let b0 = Members::empty();
    let b1 = with_general_members(b0, s);
    let b2 = with_masking_members(b1, s);
    let b3 = with_service_members(b2, s);
    let b4 = with_pipeline_members(b3, s);
    lemma_general_members(b0, s);
    lemma_masking_members(b1, s);
    lemma_service_members(b2, s);
    lemma_pipeline_members(b3, s);
    lemma_rule_members(b4, s);
    reveal(field_bool);
    reveal(field_text);
    reveal(field_text_list);
    lemma_text_list_reads_back(s.whitelist_words);
    let members = settings_members(s);
    assert(lookup(members, KEY_MASK_STRENGTH@) == Some(JsonValue::Text(s.mask_strength)));
    assert(lookup(members, KEY_MASK_PHONE@) == Some(JsonValue::Bool(s.mask_phone)));
    assert(lookup(members, KEY_MASK_EMAIL@) == Some(JsonValue::Bool(s.mask_email)));
    assert(lookup(members, KEY_MASK_ADDRESS@) == Some(JsonValue::Bool(s.mask_address)));
    assert(lookup(members, KEY_MASK_NUMBERS@) == Some(JsonValue::Bool(s.mask_numbers)));
    assert(lookup(members, KEY_MASK_NAMES@) == Some(JsonValue::Bool(s.mask_names)));
    assert(lookup(members, KEY_WHITELIST_WORDS@) == Some(text_list_json(s.whitelist_words)));
}

proof fn lemma_service_fields_read_back(s: SettingsView)
    ensures
        ({
            let members = settings_members(s);
            &&& field_bool(members, KEY_SEND_TEXT_ONLY_TO_GEMINI@) == Some(
                s.send_text_only_to_gemini,
            )
            &&& field_bool(members, KEY_DISABLE_DATA_TRAINING@) == Some(s.disable_data_training)
            &&& field_text(members, KEY_REGION_PREFERENCE@) == Some(s.region_preference)
            &&& field_bool(members, KEY_USE_BYO_KEY@) == Some(s.use_byo_key)
            &&& field_bool(members, KEY_SAVE_EMAIL_DISPLAY_NAME@) == Some(s.save_email_display_name)
            &&& field_bool(members, KEY_SHORT_LIVED_SESSION@) == Some(s.short_lived_session)
            &&& field_bool(members, KEY_CLEAR_TOKENS_ON_LOGOUT@) == Some(s.clear_tokens_on_logout)
            &&& field_bool(members, KEY_ENABLE_ERROR_LOGS@) == Some(s.enable_error_logs)
            &&& field_bool(members, KEY_ENABLE_USAGE_STATS@) == Some(s.enable_usage_stats)
            &&& field_u32(members, KEY_AUTO_DELETE_LOGS_AFTER_DAYS@) == Some(
                s.auto_delete_logs_after_days,
            )
        }),
{
    lemma_key_tags();
    lemma_push_rules();
    let b0 = Members::empty();
    let b1 = with_general_members(b0, s);
    let b2 = with_masking_members(b1, s);
    let b3 = with_service_members(b2, s);
    let b4 = with_pipeline_members(b3, s);
    lemma_general_members(b0, s);
    lemma_masking_members(b1, s);
    lemma_service_members(b2, s);
    lemma_pipeline_members(b3, s);
    lemma_rule_members(b4, s);
    reveal(field_bool);
    reveal(field_text);
    reveal(field_u32);
    let members = settings_members(s);
    assert(lookup(members, KEY_SEND_TEXT_ONLY_TO_GEMINI@) == Some(
        JsonValue::Bool(s.send_text_only_to_gemini),
    ));
    assert(lookup(members, KEY_DISABLE_DATA_TRAINING@) == Some(
        JsonValue::Bool(s.disable_data_training),
    ));
    assert(lookup(members, KEY_REGION_PREFERENCE@) == Some(JsonValue::Text(s.region_preference)));
    assert(lookup(members, KEY_USE_BYO_KEY@) == Some(JsonValue::Bool(s.use_byo_key)));
    assert(lookup(members, KEY_SAVE_EMAIL_DISPLAY_NAME@) == Some(
        JsonValue::Bool(s.save_email_display_name),
    ));
    assert(lookup(members, KEY_SHORT_LIVED_SESSION@) == Some(
        JsonValue::Bool(s.short_lived_session),
    ));
    assert(lookup(members, KEY_CLEAR_TOKENS_ON_LOGOUT@) == Some(
        JsonValue::Bool(s.clear_tokens_on_logout),
    ));
    assert(lookup(members, KEY_ENABLE_ERROR_LOGS@) == Some(JsonValue::Bool(s.enable_error_logs)));
    assert(lookup(members, KEY_ENABLE_USAGE_STATS@) == Some(JsonValue::Bool(s.enable_usage_stats)));
    assert(lookup(members, KEY_AUTO_DELETE_LOGS_AFTER_DAYS@) == Some(
        u32_json(s.auto_delete_logs_after_days),
    ));
}

proof fn lemma_pipeline_fields_read_back(s: SettingsView)
    ensures
        ({
            let members = settings_members(s);
            &&& field_bool(members, KEY_ENABLE_DLP_SCAN@) == Some(s.enable_dlp_scan)
            &&& field_text(members, KEY_DLP_ACTION@) == Some(s.dlp_action)
            &&& field_bool(members, KEY_OFFLINE_MODE@) == Some(s.offline_mode)
            &&& field_bool(members, KEY_NATURALIZE_EXPRESSIONS@) == Some(s.naturalize_expressions)
            &&& field_bool(members, KEY_AUTO_PUNCTUATION@) == Some(s.auto_punctuation)
            &&& field_bool(members, KEY_UNIFY_FOREIGN_WORDS@) == Some(s.unify_foreign_words)
            &&& field_bool(members, KEY_PRESERVE_ORIGINAL_PROPER_NOUNS@) == Some(
                s.preserve_original_proper_nouns,
            )
            &&& field_bool(members, KEY_NO_SUMMARY_OR_EMBELLISHMENT@) == Some(
                s.no_summary_or_embellishment,
            )
        }),
{
    lemma_key_tags();
    lemma_push_rules();
    let b0 = Members::empty();
    let b1 = with_general_members(b0, s);
    let b2 = with_masking_members(b1, s);
    let b3 = with_service_members(b2, s);
    let b4 = with_pipeline_members(b3, s);
    lemma_general_members(b0, s);
    lemma_masking_members(b1, s);
    lemma_service_members(b2, s);
    lemma_pipeline_members(b3, s);
    lemma_rule_members(b4, s);
    reveal(field_bool);
    reveal(field_text);
    let members = settings_members(s);
    assert(lookup(members, KEY_ENABLE_DLP_SCAN@) == Some(JsonValue::Bool(s.enable_dlp_scan)));
    assert(lookup(members, KEY_DLP_ACTION@) == Some(JsonValue::Text(s.dlp_action)));
    assert(lookup(members, KEY_OFFLINE_MODE@) == Some(JsonValue::Bool(s.offline_mode)));
    assert(lookup(members, KEY_NATURALIZE_EXPRESSIONS@) == Some(
        JsonValue::Bool(s.naturalize_expressions),
    ));
    assert(lookup(members, KEY_AUTO_PUNCTUATION@) == Some(JsonValue::Bool(s.auto_punctuation)));
    assert(lookup(members, KEY_UNIFY_FOREIGN_WORDS@) == Some(
        JsonValue::Bool(s.unify_foreign_words),
    ));
    assert(lookup(members, KEY_PRESERVE_ORIGINAL_PROPER_NOUNS@) == Some(
        JsonValue::Bool(s.preserve_original_proper_nouns),
    ));
    assert(lookup(members, KEY_NO_SUMMARY_OR_EMBELLISHMENT@) == Some(
        JsonValue::Bool(s.no_summary_or_embellishment),
    ));
}

proof fn lemma_rule_fields_read_back(s: SettingsView)
    ensures
        ({
            let members = settings_members(s);
            &&& field_rule_list(members, KEY_CUSTOM_REPLACE_RULES@) == Some(s.custom_replace_rules)
        }),
{
    lemma_key_tags();
    lemma_push_rules();
    let b0 = Members::empty();
    let b1 = with_general_members(b0, s);
    let b2 = with_masking_members(b1, s);
    let b3 = with_service_members(b2, s);
    let b4 = with_pipeline_members(b3, s);
    lemma_general_members(b0, s);
    lemma_masking_members(b1, s);
    lemma_service_members(b2, s);
    lemma_pipeline_members(b3, s);
    lemma_rule_members(b4, s);
    reveal(field_rule_list);
    lemma_rule_list_reads_back(s.custom_replace_rules);
    let members = settings_members(s);
    assert(lookup(members, KEY_CUSTOM_REPLACE_RULES@) == Some(
        rule_list_json(s.custom_replace_rules),
    ));
}

/// Every field of a record is found in the object that the record is
/// written as.
proof fn lemma_written_record_is_complete(s: SettingsView)
    ensures
        first_bad_key(settings_members(s)) is None,
{
    lemma_general_fields_read_back(s);
    lemma_masking_fields_read_back(s);
    lemma_service_fields_read_back(s);
    lemma_pipeline_fields_read_back(s);
    lemma_rule_fields_read_back(s);
}

/// The fields found in the object that a record is written as are the
/// fields of the record.
proof fn lemma_written_record_reads_back(s: SettingsView)
    ensures
        settings_from(settings_members(s)) == s,
{
    lemma_general_fields_read_back(s);
    lemma_masking_fields_read_back(s);
    lemma_service_fields_read_back(s);
    lemma_pipeline_fields_read_back(s);
    lemma_rule_fields_read_back(s);
}

/// A record written as an object is read back as the same record.
pub proof fn lemma_settings_round_trip(s: SettingsView)
    ensures
        settings_of(settings_json(s)) == Ok::<SettingsView, ValidationFailure>(s),
{
    lemma_written_record_is_complete(s);
    lemma_written_record_reads_back(s);
}

/// A patch without members changes nothing.
pub proof fn lemma_empty_patch_keeps_settings(s: SettingsView)
    ensures
        update_outcome(s, JsonValue::Object(Seq::empty())) == Ok::<SettingsView, ValidationFailure>(
            s,
        ),
{
    lemma_settings_round_trip(s);
}

/// The patch that sets the custom rules to `rules` and touches nothing else.
pub open spec fn rules_patch(rules: Seq<RuleView>) -> JsonValue {
    JsonValue::Object(Seq::empty().push((KEY_CUSTOM_REPLACE_RULES@, rule_list_json(rules))))
}

/// The members in front of the custom rules do not depend on the rules.
proof fn lemma_members_before_rules(s: SettingsView, rules: Seq<RuleView>) -> (base: Members)
    ensures
        settings_members(s) == base.push(
            (KEY_CUSTOM_REPLACE_RULES@, rule_list_json(s.custom_replace_rules)),
        ),
        settings_members(SettingsView { custom_replace_rules: rules, ..s }) == base.push(
            (KEY_CUSTOM_REPLACE_RULES@, rule_list_json(rules)),
        ),
        !has_key(base, KEY_CUSTOM_REPLACE_RULES@),
{
    let next = SettingsView { custom_replace_rules: rules, ..s };
    let b0 = Members::empty();
    let b1 = with_general_members(b0, s);
    let b2 = with_masking_members(b1, s);
    let b3 = with_service_members(b2, s);
    let b4 = with_pipeline_members(b3, s);
    assert(with_general_members(b0, next) == b1) by {
        reveal(with_general_members);
    }
    assert(with_masking_members(b1, next) == b2) by {
        reveal(with_masking_members);
    }
    assert(with_service_members(b2, next) == b3) by {
        reveal(with_service_members);
    }
    assert(with_pipeline_members(b3, next) == b4) by {
        reveal(with_pipeline_members);
    }
    reveal(with_rule_members);
    lemma_key_tags();
    lemma_push_rules();
    lemma_general_members(b0, s);
    lemma_masking_members(b1, s);
    lemma_service_members(b2, s);
    lemma_pipeline_members(b3, s);
    b4
}

/// A patch that carries a list of rules replaces the list as a whole: the
/// rules that were configured before are gone, whatever their number, and
/// every other field keeps its value.
pub proof fn lemma_rules_patch_replaces_rules(s: SettingsView, rules: Seq<RuleView>)
    ensures
        update_outcome(s, rules_patch(rules)) == Ok::<SettingsView, ValidationFailure>(
            SettingsView { custom_replace_rules: rules, ..s },
        ),
{
    let next = SettingsView { custom_replace_rules: rules, ..s };
    let members = settings_members(s);
    let key = KEY_CUSTOM_REPLACE_RULES@;
    let patch = Seq::empty().push((key, rule_list_json(rules)));
    let base = lemma_members_before_rules(s, rules);
    lemma_lookup_push(base, key, rule_list_json(s.custom_replace_rules), key);
    assert(has_key(members, key) && first_index(members, key) == base.len());
    assert(merge_first(members, patch, 0) == members);
    assert(merge_first(members, patch, 1) == members.update(
        base.len() as int,
        (key, merge_value(members[base.len() as int].1, rule_list_json(rules))),
    ));
    assert(merge_first(members, patch, 1) =~= base.push((key, rule_list_json(rules))));
    lemma_settings_round_trip(next);
}

} // verus!
