//! The configuration record that parameterises every stage of the masking
//! pipeline, and the user-defined replace rules it carries.

use vstd::prelude::*;
use vstd::string::*;

verus! {

/// A user-authored rewrite: every match of `pattern` is replaced by `replace`.
/// `flags`, when present, is an inline modifier group (such as `i`) that is
/// put in front of the pattern when it is compiled.
#[derive(Debug, Clone, PartialEq, Eq)]
pub struct ReplaceRule {
    pub pattern: String,
    pub replace: String,
    pub flags: Option<String>,
}

/// Mathematical model of a [`ReplaceRule`].
pub ghost struct RuleView {
    pub pattern: Seq<char>,
    pub replace: Seq<char>,
    pub flags: Option<Seq<char>>,
}

impl View for ReplaceRule {
    type V = RuleView;

    open spec fn view(&self) -> RuleView {
        RuleView {
            pattern: self.pattern@,
            replace: self.replace@,
            flags: match self.flags {
                Some(f) => Some(f@),
                None => None,
            },
        }
    }
}

/// The models of a list of rules, in order.
pub open spec fn rule_views(rules: Seq<ReplaceRule>) -> Seq<RuleView> {
    Seq::new(rules.len(), |i: int| rules[i]@)
}

/// The models of a list of strings, in order.
pub open spec fn text_views(items: Seq<String>) -> Seq<Seq<char>> {
    Seq::new(items.len(), |i: int| items[i]@)
}

/// The versioned settings record. Only the masking toggles, the DLP fields,
/// the formatting toggles and the custom rules influence the library; the
/// other fields are carried for the surrounding application.
#[derive(Debug, Clone, PartialEq, Eq)]
pub struct AppSettings {
    pub settings_version: u32,
    pub security_master_mode: String,
    pub enable_gemini: bool,
    pub no_save: bool,
    pub encrypt_temp_files: bool,
    pub auto_clear_clipboard: bool,
    pub clear_all_on_exit: bool,
    pub mask_strength: String,
    pub mask_phone: bool,
    pub mask_email: bool,
    pub mask_address: bool,
    pub mask_numbers: bool,
    pub mask_names: bool,
    pub whitelist_words: Vec<String>,
    pub send_text_only_to_gemini: bool,
    pub disable_data_training: bool,
    pub region_preference: String,
    pub use_byo_key: bool,
    pub save_email_display_name: bool,
    pub short_lived_session: bool,
    pub clear_tokens_on_logout: bool,
    pub enable_error_logs: bool,
    pub enable_usage_stats: bool,
    pub auto_delete_logs_after_days: u32,
    pub enable_dlp_scan: bool,
    pub dlp_action: String,
    pub offline_mode: bool,
    pub naturalize_expressions: bool,
    pub auto_punctuation: bool,
    pub unify_foreign_words: bool,
    pub preserve_original_proper_nouns: bool,
    pub no_summary_or_embellishment: bool,
    pub custom_replace_rules: Vec<ReplaceRule>,
}

/// Mathematical model of [`AppSettings`]: every field as a plain value.
pub ghost struct SettingsView {
    pub settings_version: u32,
    pub security_master_mode: Seq<char>,
    pub enable_gemini: bool,
    pub no_save: bool,
    pub encrypt_temp_files: bool,
    pub auto_clear_clipboard: bool,
    pub clear_all_on_exit: bool,
    pub mask_strength: Seq<char>,
    pub mask_phone: bool,
    pub mask_email: bool,
    pub mask_address: bool,
    pub mask_numbers: bool,
    pub mask_names: bool,
    pub whitelist_words: Seq<Seq<char>>,
    pub send_text_only_to_gemini: bool,
    pub disable_data_training: bool,
    pub region_preference: Seq<char>,
    pub use_byo_key: bool,
    pub save_email_display_name: bool,
    pub short_lived_session: bool,
    pub clear_tokens_on_logout: bool,
    pub enable_error_logs: bool,
    pub enable_usage_stats: bool,
    pub auto_delete_logs_after_days: u32,
    pub enable_dlp_scan: bool,
    pub dlp_action: Seq<char>,
    pub offline_mode: bool,
    pub naturalize_expressions: bool,
    pub auto_punctuation: bool,
    pub unify_foreign_words: bool,
    pub preserve_original_proper_nouns: bool,
    pub no_summary_or_embellishment: bool,
    pub custom_replace_rules: Seq<RuleView>,
}

impl View for AppSettings {
    type V = SettingsView;

    open spec fn view(&self) -> SettingsView {
        SettingsView {
            settings_version: self.settings_version,
            security_master_mode: self.security_master_mode@,
            enable_gemini: self.enable_gemini,
            no_save: self.no_save,
            encrypt_temp_files: self.encrypt_temp_files,
            auto_clear_clipboard: self.auto_clear_clipboard,
            clear_all_on_exit: self.clear_all_on_exit,
            mask_strength: self.mask_strength@,
            mask_phone: self.mask_phone,
            mask_email: self.mask_email,
            mask_address: self.mask_address,
            mask_numbers: self.mask_numbers,
            mask_names: self.mask_names,
            whitelist_words: text_views(self.whitelist_words@),
            send_text_only_to_gemini: self.send_text_only_to_gemini,
            disable_data_training: self.disable_data_training,
            region_preference: self.region_preference@,
            use_byo_key: self.use_byo_key,
            save_email_display_name: self.save_email_display_name,
            short_lived_session: self.short_lived_session,
            clear_tokens_on_logout: self.clear_tokens_on_logout,
            enable_error_logs: self.enable_error_logs,
            enable_usage_stats: self.enable_usage_stats,
            auto_delete_logs_after_days: self.auto_delete_logs_after_days,
            enable_dlp_scan: self.enable_dlp_scan,
            dlp_action: self.dlp_action@,
            offline_mode: self.offline_mode,
            naturalize_expressions: self.naturalize_expressions,
            auto_punctuation: self.auto_punctuation,
            unify_foreign_words: self.unify_foreign_words,
            preserve_original_proper_nouns: self.preserve_original_proper_nouns,
            no_summary_or_embellishment: self.no_summary_or_embellishment,
            custom_replace_rules: rule_views(self.custom_replace_rules@),
        }
    }
}

/// The settings a fresh installation starts with: everything protective is
/// on, DLP scanning masks rather than blocks, and no custom rule is defined.
pub open spec fn default_settings() -> SettingsView {
    SettingsView {
        settings_version: 1,
        security_master_mode: "standard"@,
        enable_gemini: true,
        no_save: true,
        encrypt_temp_files: true,
        auto_clear_clipboard: true,
        clear_all_on_exit: true,
        mask_strength: "standard"@,
        mask_phone: true,
        mask_email: true,
        mask_address: true,
        mask_numbers: true,
        mask_names: false,
        whitelist_words: Seq::empty(),
        send_text_only_to_gemini: true,
        disable_data_training: true,
        region_preference: "nearest"@,
        use_byo_key: true,
        save_email_display_name: false,
        short_lived_session: true,
        clear_tokens_on_logout: true,
        enable_error_logs: false,
        enable_usage_stats: false,
        auto_delete_logs_after_days: 90,
        enable_dlp_scan: true,
        dlp_action: "mask"@,
        offline_mode: false,
        naturalize_expressions: true,
        auto_punctuation: true,
        unify_foreign_words: true,
        preserve_original_proper_nouns: true,
        no_summary_or_embellishment: true,
        custom_replace_rules: Seq::empty(),
    }
}

impl Default for AppSettings {
    fn default() -> (s: Self)
        ensures
            s@ == default_settings(),
    {
        let s = AppSettings {
            settings_version: 1,
            security_master_mode: String::from_str("standard"),
            enable_gemini: true,
            no_save: true,
            encrypt_temp_files: true,
            auto_clear_clipboard: true,
            clear_all_on_exit: true,
            mask_strength: String::from_str("standard"),
            mask_phone: true,
            mask_email: true,
            mask_address: true,
            mask_numbers: true,
            mask_names: false,
            whitelist_words: Vec::new(),
            send_text_only_to_gemini: true,
            disable_data_training: true,
            region_preference: String::from_str("nearest"),
            use_byo_key: true,
            save_email_display_name: false,
            short_lived_session: true,
            clear_tokens_on_logout: true,
            enable_error_logs: false,
            enable_usage_stats: false,
            auto_delete_logs_after_days: 90,
            enable_dlp_scan: true,
            dlp_action: String::from_str("mask"),
            offline_mode: false,
            naturalize_expressions: true,
            auto_punctuation: true,
            unify_foreign_words: true,
            preserve_original_proper_nouns: true,
            no_summary_or_embellishment: true,
            custom_replace_rules: Vec::new(),
        };
        assert(s@.whitelist_words =~= Seq::empty());
        assert(s@.custom_replace_rules =~= Seq::empty());
        s
    }
}

} // verus!
