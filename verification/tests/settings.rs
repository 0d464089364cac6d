use privacy_mask::settings::AppSettings;

#[test]
fn default_settings() {
    let s = AppSettings::default();
    assert_eq!(s.settings_version, 1);
    assert_eq!(s.security_master_mode, "standard");
    assert!(s.enable_gemini);
    assert!(s.no_save);
    assert!(s.encrypt_temp_files);
    assert!(s.auto_clear_clipboard);
    assert!(s.clear_all_on_exit);
    assert_eq!(s.mask_strength, "standard");
    assert!(s.mask_phone);
    assert!(s.mask_email);
    assert!(s.mask_address);
    assert!(s.mask_numbers);
    assert!(!s.mask_names);
    assert!(s.whitelist_words.is_empty());
    assert!(s.send_text_only_to_gemini);
    assert!(s.disable_data_training);
    assert_eq!(s.region_preference, "nearest");
    assert!(s.use_byo_key);
    assert!(!s.save_email_display_name);
    assert!(s.short_lived_session);
    assert!(s.clear_tokens_on_logout);
    assert!(!s.enable_error_logs);
    assert!(!s.enable_usage_stats);
    assert_eq!(s.auto_delete_logs_after_days, 90);
    assert!(s.enable_dlp_scan);
    assert_eq!(s.dlp_action, "mask");
    assert!(!s.offline_mode);
    assert!(s.naturalize_expressions);
    assert!(s.auto_punctuation);
    assert!(s.unify_foreign_words);
    assert!(s.preserve_original_proper_nouns);
    assert!(s.no_summary_or_embellishment);
    assert!(s.custom_replace_rules.is_empty());
}
