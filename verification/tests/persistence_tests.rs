use hayate_kit_settings::persistence::{
    load_from_document, load_from_str, resolve_config_path, sibling_with_suffix, AdvancedConfig,
    AppearanceConfig, CandidatePosition, ColorMode, Config, DebouncedSaver, GeneralConfig,
    ImeBackend, LangConfig, LogLevel, ParsedDocument, ThemeId, CURRENT_SCHEMA_VERSION,
};

fn doc(version_field: Option<u64>, as_current: Option<Config>) -> Option<ParsedDocument> {
    Some(ParsedDocument { version_field, as_current })
}

fn customized() -> Config {
    let mut c = Config::default();
    c.general.language = LangConfig::Ja;
    c.appearance.font_size_scale_bits = 17.5f32.to_bits();
    c.ime.backend = ImeBackend::Fcitx5;
    c.advanced.log_level = LogLevel::Debug;
    c
}

// ── path resolution ────────────────────────────────────────────────────

#[test]
fn resolve_config_path_absolute_xdg() {
    let p = resolve_config_path(Some("/xdg"), Some("/home/u"));
    assert_eq!(p.as_deref(), Some("/xdg/hayate-kit-settings/config.json"));
}

#[test]
fn resolve_config_path_empty_xdg_falls_back_to_home() {
    let p = resolve_config_path(Some(""), Some("/home/u"));
    assert_eq!(p.as_deref(), Some("/home/u/.config/hayate-kit-settings/config.json"));
}

#[test]
fn resolve_config_path_relative_xdg_is_ignored() {
    let p = resolve_config_path(Some("foo"), Some("/home/u"));
    assert_eq!(p.as_deref(), Some("/home/u/.config/hayate-kit-settings/config.json"));
}

#[test]
fn resolve_config_path_no_xdg_uses_home() {
    let p = resolve_config_path(None, Some("/home/u"));
    assert_eq!(p.as_deref(), Some("/home/u/.config/hayate-kit-settings/config.json"));
}

#[test]
fn resolve_config_path_home_unset_returns_none() {
    assert_eq!(resolve_config_path(None, None), None);
}

#[test]
fn resolve_config_path_relative_xdg_and_home_unset_returns_none() {
    assert_eq!(resolve_config_path(Some("foo"), None), None);
}

#[test]
fn resolve_config_path_relative_home_returns_none() {
    assert_eq!(resolve_config_path(None, Some("rel/home")), None);
    assert_eq!(resolve_config_path(Some("foo"), Some("rel/home")), None);
    assert_eq!(resolve_config_path(Some(""), Some("rel/home")), None);
}

#[test]
fn resolve_config_path_empty_home_returns_none() {
    assert_eq!(resolve_config_path(None, Some("")), None);
}

#[test]
fn resolve_config_path_trailing_slash_is_not_doubled() {
    let p = resolve_config_path(Some("/xdg/"), None);
    assert_eq!(p.as_deref(), Some("/xdg/hayate-kit-settings/config.json"));
    let q = resolve_config_path(None, Some("/home/u/"));
    assert_eq!(q.as_deref(), Some("/home/u/.config/hayate-kit-settings/config.json"));
}

#[test]
fn sibling_with_suffix_appends_literally() {
    assert_eq!(sibling_with_suffix("/a/config.json", ".bak"), "/a/config.json.bak");
    assert_eq!(sibling_with_suffix("/a/config.json", ".tmp"), "/a/config.json.tmp");
}

// ── defaults ───────────────────────────────────────────────────────────

#[test]
fn default_config_has_current_schema_version() {
    assert_eq!(Config::default().version, CURRENT_SCHEMA_VERSION);
}

#[test]
fn general_defaults_match_user_expectation() {
    let g = GeneralConfig::default();
    assert_eq!(g.language, LangConfig::En);
    assert!(!g.startup_reset_window);
    assert!(g.remember_window_position);
}

#[test]
fn appearance_defaults_match_hayate_baseline() {
    let a = AppearanceConfig::default();
    assert!((f32::from_bits(a.font_size_scale_bits) - 14.0).abs() < f32::EPSILON);
    assert_eq!(a.color_mode, ColorMode::Dark);
    assert_eq!(a.accent_hex, "#5A8BA8");
    assert_eq!(a.theme_id, ThemeId::HayateOriginal);
}

#[test]
fn advanced_defaults_match_info_log_level() {
    let a = AdvancedConfig::default();
    assert!(!a.debug_overlay);
    assert_eq!(a.log_level, LogLevel::Info);
}

#[test]
fn enum_defaults_match_schema() {
    assert_eq!(LangConfig::default(), LangConfig::En);
    assert_eq!(ColorMode::default(), ColorMode::Dark);
    assert_eq!(ImeBackend::default(), ImeBackend::Ibus);
    assert_eq!(CandidatePosition::default(), CandidatePosition::CursorAnchor);
    assert_eq!(ThemeId::default(), ThemeId::HayateOriginal);
}

// ── version dispatch ───────────────────────────────────────────────────

#[test]
fn migrate_v0_to_v1_fills_defaults() {
    // The JSON layer reads this text as a version-0 body with default sections.
    let mut as_read = Config::default();
    as_read.version = 0;
    let migrated = load_from_str(r#"{ "version": 0 }"#, Some(as_read));
    assert_eq!(migrated.version, CURRENT_SCHEMA_VERSION);
    assert_eq!(migrated, Config::default());
}

#[test]
fn migrate_v0_to_v1_works_for_empty_object_too() {
    // No `version` member: the body does not read as a `Config`.
    let migrated = load_from_str("{}", None);
    assert_eq!(migrated.version, CURRENT_SCHEMA_VERSION);
}

#[test]
fn load_from_str_handles_malformed_json_with_defaults() {
    let c = load_from_str("this is not json {{{", Some(customized()));
    assert_eq!(c, Config::default());
}

#[test]
fn load_from_str_handles_partial_field_corruption_with_section_default() {
    let raw = r#"{
        "version": 1,
        "general": { "language": "ja", "startup_reset_window": true,
                     "remember_window_position": "not-a-bool" }
    }"#;
    let c = load_from_str(raw, None);
    assert_eq!(c, Config::default());
}

#[test]
fn load_from_str_rejects_future_version_with_defaults() {
    let raw = format!(r#"{{ "version": {} }}"#, CURRENT_SCHEMA_VERSION + 99);
    let mut as_read = Config::default();
    as_read.version = CURRENT_SCHEMA_VERSION + 99;
    let c = load_from_str(&raw, Some(as_read));
    assert_eq!(c, Config::default());
}

#[test]
fn current_version_text_is_taken_as_read() {
    let raw = r#"{
        "version": 1,
        "general": { "language": "ja" },
        "appearance": { "font_size_scale": 17.5 },
        "ime": { "backend": "fcitx5" },
        "advanced": { "log_level": "debug" }
    }"#;
    assert_eq!(load_from_str(raw, Some(customized())), customized());
}

#[test]
fn non_object_json_text_is_migrated_to_defaults() {
    assert_eq!(load_from_str("[1, 2, 3]", None), Config::default());
    assert_eq!(load_from_str("42", None), Config::default());
}

#[test]
fn version_member_that_is_not_an_integer_counts_as_version_zero() {
    let c = load_from_str(r#"{ "version": "1" }"#, None);
    assert_eq!(c, Config::default());
}

#[test]
fn version_member_beyond_32_bits_gives_defaults() {
    // 2^32 + 1 reads as version 1 but the body's `u32` version cannot hold
    // it, so the body does not parse.
    assert_eq!(load_from_str(r#"{ "version": 4294967297 }"#, None), Config::default());
    // 2^32 reads as version 0 and is migrated.
    assert_eq!(load_from_str(r#"{ "version": 4294967296 }"#, None), Config::default());
}

#[test]
fn current_version_document_is_taken_as_read() {
    assert_eq!(load_from_document(doc(Some(1), Some(customized()))), customized());
}

#[test]
fn body_of_another_version_is_not_taken() {
    let mut other = customized();
    other.version = 2;
    assert_eq!(load_from_document(doc(Some(1), Some(other))), Config::default());
    assert_eq!(load_from_document(doc(Some(1), None)), Config::default());
}

// ── debouncer ──────────────────────────────────────────────────────────

#[test]
fn debouncer_starts_idle() {
    let d = DebouncedSaver::new();
    assert!(!d.has_pending());
    assert!(!d.is_ready());
}

#[test]
fn debouncer_request_marks_pending_but_not_ready() {
    let mut d = DebouncedSaver::new();
    d.request();
    assert!(d.has_pending());
    assert!(!d.is_ready());
}

#[test]
fn debouncer_ready_after_quiet_period_elapses() {
    let mut d = DebouncedSaver::with_quiet_period(std::time::Duration::from_millis(20));
    d.request();
    assert!(!d.ready_after(10_000_000));
    assert!(d.ready_after(40_000_000));
}

#[test]
fn debouncer_clear_resets_pending() {
    let mut d = DebouncedSaver::with_quiet_period(std::time::Duration::from_millis(1));
    d.request();
    assert!(d.ready_after(5_000_000));
    d.clear();
    assert!(!d.has_pending());
    assert!(!d.is_ready());
    assert!(!d.ready_after(5_000_000));
}

#[test]
fn debouncer_default_quiet_period_is_half_a_second() {
    let mut d = DebouncedSaver::default();
    d.request();
    assert!(!d.ready_after(499_999_999));
    assert!(d.ready_after(500_000_000));
}

#[test]
fn debouncer_zero_quiet_period_is_ready_once_requested() {
    let mut d = DebouncedSaver::with_quiet_period(std::time::Duration::ZERO);
    assert!(!d.is_ready());
    d.request();
    assert!(d.is_ready());
    assert!(d.ready_after(0));
}

#[test]
fn debouncer_custom_quiet_period_is_kept_in_nanoseconds() {
    let mut d = DebouncedSaver::with_quiet_period(std::time::Duration::new(2, 5));
    d.request();
    assert!(!d.ready_after(2_000_000_004));
    assert!(d.ready_after(2_000_000_005));
}

#[test]
fn debouncer_subsequent_request_resets_quiet_window() {
    let mut d = DebouncedSaver::with_quiet_period(std::time::Duration::from_millis(50));
    let t1 = std::time::Instant::now();
    d.request_at(t1);
    let t2 = t1 + std::time::Duration::from_millis(30);
    d.request_at(t2);
    // 70 ms after the first request but only 40 ms after the second.
    assert!(!d.ready_at(t2 + std::time::Duration::from_millis(40)));
    assert!(d.ready_at(t2 + std::time::Duration::from_millis(50)));
    d.clear();
    assert!(!d.ready_at(t2 + std::time::Duration::from_millis(500)));
}

#[test]
fn debouncer_reading_before_the_request_is_not_ready() {
    let mut d = DebouncedSaver::with_quiet_period(std::time::Duration::from_millis(10));
    let t = std::time::Instant::now() + std::time::Duration::from_secs(1);
    d.request_at(t);
    assert!(d.has_pending());
    assert!(!d.ready_at(t - std::time::Duration::from_millis(500)));
    assert!(d.ready_at(t + std::time::Duration::from_millis(10)));
}

#[test]
fn body_is_taken_only_for_a_version_member_of_exactly_one() {
    let wrapped = (1u64 << 32) + 1;
    assert_eq!(load_from_document(doc(Some(wrapped), Some(customized()))), Config::default());
    assert_eq!(
        load_from_str(r#"{ "version": 4294967297 }"#, Some(customized())),
        Config::default()
    );
}
