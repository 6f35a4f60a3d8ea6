use hayate_kit_settings::persistence::Config;
use hayate_kit_settings::sections::SectionId;
use hayate_kit_settings::state::AppState;

#[test]
fn handles_construct_smoke() {
    let h = AppState::new(Config::default());
    assert_eq!(h.selected_section, SectionId::default());
    assert!(h.search_query.is_empty());
    assert!(!h.accent_picker_visible);
    assert!(!h.reset_confirm_visible);
    assert!(h.pending_reset.is_none());
    assert!(!h.debouncer.has_pending());
    assert_eq!(h.config, Config::default());
}

#[test]
fn draft_accent_hex_initial_matches_config_accent() {
    let config = Config::default();
    let expected = config.appearance.accent_hex.clone();
    let h = AppState::new(config);
    assert_eq!(h.draft_accent_hex, expected);
}

#[test]
fn draft_accent_hex_initial_reflects_persisted_value() {
    let mut config = Config::default();
    config.appearance.accent_hex = String::from("#ABCDEF");
    let h = AppState::new(config);
    assert_eq!(h.draft_accent_hex, "#ABCDEF");
}

#[test]
fn config_update_propagates_through_state() {
    let mut h = AppState::new(Config::default());
    h.config.general.startup_reset_window = true;
    assert!(h.config.general.startup_reset_window);
}
