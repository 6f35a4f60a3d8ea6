use hayate_kit_settings::persistence::{
    AccessibilityConfig, CandidatePosition, ColorMode, Config, ImeBackend, LangConfig, LogLevel,
    PreeditStyle, ThemeId,
};
use hayate_kit_settings::sections::accessibility::{
    apply_high_contrast_change, apply_keyboard_hint_change, apply_reduce_motion_change,
    apply_screen_reader_change,
};
use hayate_kit_settings::sections::advanced::{
    apply_debug_overlay_change, apply_log_level_selection, parse_log_level, request_reset,
    LOG_DEBUG, LOG_ERROR, LOG_INFO, LOG_TRACE, LOG_WARN,
};
use hayate_kit_settings::sections::appearance::{
    apply_accent_hex_change, apply_color_mode_selection, apply_font_scale_change,
    apply_theme_selection, open_accent_picker, parse_color_mode, theme_choices,
    theme_id_from_label, theme_label_for, COLOR_MODE_DARK, COLOR_MODE_LIGHT, COLOR_MODE_SYSTEM,
};
use hayate_kit_settings::sections::general::{
    apply_language_selection, apply_remember_position_change, apply_startup_reset_change,
    LANG_EN_LABEL, LANG_JA_LABEL,
};
use hayate_kit_settings::sections::ime::{
    apply_backend_selection, apply_candidate_position_selection, apply_preedit_style_selection,
    parse_backend, parse_candidate_position, parse_preedit_style, BACKEND_FCITX5, BACKEND_IBUS,
    CAND_POS_BOTTOM, CAND_POS_CURSOR, PREEDIT_FLOATING, PREEDIT_INLINE,
};
use hayate_kit_settings::sections::{select_tree_path, SectionId};
use hayate_kit_settings::state::{AppState, ResetKind};

fn for_testing() -> AppState {
    AppState::new(Config::default())
}

fn font_scale(state: &AppState) -> f32 {
    f32::from_bits(state.config.appearance.font_size_scale_bits)
}

// ── SectionId ──────────────────────────────────────────────────────────

#[test]
fn from_tree_path_root_indices() {
    assert_eq!(SectionId::from_tree_path(&[0]), Some(SectionId::General));
    assert_eq!(SectionId::from_tree_path(&[1]), Some(SectionId::Appearance));
    assert_eq!(SectionId::from_tree_path(&[2]), Some(SectionId::Accessibility));
    assert_eq!(SectionId::from_tree_path(&[3]), Some(SectionId::Ime));
    assert_eq!(SectionId::from_tree_path(&[4]), Some(SectionId::Advanced));
    assert_eq!(SectionId::from_tree_path(&[5]), Some(SectionId::Widgets));
}

#[test]
fn from_tree_path_appearance_sub_nodes_all_resolve_to_appearance() {
    assert_eq!(SectionId::from_tree_path(&[1, 0]), Some(SectionId::Appearance));
    assert_eq!(SectionId::from_tree_path(&[1, 1]), Some(SectionId::Appearance));
    assert_eq!(SectionId::from_tree_path(&[1, 2]), Some(SectionId::Appearance));
}

#[test]
fn from_tree_path_empty_returns_none() {
    assert_eq!(SectionId::from_tree_path(&[]), None);
}

#[test]
fn from_tree_path_out_of_range_returns_none() {
    assert_eq!(SectionId::from_tree_path(&[6]), None);
    assert_eq!(SectionId::from_tree_path(&[99]), None);
}

#[test]
fn from_tree_path_non_appearance_root_with_subpath_still_resolves() {
    assert_eq!(SectionId::from_tree_path(&[0, 7]), Some(SectionId::General));
    assert_eq!(SectionId::from_tree_path(&[4, 99]), Some(SectionId::Advanced));
}

#[test]
fn default_is_general() {
    assert_eq!(SectionId::default(), SectionId::General);
}

#[test]
fn section_override_names_and_fallback() {
    assert_eq!(SectionId::from_override(Some("general")), SectionId::General);
    assert_eq!(SectionId::from_override(Some("appearance")), SectionId::Appearance);
    assert_eq!(SectionId::from_override(Some("accessibility")), SectionId::Accessibility);
    assert_eq!(SectionId::from_override(Some("ime")), SectionId::Ime);
    assert_eq!(SectionId::from_override(Some("advanced")), SectionId::Advanced);
    assert_eq!(SectionId::from_override(Some("widgets")), SectionId::Widgets);
    assert_eq!(SectionId::from_override(Some("Advanced")), SectionId::General);
    assert_eq!(SectionId::from_override(Some("")), SectionId::General);
    assert_eq!(SectionId::from_override(None), SectionId::General);
}

// ── General ────────────────────────────────────────────────────────────

#[test]
fn language_selection_ja_updates_config_and_requests_save() {
    let mut state = for_testing();
    assert_eq!(state.config.general.language, LangConfig::En);
    apply_language_selection(&mut state, LANG_JA_LABEL);
    assert_eq!(state.config.general.language, LangConfig::Ja);
    assert!(state.debouncer.has_pending());
}

#[test]
fn language_selection_en_reverts_back_to_en() {
    let mut state = for_testing();
    state.config.general.language = LangConfig::Ja;
    apply_language_selection(&mut state, LANG_EN_LABEL);
    assert_eq!(state.config.general.language, LangConfig::En);
    assert!(state.debouncer.has_pending());
}

#[test]
fn language_selection_unknown_label_falls_back_to_en() {
    let mut state = for_testing();
    state.config.general.language = LangConfig::Ja;
    apply_language_selection(&mut state, "Zzz future locale");
    assert_eq!(state.config.general.language, LangConfig::En);
}

#[test]
fn startup_reset_toggle_propagates_and_requests_save() {
    let mut state = for_testing();
    assert!(!state.config.general.startup_reset_window);
    apply_startup_reset_change(&mut state, true);
    assert!(state.config.general.startup_reset_window);
    assert!(state.debouncer.has_pending());
    apply_startup_reset_change(&mut state, false);
    assert!(!state.config.general.startup_reset_window);
}

#[test]
fn remember_position_toggle_propagates_and_requests_save() {
    let mut state = for_testing();
    assert!(state.config.general.remember_window_position);
    apply_remember_position_change(&mut state, false);
    assert!(!state.config.general.remember_window_position);
    assert!(state.debouncer.has_pending());
}

// ── Accessibility ──────────────────────────────────────────────────────

#[test]
fn screen_reader_toggle_propagates_and_requests_save() {
    let mut state = for_testing();
    assert!(!state.config.accessibility.screen_reader);
    apply_screen_reader_change(&mut state, true);
    assert!(state.config.accessibility.screen_reader);
    assert!(state.debouncer.has_pending());
}

#[test]
fn high_contrast_toggle_propagates_and_requests_save() {
    let mut state = for_testing();
    apply_high_contrast_change(&mut state, true);
    assert!(state.config.accessibility.high_contrast);
    assert!(state.debouncer.has_pending());
}

#[test]
fn reduce_motion_toggle_propagates_and_requests_save() {
    let mut state = for_testing();
    apply_reduce_motion_change(&mut state, true);
    assert!(state.config.accessibility.reduce_motion);
    assert!(state.debouncer.has_pending());
}

#[test]
fn keyboard_hint_toggle_propagates_and_requests_save() {
    let mut state = for_testing();
    apply_keyboard_hint_change(&mut state, true);
    assert!(state.config.accessibility.keyboard_nav_hints);
    assert!(state.debouncer.has_pending());
}

#[test]
fn toggles_are_independent_across_fields() {
    let mut state = for_testing();
    apply_screen_reader_change(&mut state, true);
    let cfg = &state.config;
    assert!(cfg.accessibility.screen_reader);
    assert!(!cfg.accessibility.high_contrast);
    assert!(!cfg.accessibility.reduce_motion);
    assert!(!cfg.accessibility.keyboard_nav_hints);
    assert_eq!(
        state.config.accessibility,
        AccessibilityConfig {
            screen_reader: true,
            high_contrast: false,
            reduce_motion: false,
            keyboard_nav_hints: false
        }
    );
}

// ── IME ────────────────────────────────────────────────────────────────

#[test]
fn backend_selection_propagates_and_requests_save() {
    let mut state = for_testing();
    assert_eq!(state.config.ime.backend, ImeBackend::Ibus);
    apply_backend_selection(&mut state, BACKEND_FCITX5);
    assert_eq!(state.config.ime.backend, ImeBackend::Fcitx5);
    assert!(state.debouncer.has_pending());
}

#[test]
fn backend_selection_unknown_label_is_no_op() {
    let mut state = for_testing();
    state.config.ime.backend = ImeBackend::Fcitx5;
    apply_backend_selection(&mut state, "zzz_future_backend");
    assert_eq!(state.config.ime.backend, ImeBackend::Fcitx5);
    assert!(!state.debouncer.has_pending());
}

#[test]
fn candidate_position_selection_propagates() {
    let mut state = for_testing();
    apply_candidate_position_selection(&mut state, CAND_POS_BOTTOM);
    assert_eq!(state.config.ime.candidate_position, CandidatePosition::WidgetBottom);
    assert!(state.debouncer.has_pending());
}

#[test]
fn preedit_style_selection_propagates() {
    let mut state = for_testing();
    apply_preedit_style_selection(&mut state, PREEDIT_FLOATING);
    assert_eq!(state.config.ime.preedit_style, PreeditStyle::Floating);
    assert!(state.debouncer.has_pending());
}

#[test]
fn parse_helpers_round_trip_every_known_variant() {
    assert_eq!(parse_backend(BACKEND_IBUS), Some(ImeBackend::Ibus));
    assert_eq!(parse_backend(BACKEND_FCITX5), Some(ImeBackend::Fcitx5));
    assert_eq!(parse_candidate_position(CAND_POS_CURSOR), Some(CandidatePosition::CursorAnchor));
    assert_eq!(parse_candidate_position(CAND_POS_BOTTOM), Some(CandidatePosition::WidgetBottom));
    assert_eq!(parse_preedit_style(PREEDIT_INLINE), Some(PreeditStyle::Inline));
    assert_eq!(parse_preedit_style(PREEDIT_FLOATING), Some(PreeditStyle::Floating));
}

#[test]
fn ime_parse_helpers_reject_unknown_and_case_variants() {
    assert_eq!(parse_backend("IBUS"), None);
    assert_eq!(parse_candidate_position("cursor anchor"), None);
    assert_eq!(parse_preedit_style(""), None);
}

// ── Advanced ───────────────────────────────────────────────────────────

#[test]
fn debug_overlay_toggle_propagates_and_requests_save() {
    let mut state = for_testing();
    assert!(!state.config.advanced.debug_overlay);
    apply_debug_overlay_change(&mut state, true);
    assert!(state.config.advanced.debug_overlay);
    assert!(state.debouncer.has_pending());
}

#[test]
fn log_level_selection_propagates_for_each_variant() {
    let mut state = for_testing();
    assert_eq!(state.config.advanced.log_level, LogLevel::Info);
    apply_log_level_selection(&mut state, LOG_TRACE);
    assert_eq!(state.config.advanced.log_level, LogLevel::Trace);
    apply_log_level_selection(&mut state, LOG_DEBUG);
    assert_eq!(state.config.advanced.log_level, LogLevel::Debug);
    apply_log_level_selection(&mut state, LOG_INFO);
    assert_eq!(state.config.advanced.log_level, LogLevel::Info);
    apply_log_level_selection(&mut state, LOG_WARN);
    assert_eq!(state.config.advanced.log_level, LogLevel::Warn);
    apply_log_level_selection(&mut state, LOG_ERROR);
    assert_eq!(state.config.advanced.log_level, LogLevel::Error);
    assert!(state.debouncer.has_pending());
}

#[test]
fn log_level_unknown_label_is_no_op() {
    let mut state = for_testing();
    state.config.advanced.log_level = LogLevel::Warn;
    apply_log_level_selection(&mut state, "fatal");
    assert_eq!(state.config.advanced.log_level, LogLevel::Warn);
    assert!(!state.debouncer.has_pending());
}

#[test]
fn request_reset_opens_confirm_modal_without_mutating_config() {
    let mut state = for_testing();
    let pre = state.config.clone();
    assert!(!state.reset_confirm_visible);
    request_reset(&mut state, ResetKind::All);
    assert!(state.reset_confirm_visible);
    assert_eq!(state.config, pre);
    assert!(!state.debouncer.has_pending());
}

#[test]
fn request_reset_sets_pending_kind_per_button() {
    let mut state = for_testing();
    request_reset(&mut state, ResetKind::All);
    assert_eq!(state.pending_reset, Some(ResetKind::All));
    request_reset(&mut state, ResetKind::Section(SectionId::Advanced));
    assert_eq!(state.pending_reset, Some(ResetKind::Section(SectionId::Advanced)));
    request_reset(&mut state, ResetKind::Field);
    assert_eq!(state.pending_reset, Some(ResetKind::Field));
    request_reset(&mut state, ResetKind::CacheClear);
    assert_eq!(state.pending_reset, Some(ResetKind::CacheClear));
    assert!(!state.debouncer.has_pending());
}

#[test]
fn reset_section_button_snapshots_selected_section() {
    let mut state = for_testing();
    state.selected_section = SectionId::Appearance;
    let selected = state.selected_section;
    request_reset(&mut state, ResetKind::Section(selected));
    assert_eq!(state.pending_reset, Some(ResetKind::Section(SectionId::Appearance)));
}

#[test]
fn parse_log_level_round_trip_every_variant() {
    assert_eq!(parse_log_level(LOG_TRACE), Some(LogLevel::Trace));
    assert_eq!(parse_log_level(LOG_DEBUG), Some(LogLevel::Debug));
    assert_eq!(parse_log_level(LOG_INFO), Some(LogLevel::Info));
    assert_eq!(parse_log_level(LOG_WARN), Some(LogLevel::Warn));
    assert_eq!(parse_log_level(LOG_ERROR), Some(LogLevel::Error));
    assert_eq!(parse_log_level("unknown"), None);
}

// ── Appearance ─────────────────────────────────────────────────────────

#[test]
fn theme_label_id_round_trip_all_variants() {
    for (id, label) in theme_choices() {
        assert_eq!(theme_label_for(id), label, "id → label");
        assert_eq!(theme_id_from_label(label), Some(id), "label → id");
    }
}

#[test]
fn theme_id_from_unknown_label_is_none() {
    assert_eq!(theme_id_from_label("Sepia (future)"), None);
    assert_eq!(theme_id_from_label(""), None);
}

#[test]
fn theme_choices_are_in_picker_order() {
    let labels: Vec<&str> = theme_choices().iter().map(|(_, l)| *l).collect();
    assert_eq!(
        labels,
        vec!["HAYATE Original", "Windows 95", "Windows XP", "Windows 10", "Mac OS 9", "macOS"]
    );
}

#[test]
fn apply_theme_selection_updates_config_and_requests_save() {
    let mut state = for_testing();
    assert_eq!(state.config.appearance.theme_id, ThemeId::HayateOriginal, "initial = default");
    apply_theme_selection(&mut state, ThemeId::Win95);
    assert_eq!(state.config.appearance.theme_id, ThemeId::Win95);
    assert!(state.debouncer.has_pending());
}

#[test]
fn apply_theme_selection_leaves_other_appearance_fields_intact() {
    let mut state = for_testing();
    let accent_before = state.config.appearance.accent_hex.clone();
    let font_before = font_scale(&state);
    apply_theme_selection(&mut state, ThemeId::MacOs9);
    assert_eq!(state.config.appearance.accent_hex, accent_before);
    assert!((font_scale(&state) - font_before).abs() < f32::EPSILON);
    assert_eq!(state.config.appearance.theme_id, ThemeId::MacOs9);
}

#[test]
fn open_accent_picker_sets_visible_true() {
    let mut state = for_testing();
    assert!(!state.accent_picker_visible, "initial = false (dormant)");
    open_accent_picker(&mut state);
    assert!(state.accent_picker_visible);
}

#[test]
fn open_accent_picker_does_not_touch_config_or_debouncer() {
    let mut state = for_testing();
    let snapshot = state.config.clone();
    open_accent_picker(&mut state);
    assert_eq!(state.config, snapshot, "config 不変");
    assert!(!state.debouncer.has_pending(), "save request なし");
}

#[test]
fn open_accent_picker_reseeds_draft_to_current_config() {
    let mut state = for_testing();
    let current_config_hex = String::from("#FF0000");
    state.config.appearance.accent_hex = current_config_hex.clone();
    let stale_draft = String::from("#00FF00");
    state.draft_accent_hex = stale_draft.clone();
    assert_ne!(state.draft_accent_hex, current_config_hex);
    open_accent_picker(&mut state);
    assert_eq!(state.draft_accent_hex, current_config_hex);
    assert!(state.accent_picker_visible, "modal visible = true");
}

#[test]
fn font_scale_change_propagates_and_requests_save() {
    let mut state = for_testing();
    assert!((font_scale(&state) - 14.0).abs() < f32::EPSILON);
    apply_font_scale_change(&mut state, 17.5f32.to_bits());
    assert!((font_scale(&state) - 17.5).abs() < f32::EPSILON);
    assert!(state.debouncer.has_pending());
}

#[test]
fn color_mode_selection_each_known_variant_propagates() {
    let mut state = for_testing();
    apply_color_mode_selection(&mut state, COLOR_MODE_LIGHT);
    assert_eq!(state.config.appearance.color_mode, ColorMode::Light);
    apply_color_mode_selection(&mut state, COLOR_MODE_DARK);
    assert_eq!(state.config.appearance.color_mode, ColorMode::Dark);
    apply_color_mode_selection(&mut state, COLOR_MODE_SYSTEM);
    assert_eq!(state.config.appearance.color_mode, ColorMode::System);
    assert!(state.debouncer.has_pending());
}

#[test]
fn color_mode_unknown_label_is_no_op() {
    let mut state = for_testing();
    state.config.appearance.color_mode = ColorMode::Light;
    apply_color_mode_selection(&mut state, "Sepia (future)");
    assert_eq!(state.config.appearance.color_mode, ColorMode::Light);
    assert!(!state.debouncer.has_pending());
}

#[test]
fn parse_color_mode_round_trip_every_variant() {
    assert_eq!(parse_color_mode(COLOR_MODE_LIGHT), Some(ColorMode::Light));
    assert_eq!(parse_color_mode(COLOR_MODE_DARK), Some(ColorMode::Dark));
    assert_eq!(parse_color_mode(COLOR_MODE_SYSTEM), Some(ColorMode::System));
    assert_eq!(parse_color_mode("Sepia"), None);
}

#[test]
fn accent_hex_change_propagates_and_requests_save() {
    let mut state = for_testing();
    apply_accent_hex_change(&mut state, "#3D6884");
    assert_eq!(state.config.appearance.accent_hex, "#3D6884");
    assert!(state.debouncer.has_pending());
}

#[test]
fn sidebar_selection_follows_a_known_path_and_keeps_the_section_otherwise() {
    let mut state = for_testing();
    select_tree_path(&mut state, &[1, 2]);
    assert_eq!(state.selected_section, SectionId::Appearance);
    select_tree_path(&mut state, &[9]);
    assert_eq!(state.selected_section, SectionId::Appearance);
    select_tree_path(&mut state, &[]);
    assert_eq!(state.selected_section, SectionId::Appearance);
    select_tree_path(&mut state, &[4]);
    assert_eq!(state.selected_section, SectionId::Advanced);
    assert_eq!(state.config, Config::default());
}
