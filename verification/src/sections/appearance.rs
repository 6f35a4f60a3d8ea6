//! Appearance section: font size, colour mode, accent colour and theme.

use vstd::prelude::*;

use crate::persistence::{AppearanceView, ColorMode, ConfigView, ThemeId};
use crate::state::{same_ui, save_requested, AppState};
use crate::text::chars_equal;

verus! {

/// Colour mode picker entries.
pub const COLOR_MODE_LIGHT: &'static str = "Light";
pub const COLOR_MODE_DARK: &'static str = "Dark";
pub const COLOR_MODE_SYSTEM: &'static str = "System (Phase 4 defer)";

/// Theme picker entries.
pub const THEME_LABEL_HAYATE_ORIGINAL: &'static str = "HAYATE Original";
pub const THEME_LABEL_WIN95: &'static str = "Windows 95";
pub const THEME_LABEL_XP_LUNA: &'static str = "Windows XP";
pub const THEME_LABEL_WIN10: &'static str = "Windows 10";
pub const THEME_LABEL_MAC_OS9: &'static str = "Mac OS 9";
pub const THEME_LABEL_MACOS_BIG_SUR: &'static str = "macOS";

pub open spec fn color_mode_for_label(label: Seq<char>) -> Option<ColorMode> {
    if label == COLOR_MODE_LIGHT@ {
        Some(ColorMode::Light)
    } else if label == COLOR_MODE_DARK@ {
        Some(ColorMode::Dark)
    } else if label == COLOR_MODE_SYSTEM@ {
        Some(ColorMode::System)
    } else {
        None
    }
}

/// Picker label of a theme.
pub open spec fn theme_label(id: ThemeId) -> &'static str {
    match id {
        ThemeId::HayateOriginal => THEME_LABEL_HAYATE_ORIGINAL,
        ThemeId::Win95 => THEME_LABEL_WIN95,
        ThemeId::XpLuna => THEME_LABEL_XP_LUNA,
        ThemeId::Win10 => THEME_LABEL_WIN10,
        ThemeId::MacOs9 => THEME_LABEL_MAC_OS9,
        ThemeId::MacOsBigSur => THEME_LABEL_MACOS_BIG_SUR,
    }
}

/// Theme of a picker label, taking the choices in picker order.
pub open spec fn theme_for_label(label: Seq<char>) -> Option<ThemeId> {
    if label == THEME_LABEL_HAYATE_ORIGINAL@ {
        Some(ThemeId::HayateOriginal)
    } else if label == THEME_LABEL_WIN95@ {
        Some(ThemeId::Win95)
    } else if label == THEME_LABEL_XP_LUNA@ {
        Some(ThemeId::XpLuna)
    } else if label == THEME_LABEL_WIN10@ {
        Some(ThemeId::Win10)
    } else if label == THEME_LABEL_MAC_OS9@ {
        Some(ThemeId::MacOs9)
    } else if label == THEME_LABEL_MACOS_BIG_SUR@ {
        Some(ThemeId::MacOsBigSur)
    } else {
        None
    }
}

/// The theme choices, in picker order.
pub open spec fn theme_choices_spec() -> Seq<(ThemeId, &'static str)> {
    seq![
        (ThemeId::HayateOriginal, THEME_LABEL_HAYATE_ORIGINAL),
        (ThemeId::Win95, THEME_LABEL_WIN95),
        (ThemeId::XpLuna, THEME_LABEL_XP_LUNA),
        (ThemeId::Win10, THEME_LABEL_WIN10),
        (ThemeId::MacOs9, THEME_LABEL_MAC_OS9),
        (ThemeId::MacOsBigSur, THEME_LABEL_MACOS_BIG_SUR),
    ]
}

/// Config with `appearance` replaced.
pub open spec fn with_appearance(c: ConfigView, a: AppearanceView) -> ConfigView {
    ConfigView { appearance: a, ..c }
}

/// The theme choices `(id, label)`, in picker order.
pub fn theme_choices() -> (r: Vec<(ThemeId, &'static str)>)
    ensures
        r@ == theme_choices_spec(),
{
    let mut v: Vec<(ThemeId, &'static str)> = Vec::new();
    v.push((ThemeId::HayateOriginal, THEME_LABEL_HAYATE_ORIGINAL));
    v.push((ThemeId::Win95, THEME_LABEL_WIN95));
    v.push((ThemeId::XpLuna, THEME_LABEL_XP_LUNA));
    v.push((ThemeId::Win10, THEME_LABEL_WIN10));
    v.push((ThemeId::MacOs9, THEME_LABEL_MAC_OS9));
    v.push((ThemeId::MacOsBigSur, THEME_LABEL_MACOS_BIG_SUR));
    assert(v@ =~= theme_choices_spec());
    v
}

/// Picker label of a theme.
pub fn theme_label_for(id: ThemeId) -> (r: &'static str)
    ensures
        r == theme_label(id),
{
    match id {
        ThemeId::HayateOriginal => THEME_LABEL_HAYATE_ORIGINAL,
        ThemeId::Win95 => THEME_LABEL_WIN95,
        ThemeId::XpLuna => THEME_LABEL_XP_LUNA,
        ThemeId::Win10 => THEME_LABEL_WIN10,
        ThemeId::MacOs9 => THEME_LABEL_MAC_OS9,
        ThemeId::MacOsBigSur => THEME_LABEL_MACOS_BIG_SUR,
    }
}

/// Theme of a picker label; `None` for an unknown label.
pub fn theme_id_from_label(label: &str) -> (r: Option<ThemeId>)
    ensures
        r == theme_for_label(label@),
{
    if chars_equal(label, THEME_LABEL_HAYATE_ORIGINAL) {
        Some(ThemeId::HayateOriginal)
    } else if chars_equal(label, THEME_LABEL_WIN95) {
        Some(ThemeId::Win95)
    } else if chars_equal(label, THEME_LABEL_XP_LUNA) {
        Some(ThemeId::XpLuna)
    } else if chars_equal(label, THEME_LABEL_WIN10) {
        Some(ThemeId::Win10)
    } else if chars_equal(label, THEME_LABEL_MAC_OS9) {
        Some(ThemeId::MacOs9)
    } else if chars_equal(label, THEME_LABEL_MACOS_BIG_SUR) {
        Some(ThemeId::MacOsBigSur)
    } else {
        None
    }
}

/// Colour mode for a picker entry; `None` for an unknown entry.
pub fn parse_color_mode(label: &str) -> (r: Option<ColorMode>)
    ensures
        r == color_mode_for_label(label@),
{
    if chars_equal(label, COLOR_MODE_LIGHT) {
        Some(ColorMode::Light)
    } else if chars_equal(label, COLOR_MODE_DARK) {
        Some(ColorMode::Dark)
    } else if chars_equal(label, COLOR_MODE_SYSTEM) {
        Some(ColorMode::System)
    } else {
        None
    }
}

/// Theme selection: store the theme and request a save (the live theme
/// swap is the caller's).
pub fn apply_theme_selection(state: &mut AppState, id: ThemeId)
    ensures
        final(state).config@ == with_appearance(
            old(state).config@,
            AppearanceView { theme_id: id, ..old(state).config@.appearance },
        ),
        same_ui(*old(state), *final(state)),
        save_requested(*old(state), *final(state)),
{
    state.config.appearance.theme_id = id;
    state.debouncer.request();
}

/// Font size slider: store the scale (as its `f32` bit pattern) and
/// request a save.
pub fn apply_font_scale_change(state: &mut AppState, value_bits: u32)
    ensures
        final(state).config@ == with_appearance(
            old(state).config@,
            AppearanceView { font_size_scale_bits: value_bits, ..old(state).config@.appearance },
        ),
        same_ui(*old(state), *final(state)),
        save_requested(*old(state), *final(state)),
{
    state.config.appearance.font_size_scale_bits = value_bits;
    state.debouncer.request();
}

/// Colour mode selection: a known entry is stored and a save requested; an
/// unknown entry changes nothing.
pub fn apply_color_mode_selection(state: &mut AppState, selected: &str)
    ensures
        match color_mode_for_label(selected@) {
            Some(m) => {
                &&& final(state).config@ == with_appearance(
                    old(state).config@,
                    AppearanceView { color_mode: m, ..old(state).config@.appearance },
                )
                &&& same_ui(*old(state), *final(state))
                &&& save_requested(*old(state), *final(state))
            },
            None => *final(state) == *old(state),
        },
{
    if let Some(value) = parse_color_mode(selected) {
        state.config.appearance.color_mode = value;
        state.debouncer.request();
    }
}

/// Accent hex input edit: store the text as typed (validation is the
/// WCAG label's) and request a save.
pub fn apply_accent_hex_change(state: &mut AppState, text: &str)
    ensures
        final(state).config@ == with_appearance(
            old(state).config@,
            AppearanceView { accent_hex: text@, ..old(state).config@.appearance },
        ),
        same_ui(*old(state), *final(state)),
        save_requested(*old(state), *final(state)),
{
    state.config.appearance.accent_hex = String::from_str(text);
    state.debouncer.request();
}

/// "Pick..." button: reseed the picker draft from the configured accent and
/// show the picker; the config is untouched and no save is requested.
pub fn open_accent_picker(state: &mut AppState)
    ensures
        final(state).draft_accent_hex@ == old(state).config.appearance.accent_hex@,
        final(state).accent_picker_visible,
        final(state).config == old(state).config,
        final(state).debouncer == old(state).debouncer,
        final(state).selected_section == old(state).selected_section,
        final(state).search_query == old(state).search_query,
        final(state).reset_confirm_visible == old(state).reset_confirm_visible,
        final(state).pending_reset == old(state).pending_reset,
{
    let current = state.config.appearance.accent_hex.clone();
    state.draft_accent_hex = current;
    state.accent_picker_visible = true;
}

/// Labels and themes correspond one to one: every theme's label reads back
/// as that theme, and a label that reads as a theme is that theme's label.
pub proof fn lemma_theme_label_round_trip(id: ThemeId, label: Seq<char>)
    ensures
        theme_for_label(theme_label(id)@) == Some(id),
        theme_for_label(label) == Some(id) ==> label == theme_label(id)@,
{
    reveal_strlit("HAYATE Original");
    reveal_strlit("Windows 95");
    reveal_strlit("Windows XP");
    reveal_strlit("Windows 10");
    reveal_strlit("Mac OS 9");
    reveal_strlit("macOS");
    let l0 = THEME_LABEL_HAYATE_ORIGINAL@;
    let l1 = THEME_LABEL_WIN95@;
    let l2 = THEME_LABEL_XP_LUNA@;
    let l3 = THEME_LABEL_WIN10@;
    let l4 = THEME_LABEL_MAC_OS9@;
    let l5 = THEME_LABEL_MACOS_BIG_SUR@;
    assert(l0.len() == 15 && l1.len() == 10 && l2.len() == 10 && l3.len() == 10);
    assert(l4.len() == 8 && l5.len() == 5);
    assert(l1[8] != l2[8] && l1[8] != l3[8] && l2[8] != l3[8]);
    assert(l1 != l2 && l1 != l3 && l2 != l3);
    assert(l0 != l1 && l0 != l2 && l0 != l3 && l0 != l4 && l0 != l5);
    assert(l1 != l4 && l1 != l5 && l2 != l4 && l2 != l5 && l3 != l4 && l3 != l5 && l4 != l5);
}

} // verus!
