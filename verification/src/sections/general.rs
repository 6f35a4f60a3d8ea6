//! General section: language and window-position preferences.

use vstd::prelude::*;

use crate::persistence::{ConfigView, GeneralConfig, LangConfig};
use crate::state::{same_ui, save_requested, AppState};
use crate::text::chars_equal;

verus! {

/// Language picker entry for Japanese.
pub const LANG_JA_LABEL: &'static str = "日本語";
/// Language picker entry for English.
pub const LANG_EN_LABEL: &'static str = "English";

/// Language for a picker entry; anything but the Japanese entry is English.
pub open spec fn language_for_label(label: Seq<char>) -> LangConfig {
    if label == LANG_JA_LABEL@ {
        LangConfig::Ja
    } else {
        LangConfig::En
    }
}

/// Config with `general` replaced.
pub open spec fn with_general(c: ConfigView, g: GeneralConfig) -> ConfigView {
    ConfigView { general: g, ..c }
}

/// Language picker selection: store the language (an unknown entry means
/// English) and request a save.
pub fn apply_language_selection(state: &mut AppState, selected: &str)
    ensures
        final(state).config@ == with_general(
            old(state).config@,
            GeneralConfig { language: language_for_label(selected@), ..old(state).config.general },
        ),
        same_ui(*old(state), *final(state)),
        save_requested(*old(state), *final(state)),
{
    let lang = if chars_equal(selected, LANG_JA_LABEL) {
        LangConfig::Ja
    } else if chars_equal(selected, LANG_EN_LABEL) {
        LangConfig::En
    } else {
        LangConfig::En
    };
    state.config.general.language = lang;
    state.debouncer.request();
}

/// "Reset window position on startup" toggle.
pub fn apply_startup_reset_change(state: &mut AppState, checked: bool)
    ensures
        final(state).config@ == with_general(
            old(state).config@,
            GeneralConfig { startup_reset_window: checked, ..old(state).config.general },
        ),
        same_ui(*old(state), *final(state)),
        save_requested(*old(state), *final(state)),
{
    state.config.general.startup_reset_window = checked;
    state.debouncer.request();
}

/// "Remember window position" toggle.
pub fn apply_remember_position_change(state: &mut AppState, checked: bool)
    ensures
        final(state).config@ == with_general(
            old(state).config@,
            GeneralConfig { remember_window_position: checked, ..old(state).config.general },
        ),
        same_ui(*old(state), *final(state)),
        save_requested(*old(state), *final(state)),
{
    state.config.general.remember_window_position = checked;
    state.debouncer.request();
}

} // verus!
