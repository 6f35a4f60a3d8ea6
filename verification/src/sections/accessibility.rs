//! Accessibility section: four independent toggles.

use vstd::prelude::*;

use crate::persistence::{AccessibilityConfig, ConfigView};
use crate::state::{same_ui, save_requested, AppState};

verus! {

/// Config with `accessibility` replaced.
pub open spec fn with_accessibility(c: ConfigView, a: AccessibilityConfig) -> ConfigView {
    ConfigView { accessibility: a, ..c }
}

/// Screen reader toggle.
pub fn apply_screen_reader_change(state: &mut AppState, checked: bool)
    ensures
        final(state).config@ == with_accessibility(
            old(state).config@,
            AccessibilityConfig { screen_reader: checked, ..old(state).config.accessibility },
        ),
        same_ui(*old(state), *final(state)),
        save_requested(*old(state), *final(state)),
{
    state.config.accessibility.screen_reader = checked;
    state.debouncer.request();
}

/// High contrast toggle.
pub fn apply_high_contrast_change(state: &mut AppState, checked: bool)
    ensures
        final(state).config@ == with_accessibility(
            old(state).config@,
            AccessibilityConfig { high_contrast: checked, ..old(state).config.accessibility },
        ),
        same_ui(*old(state), *final(state)),
        save_requested(*old(state), *final(state)),
{
    state.config.accessibility.high_contrast = checked;
    state.debouncer.request();
}

/// Reduce motion toggle.
pub fn apply_reduce_motion_change(state: &mut AppState, checked: bool)
    ensures
        final(state).config@ == with_accessibility(
            old(state).config@,
            AccessibilityConfig { reduce_motion: checked, ..old(state).config.accessibility },
        ),
        same_ui(*old(state), *final(state)),
        save_requested(*old(state), *final(state)),
{
    state.config.accessibility.reduce_motion = checked;
    state.debouncer.request();
}

/// Keyboard navigation hint toggle.
pub fn apply_keyboard_hint_change(state: &mut AppState, checked: bool)
    ensures
        final(state).config@ == with_accessibility(
            old(state).config@,
            AccessibilityConfig { keyboard_nav_hints: checked, ..old(state).config.accessibility },
        ),
        same_ui(*old(state), *final(state)),
        save_requested(*old(state), *final(state)),
{
    state.config.accessibility.keyboard_nav_hints = checked;
    state.debouncer.request();
}

} // verus!
