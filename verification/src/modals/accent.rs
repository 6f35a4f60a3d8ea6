//! Accent colour picker: commit or discard the draft.

use vstd::prelude::*;

use crate::persistence::AppearanceView;
use crate::sections::appearance::with_appearance;
use crate::state::{save_requested, AppState};

verus! {

/// Apply: commit `hex` as the accent, request a save and close the picker.
pub fn apply_accent_picker(state: &mut AppState, hex: &str)
    ensures
        final(state).config@ == with_appearance(
            old(state).config@,
            AppearanceView { accent_hex: hex@, ..old(state).config@.appearance },
        ),
        save_requested(*old(state), *final(state)),
        !final(state).accent_picker_visible,
        final(state).draft_accent_hex == old(state).draft_accent_hex,
        final(state).selected_section == old(state).selected_section,
        final(state).search_query == old(state).search_query,
        final(state).reset_confirm_visible == old(state).reset_confirm_visible,
        final(state).pending_reset == old(state).pending_reset,
{
    state.config.appearance.accent_hex = String::from_str(hex);
    state.debouncer.request();
    state.accent_picker_visible = false;
}

/// Cancel: close the picker and reseed the draft from the configured
/// accent, so that reopening shows the current value; the config is
/// untouched and no save is requested.
pub fn cancel_accent_picker(state: &mut AppState)
    ensures
        !final(state).accent_picker_visible,
        final(state).draft_accent_hex@ == old(state).config.appearance.accent_hex@,
        final(state).config == old(state).config,
        final(state).debouncer == old(state).debouncer,
        final(state).selected_section == old(state).selected_section,
        final(state).search_query == old(state).search_query,
        final(state).reset_confirm_visible == old(state).reset_confirm_visible,
        final(state).pending_reset == old(state).pending_reset,
{
    state.accent_picker_visible = false;
    let current = state.config.appearance.accent_hex.clone();
    state.draft_accent_hex = current;
}

/// Editing the picker's hex input: the draft follows the input; the config
/// is committed only on Apply.  Nothing else changes.
pub fn edit_accent_draft(state: &mut AppState, hex: &str)
    ensures
        final(state).draft_accent_hex@ == hex@,
        final(state).config == old(state).config,
        final(state).debouncer == old(state).debouncer,
        final(state).accent_picker_visible == old(state).accent_picker_visible,
        final(state).selected_section == old(state).selected_section,
        final(state).search_query == old(state).search_query,
        final(state).reset_confirm_visible == old(state).reset_confirm_visible,
        final(state).pending_reset == old(state).pending_reset,
{
    state.draft_accent_hex = String::from_str(hex);
}

/// Dismissing the picker (Escape, a press outside): it closes and nothing
/// else changes; unlike Cancel, the draft is kept.
pub fn dismiss_accent_picker(state: &mut AppState)
    ensures
        !final(state).accent_picker_visible,
        final(state).draft_accent_hex == old(state).draft_accent_hex,
        final(state).config == old(state).config,
        final(state).debouncer == old(state).debouncer,
        final(state).selected_section == old(state).selected_section,
        final(state).search_query == old(state).search_query,
        final(state).reset_confirm_visible == old(state).reset_confirm_visible,
        final(state).pending_reset == old(state).pending_reset,
{
    state.accent_picker_visible = false;
}

} // verus!
