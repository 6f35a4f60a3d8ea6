//! IME section: backend, candidate window position and preedit style.

use vstd::prelude::*;

use crate::persistence::{CandidatePosition, ConfigView, ImeBackend, ImeConfig, PreeditStyle};
use crate::state::{same_ui, save_requested, AppState};
use crate::text::chars_equal;

verus! {

/// Backend picker entry for IBus.
pub const BACKEND_IBUS: &'static str = "ibus";
/// Backend picker entry for fcitx5.
pub const BACKEND_FCITX5: &'static str = "fcitx5";
/// Candidate position entry: anchored at the cursor.
pub const CAND_POS_CURSOR: &'static str = "Cursor anchor";
/// Candidate position entry: below the widget.
pub const CAND_POS_BOTTOM: &'static str = "Widget bottom";
/// Preedit style entry: inline.
pub const PREEDIT_INLINE: &'static str = "Inline";
/// Preedit style entry: floating.
pub const PREEDIT_FLOATING: &'static str = "Floating";

pub open spec fn backend_for_label(label: Seq<char>) -> Option<ImeBackend> {
    if label == BACKEND_IBUS@ {
        Some(ImeBackend::Ibus)
    } else if label == BACKEND_FCITX5@ {
        Some(ImeBackend::Fcitx5)
    } else {
        None
    }
}

pub open spec fn candidate_position_for_label(label: Seq<char>) -> Option<CandidatePosition> {
    if label == CAND_POS_CURSOR@ {
        Some(CandidatePosition::CursorAnchor)
    } else if label == CAND_POS_BOTTOM@ {
        Some(CandidatePosition::WidgetBottom)
    } else {
        None
    }
}

pub open spec fn preedit_style_for_label(label: Seq<char>) -> Option<PreeditStyle> {
    if label == PREEDIT_INLINE@ {
        Some(PreeditStyle::Inline)
    } else if label == PREEDIT_FLOATING@ {
        Some(PreeditStyle::Floating)
    } else {
        None
    }
}

/// Config with `ime` replaced.
pub open spec fn with_ime(c: ConfigView, i: ImeConfig) -> ConfigView {
    ConfigView { ime: i, ..c }
}

/// Backend for a picker entry; `None` for an unknown entry.
pub fn parse_backend(label: &str) -> (r: Option<ImeBackend>)
    ensures
        r == backend_for_label(label@),
{
    if chars_equal(label, BACKEND_IBUS) {
        Some(ImeBackend::Ibus)
    } else if chars_equal(label, BACKEND_FCITX5) {
        Some(ImeBackend::Fcitx5)
    } else {
        None
    }
}

/// Candidate position for a picker entry; `None` for an unknown entry.
pub fn parse_candidate_position(label: &str) -> (r: Option<CandidatePosition>)
    ensures
        r == candidate_position_for_label(label@),
{
    if chars_equal(label, CAND_POS_CURSOR) {
        Some(CandidatePosition::CursorAnchor)
    } else if chars_equal(label, CAND_POS_BOTTOM) {
        Some(CandidatePosition::WidgetBottom)
    } else {
        None
    }
}

/// Preedit style for a picker entry; `None` for an unknown entry.
pub fn parse_preedit_style(label: &str) -> (r: Option<PreeditStyle>)
    ensures
        r == preedit_style_for_label(label@),
{
    if chars_equal(label, PREEDIT_INLINE) {
        Some(PreeditStyle::Inline)
    } else if chars_equal(label, PREEDIT_FLOATING) {
        Some(PreeditStyle::Floating)
    } else {
        None
    }
}

/// Backend picker selection: a known entry is stored and a save requested;
/// an unknown entry changes nothing.
pub fn apply_backend_selection(state: &mut AppState, selected: &str)
    ensures
        match backend_for_label(selected@) {
            Some(b) => {
                &&& final(state).config@ == with_ime(
                    old(state).config@,
                    ImeConfig { backend: b, ..old(state).config.ime },
                )
                &&& same_ui(*old(state), *final(state))
                &&& save_requested(*old(state), *final(state))
            },
            None => *final(state) == *old(state),
        },
{
    if let Some(value) = parse_backend(selected) {
        state.config.ime.backend = value;
        state.debouncer.request();
    }
}

/// Candidate position selection: a known entry is stored and a save
/// requested; an unknown entry changes nothing.
pub fn apply_candidate_position_selection(state: &mut AppState, selected: &str)
    ensures
        match candidate_position_for_label(selected@) {
            Some(p) => {
                &&& final(state).config@ == with_ime(
                    old(state).config@,
                    ImeConfig { candidate_position: p, ..old(state).config.ime },
                )
                &&& same_ui(*old(state), *final(state))
                &&& save_requested(*old(state), *final(state))
            },
            None => *final(state) == *old(state),
        },
{
    if let Some(value) = parse_candidate_position(selected) {
        state.config.ime.candidate_position = value;
        state.debouncer.request();
    }
}

/// Preedit style selection: a known entry is stored and a save requested;
/// an unknown entry changes nothing.
pub fn apply_preedit_style_selection(state: &mut AppState, selected: &str)
    ensures
        match preedit_style_for_label(selected@) {
            Some(p) => {
                &&& final(state).config@ == with_ime(
                    old(state).config@,
                    ImeConfig { preedit_style: p, ..old(state).config.ime },
                )
                &&& same_ui(*old(state), *final(state))
                &&& save_requested(*old(state), *final(state))
            },
            None => *final(state) == *old(state),
        },
{
    if let Some(value) = parse_preedit_style(selected) {
        state.config.ime.preedit_style = value;
        state.debouncer.request();
    }
}

} // verus!
