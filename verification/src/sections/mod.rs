//! Section identifiers: the sidebar navigation model of the settings panel.
//!
//! Sidebar tree layout: `[0]` General, `[1]` Appearance (with the Theme,
//! Font and Color sub-nodes `[1, 0]`, `[1, 1]`, `[1, 2]`), `[2]`
//! Accessibility, `[3]` IME, `[4]` Advanced, `[5]` Widgets.

pub mod accessibility;
pub mod advanced;
pub mod appearance;
pub mod general;
pub mod ime;

use vstd::prelude::*;

use crate::state::AppState;
use crate::text::chars_equal;

verus! {

/// Section identifier: binds the sidebar selection to the detail pane.
#[derive(Debug, Clone, Copy, PartialEq, Eq, Hash, Structural)]
pub enum SectionId {
    General,
    Appearance,
    Accessibility,
    Ime,
    Advanced,
    /// Widgets showcase (sidebar root index 5).
    Widgets,
}

/// Section of a sidebar root index, if the index names one.
pub open spec fn section_at_root(index: usize) -> Option<SectionId> {
    if index == 0 {
        Some(SectionId::General)
    } else if index == 1 {
        Some(SectionId::Appearance)
    } else if index == 2 {
        Some(SectionId::Accessibility)
    } else if index == 3 {
        Some(SectionId::Ime)
    } else if index == 4 {
        Some(SectionId::Advanced)
    } else if index == 5 {
        Some(SectionId::Widgets)
    } else {
        None
    }
}

/// Section named by the launch-override value, if it names one.
pub open spec fn section_named(value: Seq<char>) -> Option<SectionId> {
    if value == "general"@ {
        Some(SectionId::General)
    } else if value == "appearance"@ {
        Some(SectionId::Appearance)
    } else if value == "accessibility"@ {
        Some(SectionId::Accessibility)
    } else if value == "ime"@ {
        Some(SectionId::Ime)
    } else if value == "advanced"@ {
        Some(SectionId::Advanced)
    } else if value == "widgets"@ {
        Some(SectionId::Widgets)
    } else {
        None
    }
}

impl SectionId {
    /// Section displayed on first launch (General).
    pub fn default() -> (r: SectionId)
        ensures
            r == SectionId::General,
    {
        SectionId::General
    }

    /// Map a sidebar selection path (nested indices) to its section.  The
    /// first index is authoritative: every sub-node resolves to its root's
    /// section.  An empty path or an unknown root index gives `None`, so
    /// the caller can keep its current selection.
    pub fn from_tree_path(path: &[usize]) -> (r: Option<SectionId>)
        ensures
            path@.len() == 0 ==> r is None,
            path@.len() > 0 ==> r == section_at_root(path@[0]),
    {
        if path.len() == 0 {
            return None;
        }
        let first = path[0];
        if first == 0 {
            Some(SectionId::General)
        } else if first == 1 {
            Some(SectionId::Appearance)
        } else if first == 2 {
            Some(SectionId::Accessibility)
        } else if first == 3 {
            Some(SectionId::Ime)
        } else if first == 4 {
            Some(SectionId::Advanced)
        } else if first == 5 {
            Some(SectionId::Widgets)
        } else {
            None
        }
    }

    /// Initial section for a launch-override value (`general`,
    /// `appearance`, `accessibility`, `ime`, `advanced`, `widgets`); an
    /// absent or unrecognized value falls back to the default section.
    pub fn from_override(value: Option<&str>) -> (r: SectionId)
        ensures
            r == match value {
                Some(v) => match section_named(v@) {
                    Some(s) => s,
                    None => SectionId::General,
                },
                None => SectionId::General,
            },
    {
        match value {
            Some(v) => {
                if chars_equal(v, "general") {
                    SectionId::General
                } else if chars_equal(v, "appearance") {
                    SectionId::Appearance
                } else if chars_equal(v, "accessibility") {
                    SectionId::Accessibility
                } else if chars_equal(v, "ime") {
                    SectionId::Ime
                } else if chars_equal(v, "advanced") {
                    SectionId::Advanced
                } else if chars_equal(v, "widgets") {
                    SectionId::Widgets
                } else {
                    SectionId::default()
                }
            },
            None => SectionId::default(),
        }
    }
}

/// Sidebar selection: a tree path that names a section selects it; a path
/// that names none keeps the current selection.  Nothing else changes.
pub fn select_tree_path(state: &mut AppState, path: &[usize])
    ensures
        final(state).selected_section == (if path@.len() > 0 {
            match section_at_root(path@[0]) {
                Some(s) => s,
                None => old(state).selected_section,
            }
        } else {
            old(state).selected_section
        }),
        final(state).config == old(state).config,
        final(state).debouncer == old(state).debouncer,
        final(state).search_query == old(state).search_query,
        final(state).accent_picker_visible == old(state).accent_picker_visible,
        final(state).reset_confirm_visible == old(state).reset_confirm_visible,
        final(state).pending_reset == old(state).pending_reset,
        final(state).draft_accent_hex == old(state).draft_accent_hex,
{
    if let Some(sid) = SectionId::from_tree_path(path) {
        state.selected_section = sid;
    }
}

} // verus!
