//! Application state shared by the sections, modals and search: the
//! persisted config, the navigation and modal state, and the debounced
//! save request.  Every user action is a transition of this state.

use vstd::prelude::*;

use crate::persistence::{Config, DebouncedSaver};
use crate::sections::SectionId;

verus! {

/// Scope of a destructive reset.
#[derive(Debug, Clone, Copy, PartialEq, Eq, Structural)]
pub enum ResetKind {
    /// Every section back to its default (the file is replaced, with backup).
    All,
    /// One section back to its default.
    Section(SectionId),
    /// One field (the accent colour) back to its default.
    Field,
    /// Cache flush; there is no cache layer, so nothing changes.
    CacheClear,
}

/// Application state.
pub struct AppState {
    /// Persisted settings.
    pub config: Config,
    /// Section shown in the detail pane.
    pub selected_section: SectionId,
    /// Current search query (not persisted).
    pub search_query: String,
    /// Accent picker modal visibility.
    pub accent_picker_visible: bool,
    /// Reset confirmation modal visibility.
    pub reset_confirm_visible: bool,
    /// Reset awaiting confirmation.
    pub pending_reset: Option<ResetKind>,
    /// Accent picker input, committed to the config only on Apply.
    pub draft_accent_hex: String,
    /// Debounced save request shared by all edits.
    pub debouncer: DebouncedSaver,
}

/// Everything but the config and the debouncer is as before.
pub open spec fn same_ui(a: AppState, b: AppState) -> bool {
    &&& b.selected_section == a.selected_section
    &&& b.search_query == a.search_query
    &&& b.accent_picker_visible == a.accent_picker_visible
    &&& b.reset_confirm_visible == a.reset_confirm_visible
    &&& b.pending_reset == a.pending_reset
    &&& b.draft_accent_hex == a.draft_accent_hex
}

/// `b` made a save request on top of `a`: a request is pending and the
/// quiet period is unchanged.
pub open spec fn save_requested(a: AppState, b: AppState) -> bool {
    &&& b.debouncer.pending()
    &&& b.debouncer.quiet_period_nanos() == a.debouncer.quiet_period_nanos()
}

impl AppState {
    /// State at launch for a loaded config: General selected, empty query,
    /// both modals hidden, no pending reset, the accent draft equal to the
    /// configured accent, no save request.
    pub fn new(initial_config: Config) -> (r: AppState)
        ensures
            r.config == initial_config,
            r.selected_section == SectionId::General,
            r.search_query@ == Seq::<char>::empty(),
            !r.accent_picker_visible,
            !r.reset_confirm_visible,
            r.pending_reset is None,
            r.draft_accent_hex@ == initial_config.appearance.accent_hex@,
            !r.debouncer.pending(),
    {
        let initial_accent = initial_config.appearance.accent_hex.clone();
        AppState {
            config: initial_config,
            selected_section: SectionId::default(),
            search_query: String::new(),
            accent_picker_visible: false,
            reset_confirm_visible: false,
            pending_reset: None,
            draft_accent_hex: initial_accent,
            debouncer: DebouncedSaver::new(),
        }
    }
}

} // verus!
