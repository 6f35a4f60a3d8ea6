//! Advanced section: debug overlay, log level and the reset requests.

use vstd::prelude::*;

use crate::persistence::{AdvancedConfig, ConfigView, LogLevel};
use crate::state::{same_ui, save_requested, AppState, ResetKind};
use crate::text::chars_equal;

verus! {

/// Log level picker entries.
pub const LOG_TRACE: &'static str = "trace";
pub const LOG_DEBUG: &'static str = "debug";
pub const LOG_INFO: &'static str = "info";
pub const LOG_WARN: &'static str = "warn";
pub const LOG_ERROR: &'static str = "error";

pub open spec fn log_level_for_label(label: Seq<char>) -> Option<LogLevel> {
    if label == LOG_TRACE@ {
        Some(LogLevel::Trace)
    } else if label == LOG_DEBUG@ {
        Some(LogLevel::Debug)
    } else if label == LOG_INFO@ {
        Some(LogLevel::Info)
    } else if label == LOG_WARN@ {
        Some(LogLevel::Warn)
    } else if label == LOG_ERROR@ {
        Some(LogLevel::Error)
    } else {
        None
    }
}

/// Config with `advanced` replaced.
pub open spec fn with_advanced(c: ConfigView, a: AdvancedConfig) -> ConfigView {
    ConfigView { advanced: a, ..c }
}

/// Log level for a picker entry; `None` for an unknown entry.
pub fn parse_log_level(label: &str) -> (r: Option<LogLevel>)
    ensures
        r == log_level_for_label(label@),
{
    if chars_equal(label, LOG_TRACE) {
        Some(LogLevel::Trace)
    } else if chars_equal(label, LOG_DEBUG) {
        Some(LogLevel::Debug)
    } else if chars_equal(label, LOG_INFO) {
        Some(LogLevel::Info)
    } else if chars_equal(label, LOG_WARN) {
        Some(LogLevel::Warn)
    } else if chars_equal(label, LOG_ERROR) {
        Some(LogLevel::Error)
    } else {
        None
    }
}

/// Debug overlay toggle.
pub fn apply_debug_overlay_change(state: &mut AppState, checked: bool)
    ensures
        final(state).config@ == with_advanced(
            old(state).config@,
            AdvancedConfig { debug_overlay: checked, ..old(state).config.advanced },
        ),
        same_ui(*old(state), *final(state)),
        save_requested(*old(state), *final(state)),
{
    state.config.advanced.debug_overlay = checked;
    state.debouncer.request();
}

/// Log level selection: a known entry is stored and a save requested; an
/// unknown entry changes nothing.
pub fn apply_log_level_selection(state: &mut AppState, selected: &str)
    ensures
        match log_level_for_label(selected@) {
            Some(l) => {
                &&& final(state).config@ == with_advanced(
                    old(state).config@,
                    AdvancedConfig { log_level: l, ..old(state).config.advanced },
                )
                &&& same_ui(*old(state), *final(state))
                &&& save_requested(*old(state), *final(state))
            },
            None => *final(state) == *old(state),
        },
{
    if let Some(value) = parse_log_level(selected) {
        state.config.advanced.log_level = value;
        state.debouncer.request();
    }
}

/// A reset button: remember what to reset and open the confirmation; the
/// config is untouched and no save is requested.
pub fn request_reset(state: &mut AppState, kind: ResetKind)
    ensures
        final(state).pending_reset == Some(kind),
        final(state).reset_confirm_visible,
        final(state).config == old(state).config,
        final(state).debouncer == old(state).debouncer,
        final(state).selected_section == old(state).selected_section,
        final(state).search_query == old(state).search_query,
        final(state).accent_picker_visible == old(state).accent_picker_visible,
        final(state).draft_accent_hex == old(state).draft_accent_hex,
{
    state.pending_reset = Some(kind);
    state.reset_confirm_visible = true;
}

} // verus!
