//! Reset confirmation: what each reset scope restores, the confirmation
//! wording, and the state transitions around the disk write.
//!
//! A confirmed reset runs in two steps around the disk operation that
//! `begin_reset` names: `begin_reset` updates the in-memory config (for a
//! section or field reset), the caller performs the disk operation, and
//! only if it succeeds `finish_reset` settles the draft and closes the
//! modal.  A full reset leaves the in-memory state alone until the file
//! has been replaced.

use vstd::prelude::*;

use crate::persistence::{
    default_accent_hex, default_accent_hex_spec, default_accessibility, default_advanced,
    default_appearance, default_config, default_general, default_ime, AccessibilityConfig,
    AdvancedConfig, AppearanceConfig, AppearanceView, Config, ConfigView, GeneralConfig,
    ImeConfig, LangConfig,
};
use crate::sections::SectionId;
use crate::sections::appearance::with_appearance;
use crate::state::{AppState, ResetKind};

verus! {

/// Config after resetting one section; the Widgets showcase holds no
/// settings, so resetting it changes nothing.
pub open spec fn reset_section_spec(c: ConfigView, sid: SectionId) -> ConfigView {
    match sid {
        SectionId::General => ConfigView { general: default_general(), ..c },
        SectionId::Appearance => ConfigView { appearance: default_appearance(), ..c },
        SectionId::Accessibility => ConfigView { accessibility: default_accessibility(), ..c },
        SectionId::Ime => ConfigView { ime: default_ime(), ..c },
        SectionId::Advanced => ConfigView { advanced: default_advanced(), ..c },
        SectionId::Widgets => c,
    }
}

/// Human-readable section name used in the confirmation message.
pub open spec fn section_label_spec(sid: SectionId) -> &'static str {
    match sid {
        SectionId::General => "General",
        SectionId::Appearance => "Appearance",
        SectionId::Accessibility => "Accessibility",
        SectionId::Ime => "IME",
        SectionId::Advanced => "Advanced",
        SectionId::Widgets => "Widgets",
    }
}

/// Confirmation message for a pending reset.
pub open spec fn reset_message_spec(kind: Option<ResetKind>) -> Seq<char> {
    match kind {
        Some(ResetKind::All) => "Reset ALL settings to default? (この操作は取消不可)"@,
        Some(ResetKind::Section(sid)) => "Reset the "@ + section_label_spec(sid)@
            + " section to default? (この操作は取消不可)"@,
        Some(ResetKind::Field) => "Reset accent color to default ("@ + default_accent_hex_spec()
            + ")? (この操作は取消不可)"@,
        Some(ResetKind::CacheClear) => "Clear cache? (現状 cache layer 未実装のため no-op)"@,
        None => "Reset settings? (この操作は取消不可)"@,
    }
}

/// Disk operation that a reset needs before it can complete.
#[derive(Debug, Clone, Copy, PartialEq, Eq, Structural)]
pub enum ResetDiskAction {
    /// Move the config file to its `.bak` sibling and write the defaults.
    ReplaceWithDefaults,
    /// Save the (already reset) in-memory config.
    SaveConfig,
    /// No disk operation.
    Nothing,
}

/// In-memory config once `begin_reset` has run.
pub open spec fn config_after_begin(c: ConfigView, kind: ResetKind) -> ConfigView {
    match kind {
        ResetKind::All => c,
        ResetKind::Section(sid) => reset_section_spec(c, sid),
        ResetKind::Field => with_appearance(
            c,
            AppearanceView { accent_hex: default_accent_hex_spec(), ..c.appearance },
        ),
        ResetKind::CacheClear => c,
    }
}

/// Disk operation that `begin_reset` asks for.
pub open spec fn disk_action_for(kind: ResetKind) -> ResetDiskAction {
    match kind {
        ResetKind::All => ResetDiskAction::ReplaceWithDefaults,
        ResetKind::Section(_) => ResetDiskAction::SaveConfig,
        ResetKind::Field => ResetDiskAction::SaveConfig,
        ResetKind::CacheClear => ResetDiskAction::Nothing,
    }
}

/// Replace one section of `config` by its default.
pub fn reset_section_in_config(config: &mut Config, sid: SectionId)
    ensures
        final(config)@ == reset_section_spec(old(config)@, sid),
        sid == SectionId::General ==> final(config).general == default_general(),
        sid == SectionId::Appearance ==> final(config)@.appearance == default_appearance(),
        sid == SectionId::Accessibility ==> final(config).accessibility
            == default_accessibility(),
        sid == SectionId::Ime ==> final(config).ime == default_ime(),
        sid == SectionId::Advanced ==> final(config).advanced == default_advanced(),
        sid != SectionId::General ==> final(config).general == old(config).general,
        sid != SectionId::Appearance ==> final(config)@.appearance == old(config)@.appearance,
        sid != SectionId::Accessibility ==> final(config).accessibility
            == old(config).accessibility,
        sid != SectionId::Ime ==> final(config).ime == old(config).ime,
        sid != SectionId::Advanced ==> final(config).advanced == old(config).advanced,
        final(config).version == old(config).version,
{
    proof {
        lemma_section_reset_restores_defaults(old(config)@, sid);
        lemma_section_reset_is_local(old(config)@, sid);
    }
    match sid {
        SectionId::General => config.general = GeneralConfig::default(),
        SectionId::Appearance => config.appearance = AppearanceConfig::default(),
        SectionId::Accessibility => config.accessibility = AccessibilityConfig::default(),
        SectionId::Ime => config.ime = ImeConfig::default(),
        SectionId::Advanced => config.advanced = AdvancedConfig::default(),
        SectionId::Widgets => {},
    }
}

/// Human-readable section name.
pub fn section_label(sid: SectionId) -> (r: &'static str)
    ensures
        r == section_label_spec(sid),
{
    match sid {
        SectionId::General => "General",
        SectionId::Appearance => "Appearance",
        SectionId::Accessibility => "Accessibility",
        SectionId::Ime => "IME",
        SectionId::Advanced => "Advanced",
        SectionId::Widgets => "Widgets",
    }
}

/// Confirmation message naming what will be reset; `None` gets a generic
/// message.
pub fn reset_confirm_message(kind: Option<ResetKind>) -> (r: String)
    ensures
        r@ == reset_message_spec(kind),
{
    match kind {
        Some(ResetKind::All) => String::from_str("Reset ALL settings to default? (この操作は取消不可)"),
        Some(ResetKind::Section(sid)) => {
            let mut s = String::from_str("Reset the ");
            s.append(section_label(sid));
            s.append(" section to default? (この操作は取消不可)");
            s
        },
        Some(ResetKind::Field) => {
            let mut s = String::from_str("Reset accent color to default (");
            let accent = default_accent_hex();
            s.append(accent.as_str());
            s.append(")? (この操作は取消不可)");
            s
        },
        Some(ResetKind::CacheClear) => String::from_str(
            "Clear cache? (現状 cache layer 未実装のため no-op)",
        ),
        None => String::from_str("Reset settings? (この操作は取消不可)"),
    }
}

/// Reset scope to apply on confirmation: the pending one, or a full reset
/// when none is pending.
pub fn confirmed_reset_kind(pending: Option<ResetKind>) -> (r: ResetKind)
    ensures
        r == match pending {
            Some(k) => k,
            None => ResetKind::All,
        },
{
    match pending {
        Some(k) => k,
        None => ResetKind::All,
    }
}

/// First step of a confirmed reset: reset the in-memory config for a
/// section or field reset, and name the disk operation to perform next.
/// Nothing else changes.
pub fn begin_reset(state: &mut AppState, kind: ResetKind) -> (action: ResetDiskAction)
    ensures
        action == disk_action_for(kind),
        final(state).config@ == config_after_begin(old(state).config@, kind),
        final(state).debouncer == old(state).debouncer,
        final(state).selected_section == old(state).selected_section,
        final(state).search_query == old(state).search_query,
        final(state).accent_picker_visible == old(state).accent_picker_visible,
        final(state).reset_confirm_visible == old(state).reset_confirm_visible,
        final(state).pending_reset == old(state).pending_reset,
        final(state).draft_accent_hex == old(state).draft_accent_hex,
{
    match kind {
        ResetKind::All => ResetDiskAction::ReplaceWithDefaults,
        ResetKind::Section(sid) => {
            reset_section_in_config(&mut state.config, sid);
            ResetDiskAction::SaveConfig
        },
        ResetKind::Field => {
            state.config.appearance.accent_hex = default_accent_hex();
            ResetDiskAction::SaveConfig
        },
        ResetKind::CacheClear => ResetDiskAction::Nothing,
    }
}

/// Second step, once the disk operation has succeeded: a full reset takes
/// the defaults in memory; resets that touch the accent reseed the picker
/// draft from it; then the modal closes and no reset is pending.
pub fn finish_reset(state: &mut AppState, kind: ResetKind)
    ensures
        kind == ResetKind::All ==> final(state).config@ == default_config(),
        kind != ResetKind::All ==> final(state).config == old(state).config,
        match kind {
            ResetKind::All => final(state).draft_accent_hex@ == default_accent_hex_spec(),
            ResetKind::Field => final(state).draft_accent_hex@ == default_accent_hex_spec(),
            ResetKind::Section(SectionId::Appearance) => final(state).draft_accent_hex@
                == old(state).config.appearance.accent_hex@,
            _ => final(state).draft_accent_hex == old(state).draft_accent_hex,
        },
        !final(state).reset_confirm_visible,
        final(state).pending_reset is None,
        final(state).debouncer == old(state).debouncer,
        final(state).selected_section == old(state).selected_section,
        final(state).search_query == old(state).search_query,
        final(state).accent_picker_visible == old(state).accent_picker_visible,
{
    match kind {
        ResetKind::All => {
            state.config = Config::default();
            state.draft_accent_hex = default_accent_hex();
        },
        ResetKind::Section(sid) => {
            if sid == SectionId::Appearance {
                let current = state.config.appearance.accent_hex.clone();
                state.draft_accent_hex = current;
            }
        },
        ResetKind::Field => {
            state.draft_accent_hex = default_accent_hex();
        },
        ResetKind::CacheClear => {},
    }
    state.reset_confirm_visible = false;
    state.pending_reset = None;
}

/// Cancel: close the confirmation without resetting; no reset stays
/// pending, the config is untouched.
pub fn cancel_reset_confirm(state: &mut AppState)
    ensures
        !final(state).reset_confirm_visible,
        final(state).pending_reset is None,
        final(state).config == old(state).config,
        final(state).debouncer == old(state).debouncer,
        final(state).selected_section == old(state).selected_section,
        final(state).search_query == old(state).search_query,
        final(state).accent_picker_visible == old(state).accent_picker_visible,
        final(state).draft_accent_hex == old(state).draft_accent_hex,
{
    state.reset_confirm_visible = false;
    state.pending_reset = None;
}

/// Dismissing the confirmation (Escape, a press outside, or a failed disk
/// operation): it closes and nothing else changes; unlike Cancel, the
/// requested reset stays recorded.
pub fn dismiss_reset_confirm(state: &mut AppState)
    ensures
        !final(state).reset_confirm_visible,
        final(state).pending_reset == old(state).pending_reset,
        final(state).config == old(state).config,
        final(state).debouncer == old(state).debouncer,
        final(state).selected_section == old(state).selected_section,
        final(state).search_query == old(state).search_query,
        final(state).accent_picker_visible == old(state).accent_picker_visible,
        final(state).draft_accent_hex == old(state).draft_accent_hex,
{
    state.reset_confirm_visible = false;
}

/// A section reset restores that whole section: every field of its
/// sub-config takes the section's default value (what its `Default` gives).
pub proof fn lemma_section_reset_restores_defaults(c: ConfigView, sid: SectionId)
    ensures
        sid == SectionId::General ==> reset_section_spec(c, sid).general == default_general(),
        sid == SectionId::General ==> reset_section_spec(c, sid).general == (GeneralConfig {
            language: LangConfig::En,
            startup_reset_window: false,
            remember_window_position: true,
        }),
        sid == SectionId::Appearance ==> reset_section_spec(c, sid).appearance
            == default_appearance(),
        sid == SectionId::Accessibility ==> reset_section_spec(c, sid).accessibility
            == default_accessibility(),
        sid == SectionId::Ime ==> reset_section_spec(c, sid).ime == default_ime(),
        sid == SectionId::Advanced ==> reset_section_spec(c, sid).advanced == default_advanced(),
        sid == SectionId::Widgets ==> reset_section_spec(c, sid) == c,
{
}

/// A section reset is local: every other section, and the schema version,
/// keep their values.
pub proof fn lemma_section_reset_is_local(c: ConfigView, sid: SectionId)
    ensures
        reset_section_spec(c, sid).version == c.version,
        sid != SectionId::General ==> reset_section_spec(c, sid).general == c.general,
        sid != SectionId::Appearance ==> reset_section_spec(c, sid).appearance == c.appearance,
        sid != SectionId::Accessibility ==> reset_section_spec(c, sid).accessibility
            == c.accessibility,
        sid != SectionId::Ime ==> reset_section_spec(c, sid).ime == c.ime,
        sid != SectionId::Advanced ==> reset_section_spec(c, sid).advanced == c.advanced,
{
}

/// A field reset restores only the accent colour: every other field of
/// every section keeps its value.
pub proof fn lemma_field_reset_is_local(c: ConfigView)
    ensures
        config_after_begin(c, ResetKind::Field).appearance.accent_hex == default_accent_hex_spec(),
        config_after_begin(c, ResetKind::Field).appearance.font_size_scale_bits
            == c.appearance.font_size_scale_bits,
        config_after_begin(c, ResetKind::Field).appearance.color_mode == c.appearance.color_mode,
        config_after_begin(c, ResetKind::Field).appearance.theme_id == c.appearance.theme_id,
        config_after_begin(c, ResetKind::Field).general == c.general,
        config_after_begin(c, ResetKind::Field).accessibility == c.accessibility,
        config_after_begin(c, ResetKind::Field).ime == c.ime,
        config_after_begin(c, ResetKind::Field).advanced == c.advanced,
        config_after_begin(c, ResetKind::CacheClear) == c,
{
}

} // verus!
