//! Persistence layer: the versioned `Config` schema with its defaults, the
//! reading of a config text's JSON `version` member and the version
//! dispatch that turns the document into a `Config`,
//! config-path resolution, backup/temp sibling names, and the debounced
//! save request.
//!
//! A document whose JSON is malformed, whose version is newer than
//! supported, or whose current-schema body does not fully parse yields
//! `Config::default()`; a version-0 document is migrated (all defaults).
//! Loading never fails on content.

use vstd::prelude::*;

use std::time::Duration;
use std::time::Instant;

verus! {

/// Current config schema version.
pub const CURRENT_SCHEMA_VERSION: u32 = 1;

/// IEEE-754 single-precision bit pattern of the default font size scale (14.0).
pub const DEFAULT_FONT_SIZE_SCALE_BITS: u32 = 0x4160_0000;

// ── enum types ──────────────────────────────────────────────────────────

/// UI language preference.
#[derive(Debug, Clone, Copy, PartialEq, Eq, Hash, Structural)]
pub enum LangConfig {
    Ja,
    En,
}

/// Color mode preference.
#[derive(Debug, Clone, Copy, PartialEq, Eq, Hash, Structural)]
pub enum ColorMode {
    Light,
    Dark,
    System,
}

/// IME backend preference.
#[derive(Debug, Clone, Copy, PartialEq, Eq, Hash, Structural)]
pub enum ImeBackend {
    Ibus,
    Fcitx5,
}

/// IME candidate window anchor.
#[derive(Debug, Clone, Copy, PartialEq, Eq, Hash, Structural)]
pub enum CandidatePosition {
    CursorAnchor,
    WidgetBottom,
}

/// IME preedit display style.
#[derive(Debug, Clone, Copy, PartialEq, Eq, Hash, Structural)]
pub enum PreeditStyle {
    Inline,
    Floating,
}

/// Diagnostics log verbosity.
#[derive(Debug, Clone, Copy, PartialEq, Eq, Hash, Structural)]
pub enum LogLevel {
    Trace,
    Debug,
    Info,
    Warn,
    Error,
}

/// App-wide theme (skin) preference.
#[derive(Debug, Clone, Copy, PartialEq, Eq, Hash, Structural)]
pub enum ThemeId {
    HayateOriginal,
    Win95,
    XpLuna,
    Win10,
    MacOs9,
    MacOsBigSur,
}

impl Default for LangConfig {
    fn default() -> (r: LangConfig)
        ensures
            r == LangConfig::En,
    {
        LangConfig::En
    }
}

impl Default for ColorMode {
    fn default() -> (r: ColorMode)
        ensures
            r == ColorMode::Dark,
    {
        ColorMode::Dark
    }
}

impl Default for ImeBackend {
    fn default() -> (r: ImeBackend)
        ensures
            r == ImeBackend::Ibus,
    {
        ImeBackend::Ibus
    }
}

impl Default for CandidatePosition {
    fn default() -> (r: CandidatePosition)
        ensures
            r == CandidatePosition::CursorAnchor,
    {
        CandidatePosition::CursorAnchor
    }
}

impl Default for PreeditStyle {
    fn default() -> (r: PreeditStyle)
        ensures
            r == PreeditStyle::Inline,
    {
        PreeditStyle::Inline
    }
}

impl Default for LogLevel {
    fn default() -> (r: LogLevel)
        ensures
            r == LogLevel::Info,
    {
        LogLevel::Info
    }
}

impl Default for ThemeId {
    fn default() -> (r: ThemeId)
        ensures
            r == ThemeId::HayateOriginal,
    {
        ThemeId::HayateOriginal
    }
}

// ── section structs ─────────────────────────────────────────────────────

/// General section state.
#[derive(Debug, Clone, Copy, PartialEq, Eq, Structural)]
pub struct GeneralConfig {
    pub language: LangConfig,
    pub startup_reset_window: bool,
    pub remember_window_position: bool,
}

/// Appearance section state.  The font size scale is kept as the bit
/// pattern of its `f32` value, so that it is stored and compared exactly.
#[derive(Debug, Clone, PartialEq, Eq)]
pub struct AppearanceConfig {
    pub font_size_scale_bits: u32,
    pub color_mode: ColorMode,
    pub accent_hex: String,
    pub theme_id: ThemeId,
}

/// Accessibility section state.
#[derive(Debug, Clone, Copy, PartialEq, Eq, Structural)]
pub struct AccessibilityConfig {
    pub screen_reader: bool,
    pub high_contrast: bool,
    pub reduce_motion: bool,
    pub keyboard_nav_hints: bool,
}

/// IME section state.
#[derive(Debug, Clone, Copy, PartialEq, Eq, Structural)]
pub struct ImeConfig {
    pub backend: ImeBackend,
    pub candidate_position: CandidatePosition,
    pub preedit_style: PreeditStyle,
}

/// Advanced section state.
#[derive(Debug, Clone, Copy, PartialEq, Eq, Structural)]
pub struct AdvancedConfig {
    pub debug_overlay: bool,
    pub log_level: LogLevel,
}

/// Application config persisted to `config.json`.
#[derive(Debug, Clone, PartialEq, Eq)]
pub struct Config {
    pub version: u32,
    pub general: GeneralConfig,
    pub appearance: AppearanceConfig,
    pub accessibility: AccessibilityConfig,
    pub ime: ImeConfig,
    pub advanced: AdvancedConfig,
}

/// Mathematical value of an `AppearanceConfig` (the accent as characters).
pub struct AppearanceView {
    pub font_size_scale_bits: u32,
    pub color_mode: ColorMode,
    pub accent_hex: Seq<char>,
    pub theme_id: ThemeId,
}

/// Mathematical value of a `Config`.
pub struct ConfigView {
    pub version: u32,
    pub general: GeneralConfig,
    pub appearance: AppearanceView,
    pub accessibility: AccessibilityConfig,
    pub ime: ImeConfig,
    pub advanced: AdvancedConfig,
}

impl View for AppearanceConfig {
    type V = AppearanceView;

    open spec fn view(&self) -> AppearanceView {
        AppearanceView {
            font_size_scale_bits: self.font_size_scale_bits,
            color_mode: self.color_mode,
            accent_hex: self.accent_hex@,
            theme_id: self.theme_id,
        }
    }
}

impl View for Config {
    type V = ConfigView;

    open spec fn view(&self) -> ConfigView {
        ConfigView {
            version: self.version,
            general: self.general,
            appearance: self.appearance@,
            accessibility: self.accessibility,
            ime: self.ime,
            advanced: self.advanced,
        }
    }
}

/// The default accent colour, `#5A8BA8`.
pub open spec fn default_accent_hex_spec() -> Seq<char> {
    "#5A8BA8"@
}

pub open spec fn default_general() -> GeneralConfig {
    GeneralConfig {
        language: LangConfig::En,
        startup_reset_window: false,
        remember_window_position: true,
    }
}

pub open spec fn default_appearance() -> AppearanceView {
    AppearanceView {
        font_size_scale_bits: DEFAULT_FONT_SIZE_SCALE_BITS,
        color_mode: ColorMode::Dark,
        accent_hex: default_accent_hex_spec(),
        theme_id: ThemeId::HayateOriginal,
    }
}

pub open spec fn default_accessibility() -> AccessibilityConfig {
    AccessibilityConfig {
        screen_reader: false,
        high_contrast: false,
        reduce_motion: false,
        keyboard_nav_hints: false,
    }
}

pub open spec fn default_ime() -> ImeConfig {
    ImeConfig {
        backend: ImeBackend::Ibus,
        candidate_position: CandidatePosition::CursorAnchor,
        preedit_style: PreeditStyle::Inline,
    }
}

pub open spec fn default_advanced() -> AdvancedConfig {
    AdvancedConfig { debug_overlay: false, log_level: LogLevel::Info }
}

/// The default configuration, as a value.
pub open spec fn default_config() -> ConfigView {
    ConfigView {
        version: CURRENT_SCHEMA_VERSION,
        general: default_general(),
        appearance: default_appearance(),
        accessibility: default_accessibility(),
        ime: default_ime(),
        advanced: default_advanced(),
    }
}

/// Default for boolean fields whose default is on.
pub fn default_true() -> (r: bool)
    ensures
        r,
{
    true
}

/// The default accent colour literal.
pub fn default_accent_hex() -> (r: String)
    ensures
        r@ == default_accent_hex_spec(),
{
    String::from_str("#5A8BA8")
}

impl Default for GeneralConfig {
    fn default() -> (r: GeneralConfig)
        ensures
            r == default_general(),
    {
        GeneralConfig {
            language: LangConfig::default(),
            startup_reset_window: false,
            remember_window_position: default_true(),
        }
    }
}

impl Default for AppearanceConfig {
    fn default() -> (r: AppearanceConfig)
        ensures
            r@ == default_appearance(),
    {
        AppearanceConfig {
            font_size_scale_bits: DEFAULT_FONT_SIZE_SCALE_BITS,
            color_mode: ColorMode::default(),
            accent_hex: default_accent_hex(),
            theme_id: ThemeId::default(),
        }
    }
}

impl Default for AccessibilityConfig {
    fn default() -> (r: AccessibilityConfig)
        ensures
            r == default_accessibility(),
    {
        AccessibilityConfig {
            screen_reader: false,
            high_contrast: false,
            reduce_motion: false,
            keyboard_nav_hints: false,
        }
    }
}

impl Default for ImeConfig {
    fn default() -> (r: ImeConfig)
        ensures
            r == default_ime(),
    {
        ImeConfig {
            backend: ImeBackend::default(),
            candidate_position: CandidatePosition::default(),
            preedit_style: PreeditStyle::default(),
        }
    }
}

impl Default for AdvancedConfig {
    fn default() -> (r: AdvancedConfig)
        ensures
            r == default_advanced(),
    {
        AdvancedConfig { debug_overlay: false, log_level: LogLevel::default() }
    }
}

impl Default for Config {
    fn default() -> (r: Config)
        ensures
            r@ == default_config(),
    {
        Config {
            version: CURRENT_SCHEMA_VERSION,
            general: GeneralConfig::default(),
            appearance: AppearanceConfig::default(),
            accessibility: AccessibilityConfig::default(),
            ime: ImeConfig::default(),
            advanced: AdvancedConfig::default(),
        }
    }
}

// ── version dispatch ────────────────────────────────────────────────────

/// A pre-v1 document: only its version is read.
struct V0Config {
    version: u32,
}

/// v0 → v1: v0 held no user data, so every section takes its default.
fn migrate_v0_to_v1(_prev: V0Config) -> (r: Config)
    ensures
        r@ == default_config(),
{
    Config::default()
}

/// What the JSON layer read from a config document that is well-formed
/// JSON: its top-level `version` member when that is an unsigned integer,
/// and the document read as a current-schema `Config` (absent when some
/// field does not parse).
pub struct ParsedDocument {
    pub version_field: Option<u64>,
    pub as_current: Option<Config>,
}

/// Schema version of a document: the `version` member truncated to 32
/// bits, or 0 when it is missing or not an unsigned integer.
pub open spec fn schema_version(field: Option<u64>) -> u32 {
    match field {
        Some(v) => (v % 0x1_0000_0000) as u32,
        None => 0,
    }
}

/// Configuration that a document yields (`None` = malformed JSON).  A
/// current-version document gives its body, provided the body's own
/// version is the `version` member itself: a member that only truncates to
/// the current version cannot be read into the body's 32-bit version.
pub open spec fn loaded_config(doc: Option<ParsedDocument>) -> ConfigView {
    match doc {
        None => default_config(),
        Some(d) => if schema_version(d.version_field) == CURRENT_SCHEMA_VERSION {
            match d.as_current {
                Some(c) => if c.version == CURRENT_SCHEMA_VERSION && d.version_field == Some(
                    c.version as u64,
                ) {
                    c@
                } else {
                    default_config()
                },
                None => default_config(),
            }
        } else {
            default_config()
        },
    }
}

/// A document whose `version` member is exactly the current version and
/// whose body reads as a `Config` of that same version.
pub open spec fn is_current_document(doc: Option<ParsedDocument>) -> bool {
    &&& doc is Some
    &&& doc.unwrap().version_field == Some(CURRENT_SCHEMA_VERSION as u64)
    &&& doc.unwrap().as_current is Some
    &&& doc.unwrap().as_current.unwrap().version == CURRENT_SCHEMA_VERSION
}

/// A current-version document is taken as read, every section of its body
/// kept; any other document (not JSON, another version, a body that does
/// not parse or is of another version) gives exactly the defaults.
pub proof fn lemma_current_document_taken_as_read(doc: Option<ParsedDocument>)
    ensures
        is_current_document(doc) ==> loaded_config(doc) == doc.unwrap().as_current.unwrap()@,
        is_current_document(doc) ==> loaded_config(doc).accessibility
            == doc.unwrap().as_current.unwrap().accessibility,
        !is_current_document(doc) ==> loaded_config(doc) == default_config(),
{
}

/// Turn a parsed config document into a `Config` (`None` = the raw text
/// was not JSON).  Version 0 or a missing version is migrated; the current
/// version is taken as read, or the defaults when a field is malformed; a
/// newer version falls back to the defaults.  The result is always of the
/// current schema version.
pub fn load_from_document(doc: Option<ParsedDocument>) -> (r: Config)
    ensures
        r@ == loaded_config(doc),
        r.version == CURRENT_SCHEMA_VERSION,
        is_current_document(doc) ==> r@ == doc.unwrap().as_current.unwrap()@,
        !is_current_document(doc) ==> r@ == default_config(),
{
    proof {
        lemma_current_document_taken_as_read(doc);
    }
    match doc {
        None => Config::default(),
        Some(d) => {
            let member = d.version_field;
            let version = match member {
                Some(v) => (v % 0x1_0000_0000) as u32,
                None => 0,
            };
            if version == 0 {
                migrate_v0_to_v1(V0Config { version })
            } else if version == CURRENT_SCHEMA_VERSION {
                match d.as_current {
                    Some(c) => if c.version == CURRENT_SCHEMA_VERSION && member == Some(
                        c.version as u64,
                    ) {
                        c
                    } else {
                        Config::default()
                    },
                    None => Config::default(),
                }
            } else {
                Config::default()
            }
        },
    }
}

// ── reading the config text ────────────────────────────────────────────

#[verifier::external_type_specification]
#[verifier::external_body]
pub struct ExJsonValue(serde_json::Value);

/// The JSON value that `serde_json` reads from a text, or `None` when the
/// text is not JSON.
pub uninterp spec fn json_parse(raw: Seq<char>) -> Option<serde_json::Value>;

/// The member named `key` of a JSON object (`None` when the value is not an
/// object or has no such member).
pub uninterp spec fn json_member(v: serde_json::Value, key: Seq<char>) -> Option<
    serde_json::Value,
>;

/// A JSON value read as an unsigned 64-bit integer (`None` when it is not a
/// number of that kind).
pub uninterp spec fn json_as_u64(v: serde_json::Value) -> Option<u64>;

/// `serde_json::from_str::<Value>`: the JSON value of `raw`, `None` on a
/// parse error.  The result depends on the text alone (named `json_parse`).
#[verifier::external_body]
fn parse_json_value(raw: &str) -> (r: Option<serde_json::Value>)
    ensures
        r == json_parse(raw@),
{
    serde_json::from_str::<serde_json::Value>(raw).ok()
}

/// `Value::get` with a string key, the member copied out: a function of the
/// value and the key alone (named `json_member`).
#[verifier::external_body]
fn json_get_member(v: &serde_json::Value, key: &str) -> (r: Option<serde_json::Value>)
    ensures
        r == json_member(*v, key@),
{
    v.get(key).cloned()
}

/// `Value::as_u64`: the value as a `u64`, a function of the value alone
/// (named `json_as_u64`).
#[verifier::external_body]
fn json_value_as_u64(v: &serde_json::Value) -> (r: Option<u64>)
    ensures
        r == json_as_u64(*v),
{
    v.as_u64()
}

/// The `version` member of a config text: `None` when the text is not JSON,
/// `Some(None)` when the member is missing or not an unsigned integer.
pub open spec fn json_version_member(raw: Seq<char>) -> Option<Option<u64>> {
    match json_parse(raw) {
        None => None,
        Some(v) => Some(
            match json_member(v, "version"@) {
                Some(m) => json_as_u64(m),
                None => None,
            },
        ),
    }
}

/// The document a config text gives, with `as_current` the text read as a
/// current-schema `Config`.
pub open spec fn document_of(raw: Seq<char>, as_current: Option<Config>) -> Option<
    ParsedDocument,
> {
    match json_version_member(raw) {
        None => None,
        Some(version_field) => Some(ParsedDocument { version_field, as_current }),
    }
}

/// Read a config text into a `Config`; `as_current` is the same text read as
/// a current-schema `Config` (`None` when some field does not parse).  The
/// text is read as JSON and its `version` member decides, as in
/// `load_from_document`.  Whatever the text, the result is of the current
/// schema version, and it differs from the defaults only for a text whose
/// version member is exactly the current version.
pub fn load_from_str(raw: &str, as_current: Option<Config>) -> (r: Config)
    ensures
        r@ == loaded_config(document_of(raw@, as_current)),
        r.version == CURRENT_SCHEMA_VERSION,
        r@ != default_config() ==> json_version_member(raw@) == Some(
            Some(CURRENT_SCHEMA_VERSION as u64),
        ),
        json_version_member(raw@) == Some(Some(CURRENT_SCHEMA_VERSION as u64)) && as_current is Some
            && as_current.unwrap().version == CURRENT_SCHEMA_VERSION ==> r@ == as_current.unwrap()@,
{
    let doc = match parse_json_value(raw) {
        None => None,
        Some(value) => {
            let version_field = match json_get_member(&value, "version") {
                Some(member) => json_value_as_u64(&member),
                None => None,
            };
            Some(ParsedDocument { version_field, as_current })
        },
    };
    load_from_document(doc)
}

// ── paths ───────────────────────────────────────────────────────────────

/// `base` joined with a relative component, as `PathBuf::push` does on
/// Unix: a `/` separator is inserted unless `base` already ends with one.
pub open spec fn join_spec(base: Seq<char>, component: Seq<char>) -> Seq<char> {
    if base.len() > 0 && base.last() == '/' {
        base + component
    } else {
        base + "/"@ + component
    }
}

/// Directory that holds the application's config directory: an absolute
/// `XDG_CONFIG_HOME`, else `$HOME/.config` for an absolute `HOME`; a value
/// that is empty or relative gives no base.
pub open spec fn config_home_spec(xdg: Option<Seq<char>>, home: Option<Seq<char>>) -> Option<
    Seq<char>,
> {
    match xdg {
        Some(x) if x.len() > 0 && x[0] == '/' => Some(x),
        _ => match home {
            Some(h) if h.len() > 0 && h[0] == '/' => Some(join_spec(h, ".config"@)),
            _ => None,
        },
    }
}

/// Config file path for the given `XDG_CONFIG_HOME` / `HOME` values.
pub open spec fn config_path_spec(xdg: Option<Seq<char>>, home: Option<Seq<char>>) -> Option<
    Seq<char>,
> {
    match config_home_spec(xdg, home) {
        Some(base) => Some(join_spec(join_spec(base, "hayate-kit-settings"@), "config.json"@)),
        None => None,
    }
}

pub open spec fn opt_view(s: Option<&str>) -> Option<Seq<char>> {
    match s {
        Some(x) => Some(x@),
        None => None,
    }
}

/// `base` joined with the relative component `component`.
fn join(base: String, component: &str) -> (r: String)
    ensures
        r@ == join_spec(base@, component@),
{
    let s = base.as_str();
    let n = s.unicode_len();
    let mut out = base;
    if n > 0 && out.as_str().get_char(n - 1) == '/' {
        out.append(component);
    } else {
        out.append("/");
        out.append(component);
        proof {
            assert(base@ + "/"@ + component@ =~= (base@ + "/"@) + component@);
        }
    }
    out
}

/// Resolve the config file path from `XDG_CONFIG_HOME` and `HOME` values.
/// Only an absolute path is a base: an empty or relative `XDG_CONFIG_HOME`
/// is ignored in favour of `$HOME/.config`, and when `HOME` is empty or
/// relative too the result is `None`, never a path relative to the working
/// directory.
pub fn resolve_config_path(xdg_config_home: Option<&str>, home: Option<&str>) -> (r: Option<
    String,
>)
    ensures
        match r {
            Some(p) => config_path_spec(opt_view(xdg_config_home), opt_view(home)) == Some(p@),
            None => config_path_spec(opt_view(xdg_config_home), opt_view(home)) is None,
        },
{
    let mut base: Option<String> = None;
    if let Some(x) = xdg_config_home {
        if x.unicode_len() > 0 && x.get_char(0) == '/' {
            base = Some(String::from_str(x));
        }
    }
    if base.is_none() {
        if let Some(h) = home {
            if h.unicode_len() > 0 && h.get_char(0) == '/' {
                base = Some(join(String::from_str(h), ".config"));
            }
        }
    }
    match base {
        Some(b) => {
            let dir = join(b, "hayate-kit-settings");
            Some(join(dir, "config.json"))
        },
        None => None,
    }
}

/// `path` with `suffix` appended literally (`config.json` →
/// `config.json.bak`), unlike an extension replacement.
pub fn sibling_with_suffix(path: &str, suffix: &str) -> (r: String)
    ensures
        r@ == path@ + suffix@,
{
    let mut s = String::from_str(path);
    s.append(suffix);
    s
}

// ── debounced save requests ─────────────────────────────────────────────

#[verifier::external_type_specification]
#[verifier::external_body]
pub struct ExInstant(Instant);

/// `Instant::now`: the current time, nothing more is known of it.
#[verifier::external_body]
fn instant_now() -> Instant {
    Instant::now()
}

/// Time from `earlier` to `later`, zero when `earlier` is the later one, as
/// `Instant::saturating_duration_since` computes it.  Both instants are
/// opaque here, so the value is named; it depends on the two instants alone.
pub uninterp spec fn time_between(later: Instant, earlier: Instant) -> Duration;

/// `Instant::saturating_duration_since`: the time from `earlier` to `later`
/// (named `time_between`).
#[verifier::external_body]
fn instant_saturating_since(later: &Instant, earlier: &Instant) -> (r: Duration)
    ensures
        r == time_between(*later, *earlier),
{
    later.saturating_duration_since(*earlier)
}

/// Whole nanoseconds in a duration, as `Duration::as_nanos` computes them.
/// A duration is opaque here, so the value is named rather than written out;
/// it depends on the duration alone.
pub uninterp spec fn duration_nanos(d: Duration) -> u128;

/// `Duration::as_nanos`: the whole nanoseconds of `d`, a function of `d`
/// alone (named `duration_nanos`).
#[verifier::external_body]
fn duration_as_nanos(d: &Duration) -> (r: u128)
    ensures
        r == duration_nanos(*d),
{
    d.as_nanos()
}

/// Default quiet period: 500 ms.
pub const DEFAULT_QUIET_PERIOD_NANOS: u128 = 500_000_000;

/// Quiet-period debouncer for save requests: a request is ready once no
/// further request has come for the quiet period.
#[derive(Debug)]
pub struct DebouncedSaver {
    quiet_period_nanos: u128,
    pending_since: Option<Instant>,
}

impl DebouncedSaver {
    /// When the pending save request was made, if one is pending.
    pub closed spec fn since(&self) -> Option<Instant> {
        self.pending_since
    }

    /// A save request is pending.
    pub open spec fn pending(&self) -> bool {
        self.since() is Some
    }

    /// Whether the pending request has waited out the quiet period at the
    /// clock reading `now`.
    pub open spec fn ready_at_spec(&self, now: Instant) -> bool {
        match self.since() {
            Some(t) => duration_nanos(time_between(now, t)) >= self.quiet_period_nanos(),
            None => false,
        }
    }

    /// Length of the quiet period in nanoseconds.
    pub closed spec fn quiet_period_nanos(&self) -> u128 {
        self.quiet_period_nanos
    }

    /// A debouncer with the default 500 ms quiet period and no request.
    pub fn new() -> (r: DebouncedSaver)
        ensures
            !r.pending(),
            r.quiet_period_nanos() == DEFAULT_QUIET_PERIOD_NANOS,
    {
        DebouncedSaver { quiet_period_nanos: DEFAULT_QUIET_PERIOD_NANOS, pending_since: None }
    }

    /// A debouncer with a custom quiet period and no request.
    pub fn with_quiet_period(quiet_period: Duration) -> (r: DebouncedSaver)
        ensures
            !r.pending(),
            r.quiet_period_nanos() == duration_nanos(quiet_period),
    {
        DebouncedSaver { quiet_period_nanos: duration_as_nanos(&quiet_period), pending_since: None }
    }

    /// Record a save request made at the clock reading `now`: the quiet
    /// window restarts at `now`, and an earlier pending request time is
    /// forgotten.
    pub fn request_at(&mut self, now: Instant)
        ensures
            final(self).since() == Some(now),
            final(self).quiet_period_nanos() == old(self).quiet_period_nanos(),
    {
        self.pending_since = Some(now);
    }

    /// Record a save request; the quiet window restarts at the current
    /// clock reading (see `request_at`).
    pub fn request(&mut self)
        ensures
            final(self).pending(),
            final(self).quiet_period_nanos() == old(self).quiet_period_nanos(),
    {
        self.request_at(instant_now());
    }

    /// Whether the pending request has waited out the quiet period, given
    /// the time elapsed since it was made.
    pub fn ready_after(&self, elapsed_nanos: u128) -> (r: bool)
        ensures
            r == (self.pending() && elapsed_nanos >= self.quiet_period_nanos()),
    {
        self.pending_since.is_some() && elapsed_nanos >= self.quiet_period_nanos
    }

    /// Whether the pending request has waited out the quiet period at the
    /// clock reading `now`.
    pub fn ready_at(&self, now: Instant) -> (r: bool)
        ensures
            r == self.ready_at_spec(now),
            r == (self.since() is Some && duration_nanos(time_between(now, self.since().unwrap()))
                >= self.quiet_period_nanos()),
    {
        match &self.pending_since {
            Some(t) => {
                let elapsed = duration_as_nanos(&instant_saturating_since(&now, t));
                self.ready_after(elapsed)
            },
            None => false,
        }
    }

    /// True if a request is pending and the quiet period has elapsed, read
    /// at the current clock reading (see `ready_at`): for some clock reading
    /// `now`, the result is whether a request is pending and the time from
    /// its request to `now` is at least the quiet period.  Whatever the clock
    /// reads, it is never ready without a request, and always ready with one
    /// when the quiet period is zero.
    pub fn is_ready(&self) -> (r: bool)
        ensures
            r ==> self.pending(),
            self.pending() && self.quiet_period_nanos() == 0 ==> r,
            exists|now: Instant|
                r == (self.since() is Some && duration_nanos(
                    #[trigger] time_between(now, self.since().unwrap()),
                ) >= self.quiet_period_nanos()),
    {
        let now = instant_now();
        let r = self.ready_at(now);
        proof {
            let _ = time_between(now, self.since().unwrap());
        }
        r
    }

    /// Drop the pending request (called once the save has been flushed).
    pub fn clear(&mut self)
        ensures
            !final(self).pending(),
            final(self).quiet_period_nanos() == old(self).quiet_period_nanos(),
    {
        self.pending_since = None;
    }

    /// True if a request is pending, whether or not it is ready.
    pub fn has_pending(&self) -> (r: bool)
        ensures
            r == self.pending(),
    {
        self.pending_since.is_some()
    }
}

/// A request restarts the quiet window: once a request is recorded at `t`
/// (as `request_at(t)` leaves the saver), readiness at any clock reading
/// depends on `t` and the quiet period alone, whatever request was pending
/// before.
pub proof fn lemma_request_restarts_window(
    before: DebouncedSaver,
    after: DebouncedSaver,
    t: Instant,
    now: Instant,
)
    requires
        after.since() == Some(t),
        after.quiet_period_nanos() == before.quiet_period_nanos(),
    ensures
        after.ready_at_spec(now) == (duration_nanos(time_between(now, t))
            >= before.quiet_period_nanos()),
{
}

/// Readiness compares the time since the request with the quiet period: a
/// pending request is ready at a clock reading exactly when at least the
/// quiet period has passed since it was made, whatever that period is; with
/// no request pending it is never ready.
pub proof fn lemma_ready_exactly_when_quiet_period_elapsed(d: DebouncedSaver, now: Instant)
    ensures
        d.since() is None ==> !d.ready_at_spec(now),
        d.since() is Some ==> (d.ready_at_spec(now) <==> duration_nanos(
            time_between(now, d.since().unwrap()),
        ) >= d.quiet_period_nanos()),
{
}

impl Default for DebouncedSaver {
    fn default() -> (r: DebouncedSaver)
        ensures
            !r.pending(),
            r.quiet_period_nanos() == DEFAULT_QUIET_PERIOD_NANOS,
    {
        DebouncedSaver::new()
    }
}

} // verus!
