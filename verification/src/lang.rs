//! UI languages and their localized string tables.
//!
//! Language resolution: an explicit `--lang ja|en` (case-insensitive) wins;
//! otherwise a `LANG` value starting with `ja` selects Japanese; anything
//! else, or no value at all, selects English.

use vstd::prelude::*;

use crate::text::{eq_ignore_ascii_case, eq_ignore_case};

verus! {

/// Supported UI languages.
#[derive(Debug, Clone, Copy, PartialEq, Eq, Structural)]
pub enum Lang {
    /// Japanese.
    Ja,
    /// English.
    En,
}

/// Localized string table (one field per UI string).
#[derive(Debug, Clone, Copy)]
pub struct Strings {
    pub app_title: &'static str,
    pub app_description: &'static str,
    pub placeholder_text: &'static str,
    pub reset_config_done: &'static str,
    pub reset_config_backup: &'static str,
    pub reset_config_not_found: &'static str,
    pub cli_reset_config_desc: &'static str,
    pub cli_lang_desc: &'static str,
    pub section_general: &'static str,
    pub section_appearance: &'static str,
    pub section_appearance_theme: &'static str,
    pub section_appearance_font: &'static str,
    pub section_appearance_color: &'static str,
    pub section_accessibility: &'static str,
    pub section_ime: &'static str,
    pub section_advanced: &'static str,
    pub section_widgets: &'static str,
}

impl Strings {
    /// The Japanese table.
    pub open spec fn ja_table() -> Strings {
        Strings {
            app_title: "hayate-kit-settings — HAYATE Original プロトタイプ",
            app_description: "GUI_kit framework-native 設定パネル app (新世代 app 第 1 号、HAYATE Original aesthetic + theme switcher)",
            placeholder_text: "HAYATE Original ビジュアル プロトタイプ  /  風藍 accent #5A8BA8",
            reset_config_done: "設定をリセットしました",
            reset_config_backup: "バックアップを保存しました",
            reset_config_not_found: "設定ファイルが存在しません (既に default state)",
            cli_reset_config_desc: "Safe boot モード: 設定ファイルを .bak へ rename + GUI 起動せず exit (= R12 mitigation = bricked state 復旧 path)",
            cli_lang_desc: "UI 言語の指定 (ja | en、デフォルトは LANG 環境変数から検出)",
            section_general: "一般",
            section_appearance: "外観",
            section_appearance_theme: "テーマ",
            section_appearance_font: "フォント",
            section_appearance_color: "カラー",
            section_accessibility: "アクセシビリティ",
            section_ime: "入力メソッド",
            section_advanced: "詳細設定",
            section_widgets: "ウィジェット",
        }
    }

    /// The English table.
    pub open spec fn en_table() -> Strings {
        Strings {
            app_title: "hayate-kit-settings — HAYATE Original prototype",
            app_description: "GUI_kit framework-native settings panel app (新世代 app 第 1 号、HAYATE Original aesthetic + theme switcher)",
            placeholder_text: "HAYATE Original visual prototype  /  風藍 accent #5A8BA8",
            reset_config_done: "Reset config",
            reset_config_backup: "Backup saved",
            reset_config_not_found: "Config not found (already in default state)",
            cli_reset_config_desc: "Safe boot mode: rename config file to .bak and exit without GUI launch (= R12 mitigation = bricked state recovery path)",
            cli_lang_desc: "UI language (ja | en, default detected from LANG env var)",
            section_general: "General",
            section_appearance: "Appearance",
            section_appearance_theme: "Theme",
            section_appearance_font: "Font",
            section_appearance_color: "Color",
            section_accessibility: "Accessibility",
            section_ime: "IME",
            section_advanced: "Advanced",
            section_widgets: "Widgets",
        }
    }

    /// Japanese localized strings.
    pub fn ja() -> (r: Strings)
        ensures
            r == Strings::ja_table(),
    {
        Strings {
            app_title: "hayate-kit-settings — HAYATE Original プロトタイプ",
            app_description: "GUI_kit framework-native 設定パネル app (新世代 app 第 1 号、HAYATE Original aesthetic + theme switcher)",
            placeholder_text: "HAYATE Original ビジュアル プロトタイプ  /  風藍 accent #5A8BA8",
            reset_config_done: "設定をリセットしました",
            reset_config_backup: "バックアップを保存しました",
            reset_config_not_found: "設定ファイルが存在しません (既に default state)",
            cli_reset_config_desc: "Safe boot モード: 設定ファイルを .bak へ rename + GUI 起動せず exit (= R12 mitigation = bricked state 復旧 path)",
            cli_lang_desc: "UI 言語の指定 (ja | en、デフォルトは LANG 環境変数から検出)",
            section_general: "一般",
            section_appearance: "外観",
            section_appearance_theme: "テーマ",
            section_appearance_font: "フォント",
            section_appearance_color: "カラー",
            section_accessibility: "アクセシビリティ",
            section_ime: "入力メソッド",
            section_advanced: "詳細設定",
            section_widgets: "ウィジェット",
        }
    }

    /// English localized strings.
    pub fn en() -> (r: Strings)
        ensures
            r == Strings::en_table(),
    {
        Strings {
            app_title: "hayate-kit-settings — HAYATE Original prototype",
            app_description: "GUI_kit framework-native settings panel app (新世代 app 第 1 号、HAYATE Original aesthetic + theme switcher)",
            placeholder_text: "HAYATE Original visual prototype  /  風藍 accent #5A8BA8",
            reset_config_done: "Reset config",
            reset_config_backup: "Backup saved",
            reset_config_not_found: "Config not found (already in default state)",
            cli_reset_config_desc: "Safe boot mode: rename config file to .bak and exit without GUI launch (= R12 mitigation = bricked state recovery path)",
            cli_lang_desc: "UI language (ja | en, default detected from LANG env var)",
            section_general: "General",
            section_appearance: "Appearance",
            section_appearance_theme: "Theme",
            section_appearance_font: "Font",
            section_appearance_color: "Color",
            section_accessibility: "Accessibility",
            section_ime: "IME",
            section_advanced: "Advanced",
            section_widgets: "Widgets",
        }
    }
}

impl Lang {
    /// The string table of a language.
    pub open spec fn table(self) -> Strings {
        match self {
            Lang::Ja => Strings::ja_table(),
            Lang::En => Strings::en_table(),
        }
    }

    /// Outcome of parsing a `--lang` argument.
    pub open spec fn from_cli_spec(arg: Option<Seq<char>>) -> Option<Lang> {
        match arg {
            Some(s) => if eq_ignore_case(s, "ja"@) {
                Some(Lang::Ja)
            } else if eq_ignore_case(s, "en"@) {
                Some(Lang::En)
            } else {
                None
            },
            None => None,
        }
    }

    /// Language selected by a `LANG` value.
    pub open spec fn from_lang_var_spec(value: Seq<char>) -> Lang {
        if value.len() >= 2 && value[0] == 'j' && value[1] == 'a' {
            Lang::Ja
        } else {
            Lang::En
        }
    }

    /// Resolve the `Strings` table for this language.
    pub fn strings(self) -> (r: Strings)
        ensures
            r == self.table(),
    {
        match self {
            Lang::Ja => Strings::ja(),
            Lang::En => Strings::en(),
        }
    }

    /// Language chosen by a `LANG` value: `Ja` when it starts with `ja`,
    /// `En` otherwise (an unset variable is passed as the empty string).
    pub fn from_lang_var(value: &str) -> (r: Lang)
        ensures
            r == Lang::from_lang_var_spec(value@),
    {
        let n = value.unicode_len();
        if n >= 2 && value.get_char(0) == 'j' && value.get_char(1) == 'a' {
            Lang::Ja
        } else {
            Lang::En
        }
    }

    /// UI language at launch: an explicit `--lang` value that names a
    /// language wins; otherwise the `LANG` value decides (`ja…` → Japanese);
    /// with neither, English.
    pub fn resolve(cli_arg: Option<&str>, lang_var: Option<&str>) -> (r: Lang)
        ensures
            r == match Lang::from_cli_spec(
                match cli_arg {
                    Some(s) => Some(s@),
                    None => None,
                },
            ) {
                Some(l) => l,
                None => match lang_var {
                    Some(v) => Lang::from_lang_var_spec(v@),
                    None => Lang::En,
                },
            },
    {
        match Lang::from_cli(cli_arg) {
            Some(l) => l,
            None => match lang_var {
                Some(v) => Lang::from_lang_var(v),
                None => Lang::En,
            },
        }
    }

    /// Parse a CLI `--lang` argument (`ja` or `en`, ASCII case-insensitive).
    /// An unknown value or no value gives `None`, leaving the choice to
    /// the `LANG` fallback.
    pub fn from_cli(arg: Option<&str>) -> (r: Option<Lang>)
        ensures
            r == Lang::from_cli_spec(
                match arg {
                    Some(s) => Some(s@),
                    None => None,
                },
            ),
    {
        match arg {
            Some(s) => {
                if eq_ignore_ascii_case(s, "ja") {
                    Some(Lang::Ja)
                } else if eq_ignore_ascii_case(s, "en") {
                    Some(Lang::En)
                } else {
                    None
                }
            },
            None => None,
        }
    }
}

/// The two tables differ: each language resolves to its own wording.
pub proof fn lemma_tables_distinct()
    ensures
        Lang::Ja.table().app_title@ != Lang::En.table().app_title@,
        Lang::Ja.table().reset_config_done@ != Lang::En.table().reset_config_done@,
{
    reveal_strlit("hayate-kit-settings — HAYATE Original プロトタイプ");
    reveal_strlit("hayate-kit-settings — HAYATE Original prototype");
    reveal_strlit("設定をリセットしました");
    reveal_strlit("Reset config");
    assert(Lang::Ja.table().app_title@.len() != Lang::En.table().app_title@.len());
    assert(Lang::Ja.table().reset_config_done@.len() != Lang::En.table().reset_config_done@.len());
}

} // verus!
