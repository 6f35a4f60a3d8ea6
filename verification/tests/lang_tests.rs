use hayate_kit_settings::lang::{Lang, Strings};

#[test]
fn lang_from_cli_case_insensitive() {
    assert_eq!(Lang::from_cli(Some("ja")), Some(Lang::Ja));
    assert_eq!(Lang::from_cli(Some("JA")), Some(Lang::Ja));
    assert_eq!(Lang::from_cli(Some("en")), Some(Lang::En));
    assert_eq!(Lang::from_cli(Some("EN")), Some(Lang::En));
    assert_eq!(Lang::from_cli(Some("fr")), None);
    assert_eq!(Lang::from_cli(None), None);
}

#[test]
fn strings_table_complete_for_both_langs() {
    assert!(!Strings::ja().app_title.is_empty());
    assert!(!Strings::en().app_title.is_empty());
    assert!(!Strings::ja().reset_config_done.is_empty());
    assert!(!Strings::en().reset_config_done.is_empty());
}

#[test]
fn lang_strings_dispatch() {
    assert_ne!(Lang::Ja.strings().app_title, Lang::En.strings().app_title);
    assert_ne!(
        Lang::Ja.strings().reset_config_done,
        Lang::En.strings().reset_config_done
    );
}

#[test]
fn lang_from_cli_mixed_case_and_near_misses() {
    assert_eq!(Lang::from_cli(Some("jA")), Some(Lang::Ja));
    assert_eq!(Lang::from_cli(Some("En")), Some(Lang::En));
    assert_eq!(Lang::from_cli(Some("")), None);
    assert_eq!(Lang::from_cli(Some("jap")), None);
    assert_eq!(Lang::from_cli(Some(" ja")), None);
}

#[test]
fn lang_var_prefix_selects_japanese() {
    assert_eq!(Lang::from_lang_var("ja_JP.UTF-8"), Lang::Ja);
    assert_eq!(Lang::from_lang_var("ja"), Lang::Ja);
    assert_eq!(Lang::from_lang_var("en_US.UTF-8"), Lang::En);
    assert_eq!(Lang::from_lang_var("JA_JP"), Lang::En);
    assert_eq!(Lang::from_lang_var("j"), Lang::En);
    assert_eq!(Lang::from_lang_var(""), Lang::En);
}

#[test]
fn strings_dispatch_returns_language_table() {
    assert_eq!(Lang::Ja.strings().section_advanced, "詳細設定");
    assert_eq!(Lang::En.strings().section_advanced, "Advanced");
    assert_eq!(Lang::En.strings().reset_config_done, "Reset config");
}

#[test]
fn lang_resolution_prefers_cli_then_lang_var() {
    assert_eq!(Lang::resolve(Some("EN"), Some("ja_JP.UTF-8")), Lang::En);
    assert_eq!(Lang::resolve(Some("fr"), Some("ja_JP.UTF-8")), Lang::Ja);
    assert_eq!(Lang::resolve(None, Some("ja_JP.UTF-8")), Lang::Ja);
    assert_eq!(Lang::resolve(None, Some("de_DE")), Lang::En);
    assert_eq!(Lang::resolve(None, None), Lang::En);
    assert_eq!(Lang::resolve(Some("ja"), None), Lang::Ja);
}
