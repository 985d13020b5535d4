use capture_pipeline::settings::{parse_action, plan_change, AppSettings, AutostartChange, PrimaryAction, SettingsChange};

fn settings(shortcut: &str, autostart: bool) -> AppSettings {
    AppSettings { shortcut: shortcut.to_string(), autostart, ..AppSettings::default() }
}

#[test]
fn defaults_are_those_of_a_fresh_installation() {
    let fresh = AppSettings::default();
    assert_eq!(fresh.shortcut, "Alt+Q");
    assert_eq!(fresh.api_key, "");
    assert_eq!(fresh.target_lang, "ZH");
    assert!(!fresh.autostart);
    assert_eq!(fresh.primary_action, "preview");
    assert!(!fresh.preserve_line_breaks);
}

#[test]
fn known_actions_are_read_by_name() {
    assert_eq!(parse_action("extract"), PrimaryAction::Extract);
    assert_eq!(parse_action("extract_translate"), PrimaryAction::ExtractTranslate);
    assert_eq!(parse_action("copy"), PrimaryAction::Copy);
    assert_eq!(parse_action("save"), PrimaryAction::Save);
    assert_eq!(parse_action("preview"), PrimaryAction::Preview);
}

#[test]
fn unknown_actions_mean_preview() {
    assert_eq!(parse_action(""), PrimaryAction::Preview);
    assert_eq!(parse_action("Extract"), PrimaryAction::Preview);
    assert_eq!(parse_action("extract "), PrimaryAction::Preview);
    assert_eq!(parse_action("print"), PrimaryAction::Preview);
}

#[test]
fn settings_know_their_action() {
    let mut s = AppSettings::default();
    assert_eq!(s.action(), PrimaryAction::Preview);
    s.primary_action = "save".to_string();
    assert_eq!(s.action(), PrimaryAction::Save);
}

#[test]
fn snapshot_is_an_equal_copy() {
    let mut s = AppSettings::default();
    s.api_key = "k:fx".to_string();
    s.preserve_line_breaks = true;
    assert_eq!(s.snapshot(), s);
}

#[test]
fn changed_shortcut_is_to_be_rebound() {
    let change = plan_change(&settings("Alt+Q", false), &settings("Ctrl+P", false), false);
    assert_eq!(change, SettingsChange { rebind_shortcut: true, autostart: AutostartChange::Keep });
}

#[test]
fn same_shortcut_is_left_alone() {
    let change = plan_change(&settings("Alt+Q", false), &settings("Alt+Q", false), false);
    assert_eq!(change, SettingsChange { rebind_shortcut: false, autostart: AutostartChange::Keep });
}

#[test]
fn autostart_follows_the_new_settings() {
    let old = settings("Alt+Q", false);
    assert_eq!(plan_change(&old, &settings("Alt+Q", true), false).autostart, AutostartChange::Enable);
    assert_eq!(plan_change(&old, &settings("Alt+Q", true), true).autostart, AutostartChange::Keep);
    assert_eq!(plan_change(&old, &settings("Alt+Q", false), true).autostart, AutostartChange::Disable);
    assert_eq!(plan_change(&old, &settings("Alt+Q", false), false).autostart, AutostartChange::Keep);
}
