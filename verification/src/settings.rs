//! User configuration as the core reads it.

use vstd::prelude::*;
use vstd::string::StringExecFns;

verus! {

/// What is done with a region once it has been captured.
#[derive(Clone, Copy, Debug, PartialEq, Eq, Structural)]
pub enum PrimaryAction {
    /// Recognise the text in the image.
    Extract,
    /// Recognise the text, then translate it.
    ExtractTranslate,
    /// Put the image on the clipboard.
    Copy,
    /// Save the image to the user's desktop.
    Save,
    /// Show the image.
    Preview,
}

/// The action that a configured name stands for. Names that are not known
/// mean `Preview`.
pub open spec fn action_named(name: Seq<char>) -> PrimaryAction {
    if name == "extract"@ {
        PrimaryAction::Extract
    } else if name == "extract_translate"@ {
        PrimaryAction::ExtractTranslate
    } else if name == "copy"@ {
        PrimaryAction::Copy
    } else if name == "save"@ {
        PrimaryAction::Save
    } else {
        PrimaryAction::Preview
    }
}

/// Reads the name of an action.
pub fn parse_action(name: &str) -> (action: PrimaryAction)
    ensures
        action == action_named(name@),
{
    if name.eq("extract") {
        PrimaryAction::Extract
    } else if name.eq("extract_translate") {
        PrimaryAction::ExtractTranslate
    } else if name.eq("copy") {
        PrimaryAction::Copy
    } else if name.eq("save") {
        PrimaryAction::Save
    } else {
        PrimaryAction::Preview
    }
}

/// The options a user can set.
#[derive(Debug, PartialEq, Eq)]
pub struct AppSettings {
    /// Global hotkey that starts a capture.
    pub shortcut: String,
    /// Key for the online translation service.
    pub api_key: String,
    /// Language to translate into.
    pub target_lang: String,
    /// Whether the application starts with the system.
    pub autostart: bool,
    /// Name of the action taken on a captured region.
    pub primary_action: String,
    /// Whether recognised lines stay on lines of their own.
    pub preserve_line_breaks: bool,
}

/// `AppSettings` with its texts as character sequences.
pub struct AppSettingsView {
    pub shortcut: Seq<char>,
    pub api_key: Seq<char>,
    pub target_lang: Seq<char>,
    pub autostart: bool,
    pub primary_action: Seq<char>,
    pub preserve_line_breaks: bool,
}

impl View for AppSettings {
    type V = AppSettingsView;

    open spec fn view(&self) -> AppSettingsView {
        AppSettingsView {
            shortcut: self.shortcut@,
            api_key: self.api_key@,
            target_lang: self.target_lang@,
            autostart: self.autostart,
            primary_action: self.primary_action@,
            preserve_line_breaks: self.preserve_line_breaks,
        }
    }
}

impl AppSettingsView {
    /// The settings of a fresh installation.
    pub open spec fn initial() -> AppSettingsView {
        AppSettingsView {
            shortcut: "Alt+Q"@,
            api_key: ""@,
            target_lang: "ZH"@,
            autostart: false,
            primary_action: "preview"@,
            preserve_line_breaks: false,
        }
    }
}

impl Default for AppSettings {
    fn default() -> (settings: AppSettings)
        ensures
            settings@ == AppSettingsView::initial(),
    {
        AppSettings {
            shortcut: String::from_str("Alt+Q"),
            api_key: String::from_str(""),
            target_lang: String::from_str("ZH"),
            autostart: false,
            primary_action: String::from_str("preview"),
            preserve_line_breaks: false,
        }
    }
}

impl Clone for AppSettings {
    fn clone(&self) -> (copy: AppSettings)
        ensures
            copy@ == self@,
    {
        self.snapshot()
    }
}

impl AppSettings {
    /// An independent copy, as a pipeline run takes it when it starts.
    pub fn snapshot(&self) -> (copy: AppSettings)
        ensures
            copy@ == self@,
    {
        AppSettings {
            shortcut: self.shortcut.clone(),
            api_key: self.api_key.clone(),
            target_lang: self.target_lang.clone(),
            autostart: self.autostart,
            primary_action: self.primary_action.clone(),
            preserve_line_breaks: self.preserve_line_breaks,
        }
    }

    /// The configured action.
    pub fn action(&self) -> (action: PrimaryAction)
        ensures
            action == action_named(self@.primary_action),
    {
        parse_action(self.primary_action.as_str())
    }
}

/// What has to happen to the autostart registration.
#[derive(Clone, Copy, Debug, PartialEq, Eq, Structural)]
pub enum AutostartChange {
    Keep,
    Enable,
    Disable,
}

/// What the system has to be told after the settings were replaced.
#[derive(Clone, Copy, Debug, PartialEq, Eq, Structural)]
pub struct SettingsChange {
    /// The hotkey differs: the old one is to be unregistered and the new one
    /// registered.
    pub rebind_shortcut: bool,
    pub autostart: AutostartChange,
}

/// The follow-up that replacing `old` by `new` calls for, given whether
/// autostart is registered at present.
pub open spec fn change_between(
    old_settings: AppSettingsView,
    new_settings: AppSettingsView,
    autostart_enabled: bool,
) -> SettingsChange {
    SettingsChange {
        rebind_shortcut: old_settings.shortcut != new_settings.shortcut,
        autostart: if new_settings.autostart && !autostart_enabled {
            AutostartChange::Enable
        } else if !new_settings.autostart && autostart_enabled {
            AutostartChange::Disable
        } else {
            AutostartChange::Keep
        },
    }
}

/// Compares the settings in force with their replacement.
pub fn plan_change(old_settings: &AppSettings, new_settings: &AppSettings, autostart_enabled: bool) -> (change:
    SettingsChange)
    ensures
        change == change_between(old_settings@, new_settings@, autostart_enabled),
{
    let rebind = !old_settings.shortcut.as_str().eq(new_settings.shortcut.as_str());
    let autostart = if new_settings.autostart && !autostart_enabled {
        AutostartChange::Enable
    } else if !new_settings.autostart && autostart_enabled {
        AutostartChange::Disable
    } else {
        AutostartChange::Keep
    };
    SettingsChange { rebind_shortcut: rebind, autostart }
}

} // verus!
