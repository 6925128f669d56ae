//! Configuration types for the optional foreground-application filter.
//!
//! `ForegroundFileConfig` is what a configuration file may say; `ForegroundConfig`
//! is the fully-resolved runtime form with all defaults applied. Its `Default`
//! keeps the filter off, so an absent `[foreground]` table changes nothing.

use vstd::prelude::*;

use crate::text;

verus! {

/// Which backend resolves the currently focused application.
#[derive(Debug, Clone, Copy, PartialEq, Eq, Structural)]
pub enum ForegroundProviderKind {
    /// Pick the best available provider for the running session.
    Auto,
    /// Never resolve a foreground app (filter effectively inert).
    NoProvider,
    /// Hyprland `.socket2.sock` event stream.
    Hyprland,
    /// Sway / i3 IPC.
    Sway,
    /// GNOME Shell via the bundled extension and its D-Bus service.
    Gnome,
    /// KDE Plasma (`KWin`) via the `kdotool` helper.
    Kde,
    /// An external command that prints the focused app.
    Command,
}

impl Default for ForegroundProviderKind {
    fn default() -> (r: ForegroundProviderKind)
        ensures
            r == ForegroundProviderKind::Auto,
    {
        ForegroundProviderKind::Auto
    }
}

/// How the allow/deny lists are interpreted.
#[derive(Debug, Clone, Copy, PartialEq, Eq, Structural)]
pub enum ForegroundMode {
    /// Autoscroll everywhere except apps in `deny_apps`.
    Denylist,
    /// Autoscroll only in apps in `allow_apps`.
    Allowlist,
}

impl Default for ForegroundMode {
    fn default() -> (r: ForegroundMode)
        ensures
            r == ForegroundMode::Denylist,
    {
        ForegroundMode::Denylist
    }
}

/// What to do when the foreground application cannot be determined.
#[derive(Debug, Clone, Copy, PartialEq, Eq, Structural)]
pub enum UnknownPolicy {
    /// Keep the historical behaviour (autoscroll stays enabled).
    Enabled,
    /// Pass mouse events straight through when the app is unknown.
    Disabled,
}

impl Default for UnknownPolicy {
    fn default() -> (r: UnknownPolicy)
        ensures
            r == UnknownPolicy::Enabled,
    {
        UnknownPolicy::Enabled
    }
}

/// The `[foreground]` table of a configuration file. Every field is optional,
/// so a missing value falls back to the [`ForegroundConfig`] defaults.
#[derive(Debug, Clone)]
pub struct ForegroundFileConfig {
    pub enabled: Option<bool>,
    pub provider: Option<ForegroundProviderKind>,
    pub mode: Option<ForegroundMode>,
    pub unknown_policy: Option<UnknownPolicy>,
    pub allow_apps: Option<Vec<String>>,
    pub deny_apps: Option<Vec<String>>,
    pub match_title: Option<bool>,
    pub command: Option<Vec<String>>,
    pub command_refresh_ms: Option<u64>,
}

/// Fully-resolved foreground filter configuration with all defaults applied.
#[derive(Debug, Clone, PartialEq, Eq)]
pub struct ForegroundConfig {
    pub enabled: bool,
    pub provider: ForegroundProviderKind,
    pub mode: ForegroundMode,
    pub unknown_policy: UnknownPolicy,
    pub allow_apps: Vec<String>,
    pub deny_apps: Vec<String>,
    pub match_title: bool,
    pub command: Vec<String>,
    pub command_refresh_ms: u64,
}

/// The mathematical content of a [`ForegroundConfig`].
pub struct ForegroundSettings {
    pub enabled: bool,
    pub provider: ForegroundProviderKind,
    pub mode: ForegroundMode,
    pub unknown_policy: UnknownPolicy,
    pub allow_apps: Seq<Seq<char>>,
    pub deny_apps: Seq<Seq<char>>,
    pub match_title: bool,
    pub command: Seq<Seq<char>>,
    pub command_refresh_ms: u64,
}

impl ForegroundSettings {
    /// The settings that apply where nothing is configured.
    pub open spec fn defaults() -> ForegroundSettings {
        ForegroundSettings {
            enabled: false,
            provider: ForegroundProviderKind::Auto,
            mode: ForegroundMode::Denylist,
            unknown_policy: UnknownPolicy::Enabled,
            allow_apps: seq![],
            deny_apps: seq![],
            match_title: false,
            command: seq![],
            command_refresh_ms: 500,
        }
    }
}

impl View for ForegroundConfig {
    type V = ForegroundSettings;

    open spec fn view(&self) -> ForegroundSettings {
        ForegroundSettings {
            enabled: self.enabled,
            provider: self.provider,
            mode: self.mode,
            unknown_policy: self.unknown_policy,
            allow_apps: text::texts(self.allow_apps@),
            deny_apps: text::texts(self.deny_apps@),
            match_title: self.match_title,
            command: text::texts(self.command@),
            command_refresh_ms: self.command_refresh_ms,
        }
    }
}

/// The configured value, or else the default.
pub open spec fn or_default<T>(value: Option<T>, default: T) -> T {
    match value {
        Some(value) => value,
        None => default,
    }
}

/// The configured texts, or else none.
pub open spec fn texts_or_none(value: Option<Vec<String>>) -> Seq<Seq<char>> {
    match value {
        Some(value) => text::texts(value@),
        None => seq![],
    }
}

impl Default for ForegroundConfig {
    fn default() -> (r: ForegroundConfig)
        ensures
            r@ == ForegroundSettings::defaults(),
    {
        let r: ForegroundConfig = ForegroundConfig {
            enabled: false,
            provider: ForegroundProviderKind::Auto,
            mode: ForegroundMode::Denylist,
            unknown_policy: UnknownPolicy::Enabled,
            allow_apps: Vec::new(),
            deny_apps: Vec::new(),
            match_title: false,
            command: Vec::new(),
            command_refresh_ms: 500,
        };
        assert(text::texts(Seq::empty()) =~= seq![]);
        r
    }
}

impl Default for ForegroundFileConfig {
    fn default() -> (r: ForegroundFileConfig)
        ensures
            r == (ForegroundFileConfig {
                enabled: None,
                provider: None,
                mode: None,
                unknown_policy: None,
                allow_apps: None,
                deny_apps: None,
                match_title: None,
                command: None,
                command_refresh_ms: None,
            }),
    {
        ForegroundFileConfig {
            enabled: None,
            provider: None,
            mode: None,
            unknown_policy: None,
            allow_apps: None,
            deny_apps: None,
            match_title: None,
            command: None,
            command_refresh_ms: None,
        }
    }
}

impl ForegroundFileConfig {
    /// The file's values on top of the built-in defaults.
    pub open spec fn resolved(self) -> ForegroundSettings {
        let d = ForegroundSettings::defaults();
        ForegroundSettings {
            enabled: or_default(self.enabled, d.enabled),
            provider: or_default(self.provider, d.provider),
            mode: or_default(self.mode, d.mode),
            unknown_policy: or_default(self.unknown_policy, d.unknown_policy),
            allow_apps: texts_or_none(self.allow_apps),
            deny_apps: texts_or_none(self.deny_apps),
            match_title: or_default(self.match_title, d.match_title),
            command: texts_or_none(self.command),
            command_refresh_ms: or_default(self.command_refresh_ms, d.command_refresh_ms),
        }
    }

    /// Applies the parsed file values on top of the built-in defaults.
    #[must_use]
    pub fn into_resolved(self) -> (r: ForegroundConfig)
        ensures
            r@ == self.resolved(),
    {
        let d: ForegroundConfig = ForegroundConfig::default();
        ForegroundConfig {
            enabled: self.enabled.unwrap_or(d.enabled),
            provider: self.provider.unwrap_or(d.provider),
            mode: self.mode.unwrap_or(d.mode),
            unknown_policy: self.unknown_policy.unwrap_or(d.unknown_policy),
            allow_apps: self.allow_apps.unwrap_or(d.allow_apps),
            deny_apps: self.deny_apps.unwrap_or(d.deny_apps),
            match_title: self.match_title.unwrap_or(d.match_title),
            command: self.command.unwrap_or(d.command),
            command_refresh_ms: self.command_refresh_ms.unwrap_or(d.command_refresh_ms),
        }
    }
}

/// An empty `[foreground]` table changes nothing.
pub proof fn law_empty_table_is_default(file: ForegroundFileConfig)
    requires
        file == (ForegroundFileConfig {
            enabled: None,
            provider: None,
            mode: None,
            unknown_policy: None,
            allow_apps: None,
            deny_apps: None,
            match_title: None,
            command: None,
            command_refresh_ms: None,
        }),
    ensures
        file.resolved() == ForegroundSettings::defaults(),
{
}

/// Every setting of a `[foreground]` table reaches the field of its name and no
/// other, and a setting that is not there has its default: the filter is off,
/// the provider is found out, the deny list counts, autoscroll stays on where
/// the application is not known, the lists and the command are empty, titles do
/// not count, and the command is run every 500 ms.
pub proof fn law_table_reaches_its_fields(file: ForegroundFileConfig)
    ensures
        file.enabled matches Some(v) ==> file.resolved().enabled == v,
        file.provider matches Some(v) ==> file.resolved().provider == v,
        file.mode matches Some(v) ==> file.resolved().mode == v,
        file.unknown_policy matches Some(v) ==> file.resolved().unknown_policy == v,
        file.match_title matches Some(v) ==> file.resolved().match_title == v,
        file.command_refresh_ms matches Some(v) ==> file.resolved().command_refresh_ms == v,
        file.allow_apps matches Some(v) ==> file.resolved().allow_apps == text::texts(v@),
        file.deny_apps matches Some(v) ==> file.resolved().deny_apps == text::texts(v@),
        file.command matches Some(v) ==> file.resolved().command == text::texts(v@),
        file.enabled is None ==> !file.resolved().enabled,
        file.provider is None ==> file.resolved().provider == ForegroundProviderKind::Auto,
        file.mode is None ==> file.resolved().mode == ForegroundMode::Denylist,
        file.unknown_policy is None ==> file.resolved().unknown_policy == UnknownPolicy::Enabled,
        file.match_title is None ==> !file.resolved().match_title,
        file.command_refresh_ms is None ==> file.resolved().command_refresh_ms == 500,
        file.allow_apps is None ==> file.resolved().allow_apps.len() == 0,
        file.deny_apps is None ==> file.resolved().deny_apps.len() == 0,
        file.command is None ==> file.resolved().command.len() == 0,
{
}

/// The content of a configuration is that of its fields, each by its own name.
pub proof fn law_settings_show_their_fields(cfg: ForegroundConfig)
    ensures
        cfg@.enabled == cfg.enabled,
        cfg@.provider == cfg.provider,
        cfg@.mode == cfg.mode,
        cfg@.unknown_policy == cfg.unknown_policy,
        cfg@.match_title == cfg.match_title,
        cfg@.command_refresh_ms == cfg.command_refresh_ms,
        cfg@.allow_apps.len() == cfg.allow_apps@.len(),
        forall|i: int| 0 <= i < cfg.allow_apps@.len() ==> (#[trigger] cfg@.allow_apps[i]) == cfg.allow_apps@[i]@,
        cfg@.deny_apps.len() == cfg.deny_apps@.len(),
        forall|i: int| 0 <= i < cfg.deny_apps@.len() ==> (#[trigger] cfg@.deny_apps[i]) == cfg.deny_apps@[i]@,
        cfg@.command.len() == cfg.command@.len(),
        forall|i: int| 0 <= i < cfg.command@.len() ==> (#[trigger] cfg@.command[i]) == cfg.command@[i]@,
{
}

} // verus!
