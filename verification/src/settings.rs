//! Application settings: theme, proxy mode, ports and log level.
use vstd::prelude::*;

verus! {

/// Light or dark appearance.
#[derive(Clone, Copy, Debug, PartialEq, Eq)]
pub enum ThemeKind {
    Light,
    Dark,
}

/// The other appearance.
pub open spec fn toggled_spec(k: ThemeKind) -> ThemeKind {
    match k {
        ThemeKind::Light => ThemeKind::Dark,
        ThemeKind::Dark => ThemeKind::Light,
    }
}

/// Toggling the appearance twice gives it back, and toggling always changes it.
pub proof fn lemma_toggle_involution(k: ThemeKind)
    ensures
        toggled_spec(toggled_spec(k)) == k,
        toggled_spec(k) != k,
{
}

impl ThemeKind {
    /// The other appearance (what the theme toggle switches to).
    pub fn toggled(self) -> (res: ThemeKind)
        ensures
            res == toggled_spec(self),
    {
        match self {
            ThemeKind::Light => ThemeKind::Dark,
            ThemeKind::Dark => ThemeKind::Light,
        }
    }
}

/// How traffic is routed: by rules, all through the proxy, or all direct.
#[derive(Clone, Copy, Debug, PartialEq, Eq)]
pub enum ProxyMode {
    Rule,
    Global,
    Direct,
}

/// The label shown for a proxy mode.
pub open spec fn mode_label_spec(m: ProxyMode) -> Seq<char> {
    match m {
        ProxyMode::Rule => "Rule"@,
        ProxyMode::Global => "Global"@,
        ProxyMode::Direct => "Direct"@,
    }
}

impl ProxyMode {
    /// The label shown for this mode.
    pub fn label(&self) -> (res: &'static str)
        ensures
            res@ == mode_label_spec(*self),
    {
        match self {
            ProxyMode::Rule => "Rule",
            ProxyMode::Global => "Global",
            ProxyMode::Direct => "Direct",
        }
    }
}

/// How much of the UI's own log is written.
#[derive(Clone, Copy, Debug, PartialEq, Eq, Structural)]
pub enum UiLogLevel {
    Off,
    Error,
    Info,
    Debug,
}

/// The label shown for a UI log level.
pub open spec fn ui_level_label_spec(l: UiLogLevel) -> Seq<char> {
    match l {
        UiLogLevel::Off => "None"@,
        UiLogLevel::Error => "Error"@,
        UiLogLevel::Info => "Info"@,
        UiLogLevel::Debug => "Debug"@,
    }
}

impl UiLogLevel {
    /// The label shown for this level.
    pub fn label(&self) -> (res: &'static str)
        ensures
            res@ == ui_level_label_spec(*self),
    {
        match self {
            UiLogLevel::Off => "None",
            UiLogLevel::Error => "Error",
            UiLogLevel::Info => "Info",
            UiLogLevel::Debug => "Debug",
        }
    }

    /// Every level, from quietest to most verbose.
    pub fn all() -> (res: Vec<UiLogLevel>)
        ensures
            res@ == seq![UiLogLevel::Off, UiLogLevel::Error, UiLogLevel::Info, UiLogLevel::Debug],
    {
        let mut v: Vec<UiLogLevel> = Vec::new();
        v.push(UiLogLevel::Off);
        v.push(UiLogLevel::Error);
        v.push(UiLogLevel::Info);
        v.push(UiLogLevel::Debug);
        assert(v@ =~= seq![UiLogLevel::Off, UiLogLevel::Error, UiLogLevel::Info, UiLogLevel::Debug]);
        v
    }
}

/// The level of a log record (the levels of the `log` crate).
#[derive(Clone, Copy, Debug, PartialEq, Eq)]
pub enum LogLevel {
    Error,
    Warn,
    Info,
    Debug,
    Trace,
}

/// Whether a record of level `target` is written under UI log level `level`.
pub open spec fn level_enabled_spec(level: UiLogLevel, target: LogLevel) -> bool {
    match level {
        UiLogLevel::Off => false,
        UiLogLevel::Error => target == LogLevel::Error,
        UiLogLevel::Info => target == LogLevel::Error || target == LogLevel::Warn || target
            == LogLevel::Info,
        UiLogLevel::Debug => true,
    }
}

/// The verbosity of a UI log level: `Off` < `Error` < `Info` < `Debug`.
pub open spec fn ui_level_rank(l: UiLogLevel) -> nat {
    match l {
        UiLogLevel::Off => 0,
        UiLogLevel::Error => 1,
        UiLogLevel::Info => 2,
        UiLogLevel::Debug => 3,
    }
}

/// A record written at some UI log level is written at every more verbose
/// level too.
pub proof fn lemma_level_enabled_monotone(low: UiLogLevel, high: UiLogLevel, target: LogLevel)
    requires
        ui_level_rank(low) <= ui_level_rank(high),
        level_enabled_spec(low, target),
    ensures
        level_enabled_spec(high, target),
{
}

/// Whether a record of level `target` is written under UI log level `level`.
pub fn level_enabled(level: UiLogLevel, target: LogLevel) -> (res: bool)
    ensures
        res == level_enabled_spec(level, target),
{
    match level {
        UiLogLevel::Off => false,
        UiLogLevel::Error => match target {
            LogLevel::Error => true,
            _ => false,
        },
        UiLogLevel::Info => match target {
            LogLevel::Error | LogLevel::Warn | LogLevel::Info => true,
            _ => false,
        },
        UiLogLevel::Debug => true,
    }
}

/// The settings of the application.
#[derive(Clone, Debug, PartialEq, Eq)]
pub struct AppSettings {
    pub theme: ThemeKind,
    pub color_theme: String,
    pub proxy_mode: ProxyMode,
    pub auto_start: bool,
    pub clash_api_port: u16,
    pub mixed_port: u16,
    pub active_node_id: Option<u128>,
    pub system_proxy: bool,
    pub ui_log_level: UiLogLevel,
}

/// The appearance used when the settings file does not say.
pub fn default_dark() -> (res: ThemeKind)
    ensures
        res == ThemeKind::Dark,
{
    ThemeKind::Dark
}

/// The color theme used when the settings file does not say.
pub fn default_color_theme() -> (res: String)
    ensures
        res@ == "Default Dark"@,
{
    "Default Dark".to_owned()
}

/// The proxy mode used when the settings file does not say.
pub fn default_rule() -> (res: ProxyMode)
    ensures
        res == ProxyMode::Rule,
{
    ProxyMode::Rule
}

/// The Clash API port used when the settings file does not say.
pub fn default_clash_api_port() -> (res: u16)
    ensures
        res == 9090,
{
    9090
}

/// The mixed proxy port used when the settings file does not say.
pub fn default_mixed_port() -> (res: u16)
    ensures
        res == 7890,
{
    7890
}

/// The UI log level used when the settings file does not say.
pub fn default_ui_log_level() -> (res: UiLogLevel)
    ensures
        res == UiLogLevel::Info,
{
    UiLogLevel::Info
}

impl Default for AppSettings {
    fn default() -> (res: Self)
        ensures
            res.theme == ThemeKind::Dark,
            res.color_theme@ == "Default Dark"@,
            res.proxy_mode == ProxyMode::Rule,
            !res.auto_start,
            res.clash_api_port == 9090,
            res.mixed_port == 7890,
            res.active_node_id is None,
            !res.system_proxy,
            res.ui_log_level == UiLogLevel::Info,
    {
        AppSettings {
            theme: default_dark(),
            color_theme: default_color_theme(),
            proxy_mode: default_rule(),
            auto_start: false,
            clash_api_port: default_clash_api_port(),
            mixed_port: default_mixed_port(),
            active_node_id: None,
            system_proxy: false,
            ui_log_level: default_ui_log_level(),
        }
    }
}

}
