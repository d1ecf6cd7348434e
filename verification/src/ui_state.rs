//! What the window shows, as plain values: the settings tabs, the rows of the
//! sidebar, the texts of the status bar and the log-level choices.
use vstd::prelude::*;
use vstd::string::StringExecFns;
use crate::app_state::AppState;
use crate::node::{host_port_spec, protocol_label_spec, NodeView};
use crate::settings::{ui_level_label_spec, ProxyMode, UiLogLevel};
use crate::subscription::SubscriptionView;
use crate::text::{dec_spec, u64_to_string};

verus! {

/// The pages of the settings view.
#[derive(Clone, Copy, Debug, PartialEq, Eq)]
pub enum SettingsTab {
    Appearance,
    Proxy,
    Core,
    Tun,
    Log,
    About,
}

/// The title of a settings page.
pub open spec fn settings_tab_label_spec(t: SettingsTab) -> Seq<char> {
    match t {
        SettingsTab::Appearance => "外观设置"@,
        SettingsTab::Proxy => "代理设置"@,
        SettingsTab::Core => "核心设置"@,
        SettingsTab::Tun => "TUN 设置"@,
        SettingsTab::Log => "日志设置"@,
        SettingsTab::About => "关于"@,
    }
}

impl SettingsTab {
    /// The title of this page.
    pub fn label(self) -> (res: &'static str)
        ensures
            res@ == settings_tab_label_spec(self),
    {
        match self {
            SettingsTab::Appearance => "外观设置",
            SettingsTab::Proxy => "代理设置",
            SettingsTab::Core => "核心设置",
            SettingsTab::Tun => "TUN 设置",
            SettingsTab::Log => "日志设置",
            SettingsTab::About => "关于",
        }
    }

    /// Every page, in the order of the navigation.
    pub fn all() -> (res: Vec<SettingsTab>)
        ensures
            res@ == seq![
                SettingsTab::Appearance,
                SettingsTab::Proxy,
                SettingsTab::Core,
                SettingsTab::Tun,
                SettingsTab::Log,
                SettingsTab::About,
            ],
    {
        let mut v: Vec<SettingsTab> = Vec::new();
        v.push(SettingsTab::Appearance);
        v.push(SettingsTab::Proxy);
        v.push(SettingsTab::Core);
        v.push(SettingsTab::Tun);
        v.push(SettingsTab::Log);
        v.push(SettingsTab::About);
        assert(v@ =~= seq![
            SettingsTab::Appearance,
            SettingsTab::Proxy,
            SettingsTab::Core,
            SettingsTab::Tun,
            SettingsTab::Log,
            SettingsTab::About,
        ]);
        v
    }
}

impl Default for SettingsTab {
    /// The appearance page.
    fn default() -> (res: Self)
        ensures
            res == SettingsTab::Appearance,
    {
        SettingsTab::Appearance
    }
}

/// The two lists of the sidebar.
#[derive(Clone, Copy, Debug, PartialEq, Eq)]
pub enum SidebarTab {
    Nodes,
    Subscriptions,
}

/// What the main panel shows.
#[derive(Clone, Debug, PartialEq, Eq)]
pub enum PanelContent {
    Welcome,
    NodeDetail { name: String, protocol: String },
    Settings,
    Logs,
}

/// The row of a node in the sidebar: its name, and its protocol and address.
pub open spec fn node_row_spec(n: NodeView) -> (Seq<char>, Seq<char>) {
    (n.name, protocol_label_spec(n.protocol) + " · "@ + host_port_spec(n.server, n.port as nat))
}

/// The row of a subscription in the sidebar: its name and how many nodes it has.
pub open spec fn subscription_row_spec(s: SubscriptionView) -> (Seq<char>, Seq<char>) {
    (s.name, dec_spec(s.nodes.len()) + " nodes"@)
}

/// The views of a list of rows.
pub open spec fn rows_view(rows: Seq<(String, String)>) -> Seq<(Seq<char>, Seq<char>)> {
    rows.map_values(|r: (String, String)| (r.0@, r.1@))
}

/// The rows the sidebar lists for the tab `tab`.
pub open spec fn sidebar_rows_spec(state: &AppState, tab: SidebarTab) -> Seq<(Seq<char>, Seq<char>)> {
    match tab {
        SidebarTab::Nodes => state.nodes@.map_values(|n: crate::node::ProxyNode| node_row_spec(n@)),
        SidebarTab::Subscriptions => state.subscriptions@.map_values(
            |s: crate::subscription::Subscription| subscription_row_spec(s@),
        ),
    }
}

/// The rows (name, detail) that the sidebar lists for `tab`: one per manual
/// node, or one per subscription, in order.
pub fn sidebar_items(state: &AppState, tab: SidebarTab) -> (res: Vec<(String, String)>)
    ensures
        rows_view(res@) == sidebar_rows_spec(state, tab),
{
    let mut rows: Vec<(String, String)> = Vec::new();
    match tab {
        SidebarTab::Nodes => {
            let mut i: usize = 0;
            while i < state.nodes.len()
                invariant
                    i <= state.nodes@.len(),
                    rows@.len() == i,
                    forall|j: int| 0 <= j < i ==> (#[trigger] rows@[j].0)@ == node_row_spec(state.nodes@[j]@).0
                        && rows@[j].1@ == node_row_spec(state.nodes@[j]@).1,
                decreases state.nodes@.len() - i,
            {
                let n = &state.nodes[i];
                let mut detail = n.protocol_label().to_owned();
                detail.append(" · ");
                let addr = n.display_address();
                detail.append(addr.as_str());
                rows.push((n.name.clone(), detail));
                i = i + 1;
            }
        },
        SidebarTab::Subscriptions => {
            let mut i: usize = 0;
            while i < state.subscriptions.len()
                invariant
                    i <= state.subscriptions@.len(),
                    rows@.len() == i,
                    forall|j: int| 0 <= j < i ==> (#[trigger] rows@[j].0)@ == subscription_row_spec(state.subscriptions@[j]@).0
                        && rows@[j].1@ == subscription_row_spec(state.subscriptions@[j]@).1,
                decreases state.subscriptions@.len() - i,
            {
                let s = &state.subscriptions[i];
                let count = s.node_count();
                let mut detail = u64_to_string(count as u64);
                detail.append(" nodes");
                rows.push((s.name.clone(), detail));
                i = i + 1;
            }
        },
    }
    assert(rows_view(rows@) =~= sidebar_rows_spec(state, tab));
    rows
}

/// One choice of the UI log level, and whether it is the current one.
#[derive(Clone, Copy, Debug, PartialEq, Eq)]
pub struct LogLevelOption {
    level: UiLogLevel,
    is_active: bool,
}

impl LogLevelOption {
    /// The choice of `level`.
    pub fn new(level: UiLogLevel, is_active: bool) -> (res: Self)
        ensures
            res.level() == level,
            res.is_active() == is_active,
    {
        LogLevelOption { level, is_active }
    }

    /// The level of this choice.
    pub closed spec fn level(self) -> UiLogLevel {
        self.level
    }

    /// Whether this choice is the current level.
    pub closed spec fn is_active(self) -> bool {
        self.is_active
    }

    /// The title shown for this choice: the level's label.
    pub fn title(&self) -> (res: &'static str)
        ensures
            res@ == ui_level_label_spec(self.level()),
    {
        self.level.label()
    }

    /// The level chosen.
    pub fn value(&self) -> (res: UiLogLevel)
        ensures
            res == self.level(),
    {
        self.level
    }

    /// Whether this choice is the current level.
    pub fn active(&self) -> (res: bool)
        ensures
            res == self.is_active(),
    {
        self.is_active
    }
}

/// The choices of the UI log level, every level in order, the one equal to
/// `active` marked as current.
pub fn build_log_level_options(active: UiLogLevel) -> (res: Vec<LogLevelOption>)
    ensures
        res@.len() == 4,
        forall|i: int| 0 <= i < 4 ==> (#[trigger] res@[i]).level() == seq![
            UiLogLevel::Off,
            UiLogLevel::Error,
            UiLogLevel::Info,
            UiLogLevel::Debug,
        ][i] && res@[i].is_active() == (res@[i].level() == active),
{
    let all = UiLogLevel::all();
    let mut res: Vec<LogLevelOption> = Vec::new();
    let mut i: usize = 0;
    while i < all.len()
        invariant
            i <= all@.len(),
            all@ == seq![UiLogLevel::Off, UiLogLevel::Error, UiLogLevel::Info, UiLogLevel::Debug],
            res@.len() == i,
            forall|j: int| 0 <= j < i ==> (#[trigger] res@[j]).level() == all@[j] && res@[j].is_active() == (all@[j] == active),
        decreases all@.len() - i,
    {
        let level = all[i];
        res.push(LogLevelOption::new(level, level == active));
        i = i + 1;
    }
    res
}

/// The state of the status bar.
pub struct StatusBar {
    pub active_node: Option<String>,
    pub active_protocol: Option<String>,
    pub proxy_mode: ProxyMode,
    pub upload_speed: String,
    pub download_speed: String,
    pub connected: bool,
}

/// The view of an optional string.
pub open spec fn opt_string_view(s: Option<String>) -> Option<Seq<char>> {
    match s {
        Some(v) => Some(v@),
        None => None,
    }
}

impl StatusBar {
    /// Not connected, no active node, rule mode, no traffic.
    pub fn new() -> (res: Self)
        ensures
            res.active_node is None,
            res.active_protocol is None,
            res.proxy_mode == ProxyMode::Rule,
            res.upload_speed@ == "0 B/s"@,
            res.download_speed@ == "0 B/s"@,
            !res.connected,
    {
        StatusBar {
            active_node: None,
            active_protocol: None,
            proxy_mode: ProxyMode::Rule,
            upload_speed: "0 B/s".to_owned(),
            download_speed: "0 B/s".to_owned(),
            connected: false,
        }
    }

    /// The name of the active node, or `"No active node"`.
    pub fn node_text(&self) -> (res: String)
        ensures
            res@ == (match opt_string_view(self.active_node) {
                Some(n) => n,
                None => "No active node"@,
            }),
    {
        match &self.active_node {
            Some(n) => n.clone(),
            None => "No active node".to_owned(),
        }
    }

    /// `"↑ "` and the upload speed.
    pub fn upload_text(&self) -> (res: String)
        ensures
            res@ == "↑ "@ + self.upload_speed@,
    {
        let mut s = "↑ ".to_owned();
        s.append(self.upload_speed.as_str());
        s
    }

    /// `"↓ "` and the download speed.
    pub fn download_text(&self) -> (res: String)
        ensures
            res@ == "↓ "@ + self.download_speed@,
    {
        let mut s = "↓ ".to_owned();
        s.append(self.download_speed.as_str());
        s
    }
}

}
