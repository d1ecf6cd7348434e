//! Per-protocol settings of a proxy node, with their defaults.
use vstd::prelude::*;

verus! {

/// The views of a list of strings.
pub open spec fn strings_view(v: Seq<String>) -> Seq<Seq<char>> {
    v.map_values(|s: String| s@)
}

/// REALITY settings of a TLS connection.
#[derive(Clone, Debug, PartialEq, Eq)]
pub struct RealityConfig {
    pub public_key: String,
    pub short_id: String,
}

pub struct RealityView {
    pub public_key: Seq<char>,
    pub short_id: Seq<char>,
}

impl View for RealityConfig {
    type V = RealityView;

    open spec fn view(&self) -> RealityView {
        RealityView { public_key: self.public_key@, short_id: self.short_id@ }
    }
}

/// TLS settings of an outbound connection.
#[derive(Clone, Debug, PartialEq, Eq)]
pub struct TlsConfig {
    pub enabled: bool,
    pub server_name: String,
    pub insecure: bool,
    pub alpn: Vec<String>,
    pub reality: Option<RealityConfig>,
}

pub struct TlsView {
    pub enabled: bool,
    pub server_name: Seq<char>,
    pub insecure: bool,
    pub alpn: Seq<Seq<char>>,
    pub reality: Option<RealityView>,
}

impl View for TlsConfig {
    type V = TlsView;

    open spec fn view(&self) -> TlsView {
        TlsView {
            enabled: self.enabled,
            server_name: self.server_name@,
            insecure: self.insecure,
            alpn: strings_view(self.alpn@),
            reality: match self.reality {
                Some(r) => Some(r@),
                None => None,
            },
        }
    }
}

/// The default TLS settings: enabled, no server name, certificate checked,
/// ALPN `h2` then `http/1.1`, no REALITY.
pub open spec fn default_tls_view() -> TlsView {
    TlsView {
        enabled: true,
        server_name: Seq::empty(),
        insecure: false,
        alpn: seq!["h2"@, "http/1.1"@],
        reality: None,
    }
}

impl Default for TlsConfig {
    fn default() -> (res: Self)
        ensures
            res@ == default_tls_view(),
    {
        let mut alpn: Vec<String> = Vec::new();
        alpn.push("h2".to_owned());
        alpn.push("http/1.1".to_owned());
        let res = TlsConfig {
            enabled: default_true(),
            server_name: String::new(),
            insecure: false,
            alpn,
            reality: None,
        };
        assert(res@.alpn =~= default_tls_view().alpn);
        res
    }
}

/// The transport a connection runs over. The WebSocket headers hold each
/// header name at most once (see `TransportConfig::wf`).
#[derive(Clone, Debug, PartialEq, Eq)]
pub enum TransportConfig {
    WebSocket { path: String, headers: Vec<(String, String)> },
    Grpc { service_name: String },
    Http { host: Vec<String>, path: String },
}

impl TransportConfig {
    /// No WebSocket header name occurs twice.
    pub open spec fn wf(self) -> bool {
        match self {
            TransportConfig::WebSocket { headers, .. } => forall|i: int, j: int|
                0 <= i < j < headers@.len() ==> headers@[i].0@ != headers@[j].0@,
            _ => true,
        }
    }
}

/// VLESS settings.
#[derive(Clone, Debug, PartialEq, Eq)]
pub struct VlessConfig {
    pub uuid: String,
    pub flow: String,
    pub tls: TlsConfig,
    pub transport: Option<TransportConfig>,
}

pub struct VlessView {
    pub uuid: Seq<char>,
    pub flow: Seq<char>,
    pub tls: TlsView,
    pub transport: Option<TransportConfig>,
}

impl View for VlessConfig {
    type V = VlessView;

    open spec fn view(&self) -> VlessView {
        VlessView { uuid: self.uuid@, flow: self.flow@, tls: self.tls@, transport: self.transport }
    }
}

/// The flow that a new VLESS node gets.
pub fn default_flow() -> (res: String)
    ensures
        res@ == "xtls-rprx-vision"@,
{
    "xtls-rprx-vision".to_owned()
}

impl Default for VlessConfig {
    fn default() -> (res: Self)
        ensures
            res@ == (VlessView {
                uuid: Seq::empty(),
                flow: "xtls-rprx-vision"@,
                tls: default_tls_view(),
                transport: None,
            }),
    {
        VlessConfig {
            uuid: String::new(),
            flow: default_flow(),
            tls: TlsConfig::default(),
            transport: None,
        }
    }
}

/// VMess settings.
#[derive(Clone, Debug, PartialEq, Eq)]
pub struct VMessConfig {
    pub uuid: String,
    pub alter_id: u16,
    pub security: String,
    pub tls: TlsConfig,
    pub transport: Option<TransportConfig>,
}

pub struct VMessView {
    pub uuid: Seq<char>,
    pub alter_id: u16,
    pub security: Seq<char>,
    pub tls: TlsView,
    pub transport: Option<TransportConfig>,
}

impl View for VMessConfig {
    type V = VMessView;

    open spec fn view(&self) -> VMessView {
        VMessView {
            uuid: self.uuid@,
            alter_id: self.alter_id,
            security: self.security@,
            tls: self.tls@,
            transport: self.transport,
        }
    }
}

/// The VMess security that a node gets by default.
pub fn default_security() -> (res: String)
    ensures
        res@ == "auto"@,
{
    "auto".to_owned()
}

impl Default for VMessConfig {
    fn default() -> (res: Self)
        ensures
            res@ == (VMessView {
                uuid: Seq::empty(),
                alter_id: 0,
                security: "auto"@,
                tls: default_tls_view(),
                transport: None,
            }),
    {
        VMessConfig {
            uuid: String::new(),
            alter_id: 0,
            security: default_security(),
            tls: TlsConfig::default(),
            transport: None,
        }
    }
}

/// Trojan settings.
#[derive(Clone, Debug, PartialEq, Eq)]
pub struct TrojanConfig {
    pub password: String,
    pub tls: TlsConfig,
    pub transport: Option<TransportConfig>,
}

pub struct TrojanView {
    pub password: Seq<char>,
    pub tls: TlsView,
    pub transport: Option<TransportConfig>,
}

impl View for TrojanConfig {
    type V = TrojanView;

    open spec fn view(&self) -> TrojanView {
        TrojanView { password: self.password@, tls: self.tls@, transport: self.transport }
    }
}

impl Default for TrojanConfig {
    fn default() -> (res: Self)
        ensures
            res@ == (TrojanView {
                password: Seq::empty(),
                tls: default_tls_view(),
                transport: None,
            }),
    {
        TrojanConfig { password: String::new(), tls: TlsConfig::default(), transport: None }
    }
}

/// AnyTLS settings.
#[derive(Clone, Debug, PartialEq, Eq)]
pub struct AnyTlsConfig {
    pub password: String,
    pub tls: TlsConfig,
    pub idle_timeout: String,
    pub min_padding_len: u32,
    pub max_padding_len: u32,
}

pub struct AnyTlsView {
    pub password: Seq<char>,
    pub tls: TlsView,
    pub idle_timeout: Seq<char>,
    pub min_padding_len: u32,
    pub max_padding_len: u32,
}

impl View for AnyTlsConfig {
    type V = AnyTlsView;

    open spec fn view(&self) -> AnyTlsView {
        AnyTlsView {
            password: self.password@,
            tls: self.tls@,
            idle_timeout: self.idle_timeout@,
            min_padding_len: self.min_padding_len,
            max_padding_len: self.max_padding_len,
        }
    }
}

/// The AnyTLS idle timeout that a node gets by default.
pub fn default_idle_timeout() -> (res: String)
    ensures
        res@ == "15m"@,
{
    "15m".to_owned()
}

/// The AnyTLS minimum padding length that a node gets by default.
pub fn default_min_padding() -> (res: u32)
    ensures
        res == 0,
{
    0
}

/// The AnyTLS maximum padding length that a node gets by default.
pub fn default_max_padding() -> (res: u32)
    ensures
        res == 0,
{
    0
}

/// The default AnyTLS settings, with password `password` and TLS `tls`.
pub open spec fn anytls_with(password: Seq<char>, tls: TlsView) -> AnyTlsView {
    AnyTlsView {
        password,
        tls,
        idle_timeout: "15m"@,
        min_padding_len: 0,
        max_padding_len: 0,
    }
}

impl Default for AnyTlsConfig {
    fn default() -> (res: Self)
        ensures
            res@ == anytls_with(Seq::empty(), default_tls_view()),
    {
        AnyTlsConfig {
            password: String::new(),
            tls: TlsConfig::default(),
            idle_timeout: default_idle_timeout(),
            min_padding_len: default_min_padding(),
            max_padding_len: default_max_padding(),
        }
    }
}

/// TUIC settings.
#[derive(Clone, Debug, PartialEq, Eq)]
pub struct TuicConfig {
    pub uuid: String,
    pub password: String,
    pub congestion_control: String,
    pub udp_relay_mode: String,
    pub tls: TlsConfig,
    pub zero_rtt_handshake: bool,
    pub heartbeat: String,
}

pub struct TuicView {
    pub uuid: Seq<char>,
    pub password: Seq<char>,
    pub congestion_control: Seq<char>,
    pub udp_relay_mode: Seq<char>,
    pub tls: TlsView,
    pub zero_rtt_handshake: bool,
    pub heartbeat: Seq<char>,
}

impl View for TuicConfig {
    type V = TuicView;

    open spec fn view(&self) -> TuicView {
        TuicView {
            uuid: self.uuid@,
            password: self.password@,
            congestion_control: self.congestion_control@,
            udp_relay_mode: self.udp_relay_mode@,
            tls: self.tls@,
            zero_rtt_handshake: self.zero_rtt_handshake,
            heartbeat: self.heartbeat@,
        }
    }
}

/// The TUIC congestion control that a node gets by default.
pub fn default_congestion() -> (res: String)
    ensures
        res@ == "bbr"@,
{
    "bbr".to_owned()
}

/// The TUIC UDP relay mode that a node gets by default.
pub fn default_udp_relay_mode() -> (res: String)
    ensures
        res@ == "native"@,
{
    "native".to_owned()
}

/// The default TUIC settings, with the given credentials, congestion control
/// and TLS: UDP relay `native`, no 0-RTT, heartbeat `10s`.
pub open spec fn tuic_with(
    uuid: Seq<char>,
    password: Seq<char>,
    congestion_control: Seq<char>,
    tls: TlsView,
) -> TuicView {
    TuicView {
        uuid,
        password,
        congestion_control,
        udp_relay_mode: "native"@,
        tls,
        zero_rtt_handshake: false,
        heartbeat: "10s"@,
    }
}

impl Default for TuicConfig {
    fn default() -> (res: Self)
        ensures
            res@ == tuic_with(Seq::empty(), Seq::empty(), "bbr"@, default_tls_view()),
    {
        TuicConfig {
            uuid: String::new(),
            password: String::new(),
            congestion_control: default_congestion(),
            udp_relay_mode: default_udp_relay_mode(),
            tls: TlsConfig::default(),
            zero_rtt_handshake: false,
            heartbeat: "10s".to_owned(),
        }
    }
}

/// The default of a flag that is on unless a saved file says otherwise.
pub fn default_true() -> (res: bool)
    ensures
        res,
{
    true
}

}
