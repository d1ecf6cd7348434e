//! Nodes entered by hand in the "new node" form, and import messages.
use vstd::prelude::*;
use vstd::string::StringExecFns;
use crate::import::ImportResult;
use crate::node::{
    fresh_node, is_v4_uuid, NodeSource, NodeView, ProtocolView, ProxyNode, ProxyProtocol,
};
use crate::protocol::{
    anytls_with, default_tls_view, AnyTlsConfig, TlsConfig, TlsView, TrojanConfig, TrojanView,
    VMessConfig, VMessView, VlessConfig, VlessView,
};
use crate::text::{all_digits, chars_of, dec_spec, is_digit, parse_uint, parse_uint_spec, trim, trim_spec, u64_to_string};
use crate::doc::unwrap_or;

verus! {

/// The protocols the "new node" form offers.
#[derive(Clone, Copy, Debug, PartialEq, Eq)]
pub enum NewNodeProtocol {
    Vless,
    Vmess,
    AnyTls,
    Trojan,
}

impl NewNodeProtocol {
    /// The title of the form.
    pub fn title(self) -> (res: &'static str)
        ensures
            res@ == (match self {
                NewNodeProtocol::Vless => "新建 VLESS 节点"@,
                NewNodeProtocol::Vmess => "新建 VMess 节点"@,
                NewNodeProtocol::AnyTls => "新建 AnyTLS 节点"@,
                NewNodeProtocol::Trojan => "新建 Trojan 节点"@,
            }),
    {
        match self {
            NewNodeProtocol::Vless => "新建 VLESS 节点",
            NewNodeProtocol::Vmess => "新建 VMess 节点",
            NewNodeProtocol::AnyTls => "新建 AnyTLS 节点",
            NewNodeProtocol::Trojan => "新建 Trojan 节点",
        }
    }

    /// The label of the credential field: a UUID or a password.
    pub fn secret_label(self) -> (res: &'static str)
        ensures
            res@ == (match self {
                NewNodeProtocol::Vless | NewNodeProtocol::Vmess => "UUID"@,
                NewNodeProtocol::AnyTls | NewNodeProtocol::Trojan => "密码"@,
            }),
    {
        match self {
            NewNodeProtocol::Vless | NewNodeProtocol::Vmess => "UUID",
            NewNodeProtocol::AnyTls | NewNodeProtocol::Trojan => "密码",
        }
    }

    /// The label of the optional field: the SNI, or the VMess alter id.
    pub fn extra_label(self) -> (res: &'static str)
        ensures
            res@ == (match self {
                NewNodeProtocol::Vmess => "Alter ID（可选）"@,
                _ => "SNI（可选）"@,
            }),
    {
        match self {
            NewNodeProtocol::Vless => "SNI（可选）",
            NewNodeProtocol::Vmess => "Alter ID（可选）",
            NewNodeProtocol::AnyTls | NewNodeProtocol::Trojan => "SNI（可选）",
        }
    }

    /// The placeholder of the optional field.
    pub fn extra_placeholder(self) -> (res: &'static str)
        ensures
            res@ == (match self {
                NewNodeProtocol::Vmess => "0"@,
                _ => "留空则使用服务器地址"@,
            }),
    {
        match self {
            NewNodeProtocol::Vless => "留空则使用服务器地址",
            NewNodeProtocol::Vmess => "0",
            NewNodeProtocol::AnyTls | NewNodeProtocol::Trojan => "留空则使用服务器地址",
        }
    }
}

/// `s` could be a server name: not empty and not only ASCII digits.
pub open spec fn looks_like_sni_spec(s: Seq<char>) -> bool {
    s.len() > 0 && !all_digits(s)
}

/// Whether `s` could be a server name rather than a number.
pub fn looks_like_sni(s: &str) -> (res: bool)
    ensures
        res == looks_like_sni_spec(s@),
{
    let cs = chars_of(s);
    if cs.len() == 0 {
        return false;
    }
    let mut i: usize = 0;
    while i < cs.len()
        invariant
            i <= cs@.len(),
            cs@ == s@,
            forall|j: int| 0 <= j < i ==> is_digit(#[trigger] cs@[j]),
        decreases cs@.len() - i,
    {
        let c = cs[i];
        if !('0' <= c && c <= '9') {
            assert(!is_digit(cs@[i as int]));
            return true;
        }
        i += 1;
    }
    false
}

/// The protocol settings of a node entered by hand.
pub open spec fn form_protocol(p: NewNodeProtocol, secret: Seq<char>, extra: Seq<char>, tls: TlsView) -> ProtocolView {
    match p {
        NewNodeProtocol::Vless => ProtocolView::Vless(
            VlessView { uuid: secret, flow: "xtls-rprx-vision"@, tls, transport: None },
        ),
        NewNodeProtocol::Vmess => ProtocolView::Vmess(
            VMessView {
                uuid: secret,
                alter_id: unwrap_or(parse_uint_spec(extra, 65535), 0) as u16,
                security: "auto"@,
                tls,
                transport: None,
            },
        ),
        NewNodeProtocol::AnyTls => ProtocolView::AnyTls(anytls_with(secret, tls)),
        NewNodeProtocol::Trojan => ProtocolView::Trojan(
            TrojanView { password: secret, tls, transport: None },
        ),
    }
}

/// The protocol settings of a node entered by hand.
pub fn build_protocol(protocol: NewNodeProtocol, secret: &str, extra: &str, tls: TlsConfig) -> (res: ProxyProtocol)
    ensures
        res@ == form_protocol(protocol, secret@, extra@, tls@),
{
    match protocol {
        NewNodeProtocol::Vless => ProxyProtocol::Vless(VlessConfig {
            uuid: secret.to_owned(),
            flow: "xtls-rprx-vision".to_owned(),
            tls,
            transport: None,
        }),
        NewNodeProtocol::Vmess => {
            let cs = chars_of(extra);
            let alter_id = match parse_uint(cs.as_slice(), 65535) {
                Some(n) => n as u16,
                None => 0,
            };
            ProxyProtocol::Vmess(VMessConfig {
                uuid: secret.to_owned(),
                alter_id,
                security: "auto".to_owned(),
                tls,
                transport: None,
            })
        },
        NewNodeProtocol::AnyTls => {
            let d = AnyTlsConfig::default();
            ProxyProtocol::AnyTls(AnyTlsConfig { password: secret.to_owned(), tls, ..d })
        },
        NewNodeProtocol::Trojan => ProxyProtocol::Trojan(TrojanConfig {
            password: secret.to_owned(),
            tls,
            transport: None,
        }),
    }
}

/// Why the "new node" form was refused.
#[derive(Clone, Copy, Debug, PartialEq, Eq)]
pub enum FormError {
    /// The name or the server is empty.
    MissingNameOrServer,
    /// The port is not a number from 1 to 65535.
    InvalidPort,
    /// The credential is empty.
    MissingSecret,
}

impl FormError {
    /// The message shown for this error.
    pub fn message(&self) -> (res: &'static str)
        ensures
            res@ == (match self {
                FormError::MissingNameOrServer => "请填写名称和地址"@,
                FormError::InvalidPort => "端口无效"@,
                FormError::MissingSecret => "请填写认证信息"@,
            }),
    {
        match self {
            FormError::MissingNameOrServer => "请填写名称和地址",
            FormError::InvalidPort => "端口无效",
            FormError::MissingSecret => "请填写认证信息",
        }
    }
}

/// The TLS settings of a node entered by hand: the defaults, with the
/// optional field as server name where it looks like one, else the server.
pub open spec fn form_tls(server: Seq<char>, extra: Seq<char>) -> TlsView {
    TlsView {
        server_name: if looks_like_sni_spec(extra) {
            extra
        } else {
            server
        },
        ..default_tls_view()
    }
}

/// The node of a filled-in form (fields trimmed), or why it is refused.
pub open spec fn form_spec(
    p: NewNodeProtocol,
    name: Seq<char>,
    server: Seq<char>,
    port: Seq<char>,
    secret: Seq<char>,
    extra: Seq<char>,
) -> Result<NodeView, FormError> {
    let (name, server, port, secret, extra) = (
        trim_spec(name),
        trim_spec(server),
        trim_spec(port),
        trim_spec(secret),
        trim_spec(extra),
    );
    if name.len() == 0 || server.len() == 0 {
        Err(FormError::MissingNameOrServer)
    } else {
        match parse_uint_spec(port, 65535) {
            Some(n) => if n == 0 {
                Err(FormError::InvalidPort)
            } else if secret.len() == 0 {
                Err(FormError::MissingSecret)
            } else {
                Ok(fresh_node(name, server, n as u16, form_protocol(p, secret, extra, form_tls(server, extra))))
            },
            None => Err(FormError::InvalidPort),
        }
    }
}

/// The node of a filled-in "new node" form, or why the form is refused.
pub fn node_from_form(
    protocol: NewNodeProtocol,
    name: &str,
    server: &str,
    port: &str,
    secret: &str,
    extra: &str,
) -> (res: Result<ProxyNode, FormError>)
    ensures
        match form_spec(protocol, name@, server@, port@, secret@, extra@) {
            Ok(v) => res matches Ok(n) && n@.sans_id() == v && is_v4_uuid(n.id),
            Err(e) => res == Err::<ProxyNode, FormError>(e),
        },
{
    let name = trim(name);
    let server = trim(server);
    let port_str = trim(port);
    let secret = trim(secret);
    let extra = trim(extra);
    if name.as_str().is_empty() || server.as_str().is_empty() {
        return Err(FormError::MissingNameOrServer);
    }
    let pcs = chars_of(port_str.as_str());
    let port: u16 = match parse_uint(pcs.as_slice(), 65535) {
        Some(p) => if p > 0 {
            p as u16
        } else {
            return Err(FormError::InvalidPort);
        },
        None => {
            return Err(FormError::InvalidPort);
        },
    };
    if secret.as_str().is_empty() {
        return Err(FormError::MissingSecret);
    }
    let d = TlsConfig::default();
    let tls = TlsConfig {
        enabled: true,
        server_name: if looks_like_sni(extra.as_str()) {
            extra.clone()
        } else {
            server.clone()
        },
        ..d
    };
    let proxy_protocol = build_protocol(protocol, secret.as_str(), extra.as_str(), tls);
    Ok(ProxyNode::new(name, server, port, proxy_protocol))
}

/// The notice shown after a successful import.
pub open spec fn import_message_spec(n_nodes: nat, sub_name: Option<Seq<char>>) -> Seq<char> {
    match sub_name {
        None => "已导入 "@ + dec_spec(n_nodes) + " 个节点"@,
        Some(name) => "已添加订阅「"@ + name + "」，共 "@ + dec_spec(n_nodes) + " 个节点"@,
    }
}

/// The notice shown after a successful import.
pub fn import_success_message(result: &ImportResult) -> (res: String)
    ensures
        res@ == (match result {
            ImportResult::Nodes(ns) => import_message_spec(ns@.len(), None),
            ImportResult::Subscription(s) => import_message_spec(s.nodes@.len(), Some(s.name@)),
        }),
{
    match result {
        ImportResult::Nodes(nodes) => {
            let mut m = "已导入 ".to_owned();
            let n = u64_to_string(nodes.len() as u64);
            m.append(n.as_str());
            m.append(" 个节点");
            m
        },
        ImportResult::Subscription(sub) => {
            let mut m = "已添加订阅「".to_owned();
            m.append(sub.name.as_str());
            m.append("」，共 ");
            let n = u64_to_string(sub.node_count() as u64);
            m.append(n.as_str());
            m.append(" 个节点");
            m
        },
    }
}


/// A VMess node entered by hand takes its alter id from the optional field:
/// the number that the trimmed field spells, up to 65535, else 0.
pub proof fn lemma_form_vmess_alter_id(
    name: Seq<char>,
    server: Seq<char>,
    port: Seq<char>,
    secret: Seq<char>,
    extra: Seq<char>,
)
    ensures
        form_spec(NewNodeProtocol::Vmess, name, server, port, secret, extra) matches Ok(v) ==> (
        v.protocol matches ProtocolView::Vmess(c) && c.alter_id as int == match parse_uint_spec(
            trim_spec(extra),
            65535,
        ) {
            Some(k) => k as int,
            None => 0,
        }),
{
}

/// Decimal text of a number up to 65535 in the optional field of a VMess
/// form becomes the node's alter id.
pub proof fn lemma_form_vmess_decimal_alter_id(
    name: Seq<char>,
    server: Seq<char>,
    port: Seq<char>,
    secret: Seq<char>,
    extra: Seq<char>,
    n: nat,
)
    requires
        trim_spec(extra) == dec_spec(n),
        n <= 65535,
    ensures
        form_spec(NewNodeProtocol::Vmess, name, server, port, secret, extra) matches Ok(v) ==> (
        v.protocol matches ProtocolView::Vmess(c) && c.alter_id == n),
{
    crate::text::lemma_decimal_roundtrip(n, 65535);
    lemma_form_vmess_alter_id(name, server, port, secret, extra);
}


/// The "new node" form, fields trimmed: an empty name or server is refused
/// first; an accepted form gives a node with that name and server, the
/// port the port field spells (1 to 65535), the protocol chosen with the
/// credential as its UUID or password, and TLS on with the optional field as
/// server name where it is not empty and not only digits, else the server.
pub proof fn lemma_form_read(
    p: NewNodeProtocol,
    name: Seq<char>,
    server: Seq<char>,
    port: Seq<char>,
    secret: Seq<char>,
    extra: Seq<char>,
)
    ensures
        trim_spec(name).len() == 0 || trim_spec(server).len() == 0 ==> form_spec(p, name, server, port, secret, extra)
            == Err::<NodeView, FormError>(FormError::MissingNameOrServer),
        form_spec(p, name, server, port, secret, extra) matches Ok(v) ==> {
            let sni = if trim_spec(extra).len() > 0 && !all_digits(trim_spec(extra)) {
                trim_spec(extra)
            } else {
                trim_spec(server)
            };
            &&& v.name == trim_spec(name) && v.server == trim_spec(server)
            &&& parse_uint_spec(trim_spec(port), 65535) == Some(v.port as nat) && v.port != 0
            &&& trim_spec(secret).len() > 0
            &&& v.enabled && v.latency is None && v.source == NodeSource::Manual
            &&& match v.protocol {
                ProtocolView::Vless(c) => p == NewNodeProtocol::Vless && c.uuid == trim_spec(secret)
                    && c.tls.enabled && c.tls.server_name == sni,
                ProtocolView::Vmess(c) => p == NewNodeProtocol::Vmess && c.uuid == trim_spec(secret)
                    && c.tls.enabled && c.tls.server_name == sni,
                ProtocolView::AnyTls(c) => p == NewNodeProtocol::AnyTls && c.password == trim_spec(secret)
                    && c.tls.enabled && c.tls.server_name == sni,
                ProtocolView::Trojan(c) => p == NewNodeProtocol::Trojan && c.password == trim_spec(secret)
                    && c.tls.enabled && c.tls.server_name == sni,
                ProtocolView::Tuic(_) => false,
            }
        },
{
}

}
