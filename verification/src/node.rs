//! Proxy nodes: a server, a port and the settings of one protocol.
use vstd::prelude::*;
use vstd::string::StringExecFns;
use crate::protocol::{
    AnyTlsConfig, AnyTlsView, TrojanConfig, TrojanView, TuicConfig, TuicView, VMessConfig,
    VMessView, VlessConfig, VlessView,
};
use crate::text::{dec_spec, u64_to_string};

verus! {

/// The protocol of a node, with its settings.
#[derive(Clone, Debug, PartialEq, Eq)]
pub enum ProxyProtocol {
    Vless(VlessConfig),
    Vmess(VMessConfig),
    Trojan(TrojanConfig),
    AnyTls(AnyTlsConfig),
    Tuic(TuicConfig),
}

pub enum ProtocolView {
    Vless(VlessView),
    Vmess(VMessView),
    Trojan(TrojanView),
    AnyTls(AnyTlsView),
    Tuic(TuicView),
}

impl View for ProxyProtocol {
    type V = ProtocolView;

    open spec fn view(&self) -> ProtocolView {
        match self {
            ProxyProtocol::Vless(c) => ProtocolView::Vless(c@),
            ProxyProtocol::Vmess(c) => ProtocolView::Vmess(c@),
            ProxyProtocol::Trojan(c) => ProtocolView::Trojan(c@),
            ProxyProtocol::AnyTls(c) => ProtocolView::AnyTls(c@),
            ProxyProtocol::Tuic(c) => ProtocolView::Tuic(c@),
        }
    }
}

/// The label shown for a protocol.
pub open spec fn protocol_label_spec(p: ProtocolView) -> Seq<char> {
    match p {
        ProtocolView::Vless(_) => "VLESS"@,
        ProtocolView::Vmess(_) => "VMess"@,
        ProtocolView::Trojan(_) => "TROJAN"@,
        ProtocolView::AnyTls(_) => "AnyTLS"@,
        ProtocolView::Tuic(_) => "TUIC"@,
    }
}

impl ProxyProtocol {
    /// The label shown for this protocol.
    pub fn label(&self) -> (res: &'static str)
        ensures
            res@ == protocol_label_spec(self@),
    {
        match self {
            ProxyProtocol::Vless(_) => "VLESS",
            ProxyProtocol::Vmess(_) => "VMess",
            ProxyProtocol::Trojan(_) => "TROJAN",
            ProxyProtocol::AnyTls(_) => "AnyTLS",
            ProxyProtocol::Tuic(_) => "TUIC",
        }
    }
}

/// Where a node came from: added by hand, or from the subscription with
/// the given id.
#[derive(Clone, Copy, Debug, PartialEq, Eq)]
pub enum NodeSource {
    Manual,
    Subscription(u128),
}

/// A proxy node. Its `id` is a random UUID, held as its 128-bit value.
#[derive(Clone, Debug, PartialEq, Eq)]
pub struct ProxyNode {
    pub id: u128,
    pub name: String,
    pub server: String,
    pub port: u16,
    pub protocol: ProxyProtocol,
    pub enabled: bool,
    pub latency: Option<u32>,
    pub source: NodeSource,
}

pub struct NodeView {
    pub id: u128,
    pub name: Seq<char>,
    pub server: Seq<char>,
    pub port: u16,
    pub protocol: ProtocolView,
    pub enabled: bool,
    pub latency: Option<u32>,
    pub source: NodeSource,
}

impl View for ProxyNode {
    type V = NodeView;

    open spec fn view(&self) -> NodeView {
        NodeView {
            id: self.id,
            name: self.name@,
            server: self.server@,
            port: self.port,
            protocol: self.protocol@,
            enabled: self.enabled,
            latency: self.latency,
            source: self.source,
        }
    }
}

impl NodeView {
    /// The node with its id set to 0: what remains when the random id is set aside.
    pub open spec fn sans_id(self) -> NodeView {
        NodeView { id: 0, ..self }
    }
}

/// A node as it is first made: enabled, never measured, added by hand, id 0.
pub open spec fn fresh_node(name: Seq<char>, server: Seq<char>, port: u16, protocol: ProtocolView) -> NodeView {
    NodeView {
        id: 0,
        name,
        server,
        port,
        protocol,
        enabled: true,
        latency: None,
        source: NodeSource::Manual,
    }
}

/// `"{host}:{port}"`.
pub open spec fn host_port_spec(host: Seq<char>, port: nat) -> Seq<char> {
    host + ":"@ + dec_spec(port)
}

/// `format!("{}:{}", host, port)`.
pub fn host_port(host: &str, port: u64) -> (res: String)
    ensures
        res@ == host_port_spec(host@, port as nat),
{
    let mut s = host.to_owned();
    s.append(":");
    let p = u64_to_string(port);
    s.append(p.as_str());
    s
}

/// The 128-bit value of a version-4 (random) UUID: version nibble 4 and
/// variant bits `10`.
pub open spec fn is_v4_uuid(id: u128) -> bool {
    id & 0x0000_0000_0000_F000_C000_0000_0000_0000u128 == 0x0000_0000_0000_4000_8000_0000_0000_0000u128
}

/// A fresh random id (`uuid::Uuid::new_v4`, as its 128-bit value). Only its
/// version and variant bits are fixed, which the contract states; the other
/// bits are random and nothing is said of them.
#[verifier::external_body]
pub(crate) fn new_uuid() -> (res: u128)
    ensures
        is_v4_uuid(res),
{
    uuid::Uuid::new_v4().as_u128()
}

impl ProxyNode {
    /// A new enabled node added by hand, with a fresh random id.
    pub fn new(name: String, server: String, port: u16, protocol: ProxyProtocol) -> (res: Self)
        ensures
            res@.sans_id() == fresh_node(name@, server@, port, protocol@),
            is_v4_uuid(res.id),
    {
        ProxyNode {
            id: new_uuid(),
            name,
            server,
            port,
            protocol,
            enabled: true,
            latency: None,
            source: NodeSource::Manual,
        }
    }

    /// The label of the node's protocol.
    pub fn protocol_label(&self) -> (res: &'static str)
        ensures
            res@ == protocol_label_spec(self@.protocol),
    {
        self.protocol.label()
    }

    /// `"{server}:{port}"`.
    pub fn display_address(&self) -> (res: String)
        ensures
            res@ == host_port_spec(self@.server, self.port as nat),
    {
        host_port(self.server.as_str(), self.port as u64)
    }
}


/// `ns` are the nodes `vs`, each up to its random id, which is a
/// version-4 UUID.
pub open spec fn nodes_match(ns: Seq<ProxyNode>, vs: Seq<NodeView>) -> bool {
    &&& ns.len() == vs.len()
    &&& forall|i: int| 0 <= i < ns.len() ==> (#[trigger] ns[i])@.sans_id() == vs[i] && is_v4_uuid(ns[i].id)
}


/// `res` is the outcome `spec`, each node up to its random id.
pub open spec fn nodes_outcome(
    res: Result<Vec<ProxyNode>, crate::error::ProxyError>,
    spec: Result<Seq<NodeView>, crate::error::ErrorView>,
) -> bool {
    match res {
        Ok(ns) => spec matches Ok(vs) && nodes_match(ns@, vs),
        Err(e) => spec == Err::<Seq<NodeView>, crate::error::ErrorView>(e@),
    }
}

}
