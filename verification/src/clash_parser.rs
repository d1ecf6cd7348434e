//! Clash configurations: the `proxies` of a YAML config.
use vstd::prelude::*;
use crate::doc::{
    get, get_bool_or, get_list, get_spec, get_str_or, get_str_or_else, get_u64_or, opt_bool,
    opt_list, opt_str, opt_u64, or_else, parse_yaml, str_items, strings_among, unwrap_or,
    yaml_document, DocValue, DocView,
};
use crate::error::{ErrorView, ProxyError};
use crate::node::{
    fresh_node, is_v4_uuid, new_uuid, nodes_match, nodes_outcome, NodeSource, NodeView, ProtocolView,
    ProxyNode, ProxyProtocol,
};
use crate::protocol::{TlsConfig, TlsView, TrojanConfig, TrojanView, VMessConfig, VMessView, VlessConfig, VlessView};
use crate::singbox_parser::{field, text_at};
use crate::text::str_eq;
use crate::uri_parser::trunc16;

verus! {

/// The TLS settings of a Clash proxy: always enabled, server name from
/// `sni` (else `servername`), `skip-cert-verify`, and the string items of
/// `alpn`.
pub open spec fn clash_tls(p: DocView) -> TlsView {
    TlsView {
        enabled: true,
        server_name: unwrap_or(opt_str(or_else(get_spec(p, "sni"@), get_spec(p, "servername"@))), Seq::empty()),
        insecure: unwrap_or(opt_bool(get_spec(p, "skip-cert-verify"@)), false),
        alpn: match opt_list(get_spec(p, "alpn"@)) {
            Some(items) => str_items(items),
            None => Seq::empty(),
        },
        reality: None,
    }
}

/// The protocol settings of a Clash proxy of the given type, if supported.
pub open spec fn clash_protocol(p: DocView, p_type: Seq<char>, tls: TlsView) -> Option<ProtocolView> {
    if p_type == "vless"@ {
        Some(ProtocolView::Vless(VlessView { uuid: field(p, "uuid"@), flow: field(p, "flow"@), tls, transport: None }))
    } else if p_type == "trojan"@ {
        Some(ProtocolView::Trojan(TrojanView { password: field(p, "password"@), tls, transport: None }))
    } else if p_type == "vmess"@ {
        Some(ProtocolView::Vmess(VMessView {
            uuid: field(p, "uuid"@),
            alter_id: trunc16(unwrap_or(opt_u64(get_spec(p, "alterId"@)), 0u64)),
            security: unwrap_or(opt_str(get_spec(p, "cipher"@)), "auto"@),
            tls,
            transport: None,
        }))
    } else {
        None
    }
}

/// The node of one Clash proxy: `None` where its server is empty, its port
/// is 0 (after truncation to 16 bits) or its type is not supported.
pub open spec fn clash_proxy(p: DocView) -> Option<NodeView> {
    let server = field(p, "server"@);
    let port = trunc16(unwrap_or(opt_u64(get_spec(p, "port"@)), 0u64));
    if server.len() == 0 || port == 0 {
        None
    } else {
        match clash_protocol(p, field(p, "type"@), clash_tls(p)) {
            Some(pr) => Some(fresh_node(unwrap_or(opt_str(get_spec(p, "name"@)), "unnamed"@), server, port, pr)),
            None => None,
        }
    }
}

/// The nodes of a list of Clash proxies, in order.
pub open spec fn proxy_nodes(ps: Seq<DocView>) -> Seq<NodeView>
    decreases ps.len(),
{
    if ps.len() == 0 {
        Seq::empty()
    } else {
        let rest = proxy_nodes(ps.drop_last());
        match clash_proxy(ps.last()) {
            Some(n) => rest.push(n),
            None => rest,
        }
    }
}

/// The nodes of a Clash config document.
pub open spec fn clash_doc_spec(config: DocView) -> Result<Seq<NodeView>, ErrorView> {
    match opt_list(get_spec(config, "proxies"@)) {
        None => Err(ErrorView::NoProxies),
        Some(ps) => Ok(proxy_nodes(ps)),
    }
}

/// The nodes of a Clash config text.
pub open spec fn clash_spec(content: Seq<char>) -> Result<Seq<NodeView>, ErrorView> {
    match yaml_document(content) {
        Err(e) => Err(ErrorView::InvalidYaml(e)),
        Ok(config) => clash_doc_spec(config),
    }
}

/// The protocol settings of a Clash proxy of the given type.
fn proxy_protocol(p: &DocValue, p_type: &str, tls: TlsConfig) -> (res: Option<ProxyProtocol>)
    ensures
        match clash_protocol(p@, p_type@, tls@) {
            Some(pr) => res matches Some(r) && r@ == pr,
            None => res is None,
        },
{
    proof {
        reveal_strlit("");
        assert(""@ =~= Seq::<char>::empty());
    }
    if str_eq(p_type, "vless") {
        Some(ProxyProtocol::Vless(VlessConfig {
            uuid: get_str_or(p, "uuid", ""),
            flow: get_str_or(p, "flow", ""),
            tls,
            transport: None,
        }))
    } else if str_eq(p_type, "trojan") {
        Some(ProxyProtocol::Trojan(TrojanConfig {
            password: get_str_or(p, "password", ""),
            tls,
            transport: None,
        }))
    } else if str_eq(p_type, "vmess") {
        let aid = get_u64_or(p, "alterId", 0);
        Some(ProxyProtocol::Vmess(VMessConfig {
            uuid: get_str_or(p, "uuid", ""),
            alter_id: (aid % 65536) as u16,
            security: get_str_or(p, "cipher", "auto"),
            tls,
            transport: None,
        }))
    } else {
        None
    }
}

/// The node of one Clash proxy, if it describes a supported proxy.
fn proxy_node(p: &DocValue) -> (res: Option<ProxyNode>)
    ensures
        match clash_proxy(p@) {
            Some(v) => res matches Some(n) && n@.sans_id() == v && is_v4_uuid(n.id),
            None => res is None,
        },
{
    proof {
        reveal_strlit("");
        assert(""@ =~= Seq::<char>::empty());
    }
    let p_type = get_str_or(p, "type", "");
    let name = get_str_or(p, "name", "unnamed");
    let server = get_str_or(p, "server", "");
    let port_n = get_u64_or(p, "port", 0);
    let port = (port_n % 65536) as u16;
    if server.as_str().is_empty() || port == 0 {
        return None;
    }
    let alpn = match get_list(p, "alpn") {
        Some(items) => strings_among(items),
        None => Vec::new(),
    };
    let tls = TlsConfig {
        enabled: true,
        server_name: get_str_or_else(p, "sni", "servername", ""),
        insecure: get_bool_or(p, "skip-cert-verify", false),
        alpn,
        reality: None,
    };
    assert(tls@.alpn =~= clash_tls(p@).alpn);
    match proxy_protocol(p, p_type.as_str(), tls) {
        Some(protocol) => Some(ProxyNode {
            id: new_uuid(),
            name,
            server,
            port,
            protocol,
            enabled: true,
            latency: None,
            source: NodeSource::Manual,
        }),
        None => None,
    }
}

/// The nodes of a Clash config document: one per supported proxy.
pub fn parse_proxies(config: &DocValue) -> (res: Result<Vec<ProxyNode>, ProxyError>)
    ensures
        nodes_outcome(res, clash_doc_spec(config@)),
{
    let proxies = match get_list(config, "proxies") {
        Some(ps) => ps,
        None => {
            return Err(ProxyError::NoProxies);
        },
    };
    let ghost pv = proxies@.map_values(|x: DocValue| x@);
    let mut nodes: Vec<ProxyNode> = Vec::new();
    let mut i: usize = 0;
    assert(pv.take(0) =~= Seq::<DocView>::empty());
    while i < proxies.len()
        invariant
            i <= proxies@.len(),
            pv == proxies@.map_values(|x: DocValue| x@),
            opt_list(get_spec(config@, "proxies"@)) == Some(pv),
            nodes_match(nodes@, proxy_nodes(pv.take(i as int))),
        decreases proxies@.len() - i,
    {
        assert(pv.take(i + 1).drop_last() =~= pv.take(i as int));
        assert(pv.take(i + 1).last() == proxies@[i as int]@);
        match proxy_node(&proxies[i]) {
            Some(n) => {
                let ghost before = nodes@;
                nodes.push(n);
                assert forall|k: int| 0 <= k < nodes@.len() implies (#[trigger] nodes@[k])@.sans_id()
                    == proxy_nodes(pv.take(i + 1))[k] by {
                    if k < before.len() {
                        assert(nodes@[k] == before[k]);
                    }
                }
            },
            None => {},
        }
        i += 1;
    }
    assert(pv.take(proxies@.len() as int) =~= pv);
    Ok(nodes)
}

/// Reads the proxies of a Clash YAML config.
pub fn parse(content: &str) -> (res: Result<Vec<ProxyNode>, ProxyError>)
    ensures
        nodes_outcome(res, clash_spec(content@)),
{
    match parse_yaml(content) {
        Err(e) => Err(ProxyError::InvalidYaml(e)),
        Ok(config) => parse_proxies(&config),
    }
}


proof fn lemma_proxy_nodes_well_formed(ps: Seq<DocView>)
    ensures
        forall|i: int| 0 <= i < proxy_nodes(ps).len() ==> crate::singbox_parser::well_formed_read(#[trigger] proxy_nodes(ps)[i]),
    decreases ps.len(),
{
    if ps.len() > 0 {
        let rest = proxy_nodes(ps.drop_last());
        lemma_proxy_nodes_well_formed(ps.drop_last());
        match clash_proxy(ps.last()) {
            Some(n) => {
                assert(crate::singbox_parser::well_formed_read(n));
                assert(proxy_nodes(ps) == rest.push(n));
                assert forall|i: int| 0 <= i < rest.push(n).len() implies crate::singbox_parser::well_formed_read(#[trigger] rest.push(n)[i]) by {
                    if i < rest.len() {
                        assert(rest.push(n)[i] == rest[i]);
                    }
                }
            },
            None => {
                assert(proxy_nodes(ps) == rest);
            },
        }
    }
}

/// Every node read from a Clash config has a server and a port, is
/// enabled, has no latency yet and counts as added by hand: proxies without
/// a server or a port are skipped.
pub proof fn lemma_clash_nodes_well_formed(config: DocView)
    ensures
        clash_doc_spec(config) matches Ok(vs) ==> forall|i: int| 0 <= i < vs.len() ==> crate::singbox_parser::well_formed_read(#[trigger] vs[i]),
{
    if let Some(ps) = opt_list(get_spec(config, "proxies"@)) {
        lemma_proxy_nodes_well_formed(ps);
    }
}


/// Whether `tls` are the TLS settings a Clash proxy `p` asks for: TLS on,
/// the server name under `sni`, else under `servername`, else empty,
/// certificate checks skipped where `skip-cert-verify` is true, no REALITY.
pub open spec fn clash_tls_of(p: DocView, tls: TlsView) -> bool {
    &&& tls.enabled
    &&& tls.server_name == unwrap_or(
        opt_str(or_else(get_spec(p, "sni"@), get_spec(p, "servername"@))),
        Seq::empty(),
    )
    &&& tls.insecure == unwrap_or(opt_bool(get_spec(p, "skip-cert-verify"@)), false)
    &&& tls.reality is None
}

/// Every node read from a Clash proxy, whatever its type, has the TLS
/// settings the proxy asks for (its `sni` or `servername` as server name);
/// only VLESS, Trojan and VMess proxies are read; a VMess node's alter id is
/// the number under `alterId` (as 16 bits), else 0.
pub proof fn lemma_clash_node_tls(p: DocView)
    ensures
        clash_proxy(p) matches Some(n) ==> match n.protocol {
            ProtocolView::Vless(c) => clash_tls_of(p, c.tls),
            ProtocolView::Trojan(c) => clash_tls_of(p, c.tls),
            ProtocolView::Vmess(c) => clash_tls_of(p, c.tls) && c.alter_id as int == match opt_u64(
                get_spec(p, "alterId"@),
            ) {
                Some(k) => k as int % 65536,
                None => 0,
            },
            _ => false,
        },
{
}


/// A Clash proxy that is read gives a node with the proxy's server (never
/// empty), its port (as 16 bits, never 0), its name (else `unnamed`), and
/// the protocol its `type` names with that protocol's fields.
pub proof fn lemma_clash_proxy_read(p: DocView)
    ensures
        clash_proxy(p) matches Some(n) ==> {
            &&& n.server == text_at(p, "server"@) && n.server.len() > 0
            &&& n.port as int == unwrap_or(opt_u64(get_spec(p, "port"@)), 0u64) as int % 65536
            &&& n.port != 0
            &&& n.name == unwrap_or(opt_str(get_spec(p, "name"@)), "unnamed"@)
            &&& n.enabled && n.latency is None && n.source == NodeSource::Manual
            &&& match n.protocol {
                ProtocolView::Vless(c) => text_at(p, "type"@) == "vless"@ && c.uuid == text_at(p, "uuid"@)
                    && c.flow == text_at(p, "flow"@),
                ProtocolView::Trojan(c) => text_at(p, "type"@) == "trojan"@ && c.password == text_at(
                    p,
                    "password"@,
                ),
                ProtocolView::Vmess(c) => text_at(p, "type"@) == "vmess"@ && c.uuid == text_at(p, "uuid"@)
                    && c.security == unwrap_or(opt_str(get_spec(p, "cipher"@)), "auto"@),
                _ => false,
            }
        },
{
}

}
