//! sing-box configurations: the proxy outbounds of a JSON config.
use vstd::prelude::*;
use crate::doc::{
    get, get_bool_or, get_list, get_spec, get_str_or, get_u64_or, json_document, opt_bool,
    opt_list, opt_str, opt_u64, parse_json, str_items, strings_among, unwrap_or, DocValue,
    DocView,
};
use crate::error::{ErrorView, ProxyError};
use crate::node::{
    fresh_node, is_v4_uuid, new_uuid, nodes_match, nodes_outcome, NodeSource, NodeView, ProtocolView,
    ProxyNode, ProxyProtocol,
};
use crate::protocol::{
    anytls_with, default_tls_view, tuic_with, AnyTlsConfig, TlsConfig, TlsView, TrojanConfig,
    TrojanView, TuicConfig, VMessConfig, VMessView, VlessConfig, VlessView,
};
use crate::text::str_eq;
use crate::uri_parser::trunc16;

verus! {

/// The TLS settings of an outbound's `tls` object; the defaults where it is
/// absent.
pub open spec fn singbox_tls_spec(t: Option<DocView>) -> TlsView {
    match t {
        None => default_tls_view(),
        Some(tls) => TlsView {
            enabled: unwrap_or(opt_bool(get_spec(tls, "enabled"@)), true),
            server_name: unwrap_or(opt_str(get_spec(tls, "server_name"@)), Seq::empty()),
            insecure: unwrap_or(opt_bool(get_spec(tls, "insecure"@)), false),
            alpn: match opt_list(get_spec(tls, "alpn"@)) {
                Some(items) => str_items(items),
                None => Seq::empty(),
            },
            reality: None,
        },
    }
}

/// The string field `key` of `ob`, or empty.
pub open spec fn field(ob: DocView, key: Seq<char>) -> Seq<char> {
    unwrap_or(opt_str(get_spec(ob, key)), Seq::empty())
}

/// The protocol settings of an outbound of the given type, if the type is
/// supported.
pub open spec fn singbox_protocol(ob: DocView, ob_type: Seq<char>, tls: TlsView) -> Option<ProtocolView> {
    if ob_type == "vless"@ {
        Some(ProtocolView::Vless(VlessView { uuid: field(ob, "uuid"@), flow: field(ob, "flow"@), tls, transport: None }))
    } else if ob_type == "vmess"@ {
        Some(ProtocolView::Vmess(VMessView {
            uuid: field(ob, "uuid"@),
            alter_id: trunc16(unwrap_or(opt_u64(get_spec(ob, "alter_id"@)), 0u64)),
            security: unwrap_or(opt_str(get_spec(ob, "security"@)), "auto"@),
            tls,
            transport: None,
        }))
    } else if ob_type == "trojan"@ {
        Some(ProtocolView::Trojan(TrojanView { password: field(ob, "password"@), tls, transport: None }))
    } else if ob_type == "anytls"@ {
        Some(ProtocolView::AnyTls(anytls_with(field(ob, "password"@), tls)))
    } else if ob_type == "tuic"@ {
        Some(ProtocolView::Tuic(tuic_with(
            field(ob, "uuid"@),
            field(ob, "password"@),
            unwrap_or(opt_str(get_spec(ob, "congestion_control"@)), "bbr"@),
            tls,
        )))
    } else {
        None
    }
}

/// The node of one outbound: `None` where its server is empty, its port is
/// 0 (after truncation to 16 bits) or its type is not supported.
pub open spec fn singbox_outbound(ob: DocView) -> Option<NodeView> {
    let server = field(ob, "server"@);
    let port = trunc16(unwrap_or(opt_u64(get_spec(ob, "server_port"@)), 0u64));
    if server.len() == 0 || port == 0 {
        None
    } else {
        match singbox_protocol(ob, field(ob, "type"@), singbox_tls_spec(get_spec(ob, "tls"@))) {
            Some(p) => Some(fresh_node(unwrap_or(opt_str(get_spec(ob, "tag"@)), "unnamed"@), server, port, p)),
            None => None,
        }
    }
}

/// The nodes of a list of outbounds, in order.
pub open spec fn outbound_nodes(obs: Seq<DocView>) -> Seq<NodeView>
    decreases obs.len(),
{
    if obs.len() == 0 {
        Seq::empty()
    } else {
        let rest = outbound_nodes(obs.drop_last());
        match singbox_outbound(obs.last()) {
            Some(n) => rest.push(n),
            None => rest,
        }
    }
}

/// The nodes of a sing-box config document.
pub open spec fn singbox_doc_spec(config: DocView) -> Result<Seq<NodeView>, ErrorView> {
    match opt_list(get_spec(config, "outbounds"@)) {
        None => Err(ErrorView::NoOutbounds),
        Some(obs) => Ok(outbound_nodes(obs)),
    }
}

/// The nodes of a sing-box config text.
pub open spec fn singbox_spec(content: Seq<char>) -> Result<Seq<NodeView>, ErrorView> {
    match json_document(content) {
        Err(e) => Err(ErrorView::InvalidJson(e)),
        Ok(config) => singbox_doc_spec(config),
    }
}

/// The TLS settings of an outbound.
fn parse_tls(tls_val: Option<&DocValue>) -> (res: TlsConfig)
    ensures
        res@ == singbox_tls_spec(crate::doc::opt_view(tls_val)),
{
    proof {
        reveal_strlit("");
        assert(""@ =~= Seq::<char>::empty());
    }
    let tls = match tls_val {
        Some(t) => t,
        None => {
            return TlsConfig::default();
        },
    };
    let alpn = match get_list(tls, "alpn") {
        Some(items) => strings_among(items),
        None => Vec::new(),
    };
    let res = TlsConfig {
        enabled: get_bool_or(tls, "enabled", true),
        server_name: get_str_or(tls, "server_name", ""),
        insecure: get_bool_or(tls, "insecure", false),
        alpn,
        reality: None,
    };
    assert(res@.alpn =~= singbox_tls_spec(crate::doc::opt_view(tls_val)).alpn);
    res
}

/// The protocol settings of an outbound of the given type.
fn outbound_protocol(ob: &DocValue, ob_type: &str, tls: TlsConfig) -> (res: Option<ProxyProtocol>)
    ensures
        match singbox_protocol(ob@, ob_type@, tls@) {
            Some(p) => res matches Some(r) && r@ == p,
            None => res is None,
        },
{
    proof {
        reveal_strlit("");
        assert(""@ =~= Seq::<char>::empty());
    }
    if str_eq(ob_type, "vless") {
        Some(ProxyProtocol::Vless(VlessConfig {
            uuid: get_str_or(ob, "uuid", ""),
            flow: get_str_or(ob, "flow", ""),
            tls,
            transport: None,
        }))
    } else if str_eq(ob_type, "vmess") {
        let aid = get_u64_or(ob, "alter_id", 0);
        Some(ProxyProtocol::Vmess(VMessConfig {
            uuid: get_str_or(ob, "uuid", ""),
            alter_id: (aid % 65536) as u16,
            security: get_str_or(ob, "security", "auto"),
            tls,
            transport: None,
        }))
    } else if str_eq(ob_type, "trojan") {
        Some(ProxyProtocol::Trojan(TrojanConfig {
            password: get_str_or(ob, "password", ""),
            tls,
            transport: None,
        }))
    } else if str_eq(ob_type, "anytls") {
        let d = AnyTlsConfig::default();
        Some(ProxyProtocol::AnyTls(AnyTlsConfig {
            password: get_str_or(ob, "password", ""),
            tls,
            ..d
        }))
    } else if str_eq(ob_type, "tuic") {
        let d = TuicConfig::default();
        Some(ProxyProtocol::Tuic(TuicConfig {
            uuid: get_str_or(ob, "uuid", ""),
            password: get_str_or(ob, "password", ""),
            congestion_control: get_str_or(ob, "congestion_control", "bbr"),
            tls,
            ..d
        }))
    } else {
        None
    }
}

/// The node of one outbound, if it describes a supported proxy.
fn outbound_node(ob: &DocValue) -> (res: Option<ProxyNode>)
    ensures
        match singbox_outbound(ob@) {
            Some(v) => res matches Some(n) && n@.sans_id() == v && is_v4_uuid(n.id),
            None => res is None,
        },
{
    proof {
        reveal_strlit("");
        assert(""@ =~= Seq::<char>::empty());
    }
    let ob_type = get_str_or(ob, "type", "");
    let tag = get_str_or(ob, "tag", "unnamed");
    let server = get_str_or(ob, "server", "");
    let port_n = get_u64_or(ob, "server_port", 0);
    let port = (port_n % 65536) as u16;
    if server.as_str().is_empty() || port == 0 {
        return None;
    }
    let tls = parse_tls(get(ob, "tls"));
    match outbound_protocol(ob, ob_type.as_str(), tls) {
        Some(protocol) => Some(ProxyNode {
            id: new_uuid(),
            name: tag,
            server,
            port,
            protocol,
            enabled: true,
            latency: None,
            source: NodeSource::Manual,
        }),
        None => None,
    }
}

/// The nodes of a sing-box config document: one per supported outbound.
pub fn parse_outbounds(config: &DocValue) -> (res: Result<Vec<ProxyNode>, ProxyError>)
    ensures
        nodes_outcome(res, singbox_doc_spec(config@)),
{
    let outbounds = match get_list(config, "outbounds") {
        Some(obs) => obs,
        None => {
            return Err(ProxyError::NoOutbounds);
        },
    };
    let ghost ov = outbounds@.map_values(|x: DocValue| x@);
    let mut nodes: Vec<ProxyNode> = Vec::new();
    let mut i: usize = 0;
    assert(ov.take(0) =~= Seq::<DocView>::empty());
    while i < outbounds.len()
        invariant
            i <= outbounds@.len(),
            ov == outbounds@.map_values(|x: DocValue| x@),
            opt_list(get_spec(config@, "outbounds"@)) == Some(ov),
            nodes_match(nodes@, outbound_nodes(ov.take(i as int))),
        decreases outbounds@.len() - i,
    {
        assert(ov.take(i + 1).drop_last() =~= ov.take(i as int));
        assert(ov.take(i + 1).last() == outbounds@[i as int]@);
        match outbound_node(&outbounds[i]) {
            Some(n) => {
                let ghost before = nodes@;
                nodes.push(n);
                assert forall|k: int| 0 <= k < nodes@.len() implies (#[trigger] nodes@[k])@.sans_id()
                    == outbound_nodes(ov.take(i + 1))[k] by {
                    if k < before.len() {
                        assert(nodes@[k] == before[k]);
                    }
                }
            },
            None => {},
        }
        i += 1;
    }
    assert(ov.take(outbounds@.len() as int) =~= ov);
    Ok(nodes)
}

/// Reads the proxy outbounds of a sing-box JSON config.
pub fn parse(content: &str) -> (res: Result<Vec<ProxyNode>, ProxyError>)
    ensures
        nodes_outcome(res, singbox_spec(content@)),
{
    match parse_json(content) {
        Err(e) => Err(ProxyError::InvalidJson(e)),
        Ok(config) => parse_outbounds(&config),
    }
}


/// A node as the config parsers make it: with a server and a port, enabled,
/// never measured, added by hand.
pub open spec fn well_formed_read(v: NodeView) -> bool {
    &&& v.server.len() > 0
    &&& v.port > 0
    &&& v.enabled
    &&& v.latency is None
    &&& v.source == NodeSource::Manual
}

proof fn lemma_outbound_nodes_well_formed(obs: Seq<DocView>)
    ensures
        forall|i: int| 0 <= i < outbound_nodes(obs).len() ==> well_formed_read(#[trigger] outbound_nodes(obs)[i]),
    decreases obs.len(),
{
    if obs.len() > 0 {
        let rest = outbound_nodes(obs.drop_last());
        lemma_outbound_nodes_well_formed(obs.drop_last());
        match singbox_outbound(obs.last()) {
            Some(n) => {
                assert(well_formed_read(n));
                assert(outbound_nodes(obs) == rest.push(n));
                assert forall|i: int| 0 <= i < rest.push(n).len() implies well_formed_read(#[trigger] rest.push(n)[i]) by {
                    if i < rest.len() {
                        assert(rest.push(n)[i] == rest[i]);
                    }
                }
            },
            None => {
                assert(outbound_nodes(obs) == rest);
            },
        }
    }
}

/// Every node read from a sing-box config has a server and a port, is
/// enabled, has no latency yet and counts as added by hand: outbounds
/// without a server or a port are skipped.
pub proof fn lemma_singbox_nodes_well_formed(config: DocView)
    ensures
        singbox_doc_spec(config) matches Ok(vs) ==> forall|i: int| 0 <= i < vs.len() ==> well_formed_read(#[trigger] vs[i]),
{
    if let Some(obs) = opt_list(get_spec(config, "outbounds"@)) {
        lemma_outbound_nodes_well_formed(obs);
    }
}


/// A sing-box `vmess` outbound that is read gives a VMess node whose alter
/// id is the number under `alter_id` (as 16 bits), and 0 where there is no
/// such number: a modern outbound without `alter_id` is AEAD VMess.
pub proof fn lemma_singbox_vmess_alter_id(ob: DocView)
    ensures
        unwrap_or(opt_str(get_spec(ob, "type"@)), Seq::empty()) == "vmess"@ ==> (singbox_outbound(ob) matches Some(n)
            ==> n.protocol matches ProtocolView::Vmess(c) && c.alter_id as int == match opt_u64(
            get_spec(ob, "alter_id"@),
        ) {
            Some(k) => k as int % 65536,
            None => 0,
        }),
{
    reveal_strlit("vmess");
    reveal_strlit("vless");
    assert("vmess"@[1] != "vless"@[1]);
}


/// The string under `key`, or empty.
pub open spec fn text_at(v: DocView, key: Seq<char>) -> Seq<char> {
    unwrap_or(opt_str(get_spec(v, key)), Seq::empty())
}

/// Whether `tls` are the TLS settings a sing-box outbound `ob` asks for: with
/// no `tls` object, TLS on with ALPN `h2`, `http/1.1`; with one, TLS on
/// unless `enabled` is false, its `server_name`, `insecure` and string ALPN
/// entries; never REALITY.
pub open spec fn outbound_asks_tls(ob: DocView, tls: TlsView) -> bool {
    &&& tls.reality is None
    &&& match get_spec(ob, "tls"@) {
        None => tls.enabled && tls.server_name.len() == 0 && !tls.insecure && tls.alpn == seq![
            "h2"@,
            "http/1.1"@,
        ],
        Some(t) => {
            &&& tls.enabled == unwrap_or(opt_bool(get_spec(t, "enabled"@)), true)
            &&& tls.server_name == text_at(t, "server_name"@)
            &&& tls.insecure == unwrap_or(opt_bool(get_spec(t, "insecure"@)), false)
        },
    }
}

/// A sing-box outbound that is read gives a node with the outbound's server
/// (never empty), its port (as 16 bits, never 0), its tag (else `unnamed`),
/// the protocol its `type` names with that protocol's fields, and the TLS
/// settings the outbound asks for.
pub proof fn lemma_singbox_outbound_read(ob: DocView)
    ensures
        singbox_outbound(ob) matches Some(n) ==> {
            &&& n.server == text_at(ob, "server"@) && n.server.len() > 0
            &&& n.port as int == unwrap_or(opt_u64(get_spec(ob, "server_port"@)), 0u64) as int % 65536
            &&& n.port != 0
            &&& n.name == unwrap_or(opt_str(get_spec(ob, "tag"@)), "unnamed"@)
            &&& n.enabled && n.latency is None && n.source == NodeSource::Manual
            &&& match n.protocol {
                ProtocolView::Vless(c) => text_at(ob, "type"@) == "vless"@ && c.uuid == text_at(ob, "uuid"@)
                    && c.flow == text_at(ob, "flow"@) && outbound_asks_tls(ob, c.tls),
                ProtocolView::Vmess(c) => text_at(ob, "type"@) == "vmess"@ && c.uuid == text_at(ob, "uuid"@)
                    && c.security == unwrap_or(opt_str(get_spec(ob, "security"@)), "auto"@)
                    && outbound_asks_tls(ob, c.tls),
                ProtocolView::Trojan(c) => text_at(ob, "type"@) == "trojan"@ && c.password == text_at(
                    ob,
                    "password"@,
                ) && outbound_asks_tls(ob, c.tls),
                ProtocolView::AnyTls(c) => text_at(ob, "type"@) == "anytls"@ && c.password == text_at(
                    ob,
                    "password"@,
                ) && outbound_asks_tls(ob, c.tls),
                ProtocolView::Tuic(c) => text_at(ob, "type"@) == "tuic"@ && c.uuid == text_at(ob, "uuid"@)
                    && c.password == text_at(ob, "password"@) && c.congestion_control == unwrap_or(
                    opt_str(get_spec(ob, "congestion_control"@)),
                    "bbr"@,
                ) && outbound_asks_tls(ob, c.tls),
            }
        },
{
}

}
