//! The configuration written for a node, read back by the sing-box parser.
use vstd::prelude::*;
use crate::config::{config_spec, js, outbound_fields, outbound_spec, protocol_tls, tls_json};
use crate::doc::{
    get_spec, kv, lemma_lookup_push, lemma_set_entry_lookup, lemma_without_key_lookup,
    lemma_without_key_push, lookup, str_items, without_key, DocView,
};
use crate::node::{fresh_node, NodeView, ProtocolView};
use crate::protocol::TlsView;
use crate::singbox_parser::{outbound_nodes, singbox_doc_spec, singbox_outbound, singbox_tls_spec};

verus! {

/// The string items of a list of strings are the strings.
proof fn lemma_str_items_of_strings(s: Seq<Seq<char>>)
    ensures
        str_items(s.map_values(|x: Seq<char>| js(x))) == s,
    decreases s.len(),
{
    let m = s.map_values(|x: Seq<char>| js(x));
    if s.len() > 0 {
        lemma_str_items_of_strings(s.drop_last());
        assert(m.drop_last() =~= s.drop_last().map_values(|x: Seq<char>| js(x)));
        assert(s.drop_last().push(s.last()) =~= s);
    } else {
        assert(m =~= Seq::<DocView>::empty());
        assert(s =~= Seq::<Seq<char>>::empty());
    }
}


/// The lengths and some characters of the keys and type names that the
/// writer and the parser use, which tell them apart.
proof fn lemma_key_facts()
    ensures
        "type"@.len() == 4,
        "type"@[0] == 't',
        "tag"@.len() == 3,
        "tag"@[0] == 't',
        "server"@.len() == 6,
        "server"@[0] == 's',
        "server_port"@.len() == 11,
        "server_port"@[0] == 's',
        "uuid"@.len() == 4,
        "uuid"@[0] == 'u',
        "flow"@.len() == 4,
        "flow"@[0] == 'f',
        "tls"@.len() == 3,
        "tls"@[0] == 't',
        "password"@.len() == 8,
        "password"@[0] == 'p',
        "security"@.len() == 8,
        "security"@[0] == 's',
        "alter_id"@.len() == 8,
        "alter_id"@[0] == 'a',
        "idle_timeout"@.len() == 12,
        "idle_timeout"@[0] == 'i',
        "padding_scheme"@.len() == 14,
        "padding_scheme"@[0] == 'p',
        "congestion_control"@.len() == 18,
        "congestion_control"@[0] == 'c',
        "udp_relay_mode"@.len() == 14,
        "udp_relay_mode"@[0] == 'u',
        "zero_rtt_handshake"@.len() == 18,
        "zero_rtt_handshake"@[0] == 'z',
        "heartbeat"@.len() == 9,
        "heartbeat"@[0] == 'h',
        "enabled"@.len() == 7,
        "enabled"@[0] == 'e',
        "server_name"@.len() == 11,
        "server_name"@[0] == 's',
        "insecure"@.len() == 8,
        "insecure"@[0] == 'i',
        "alpn"@.len() == 4,
        "alpn"@[0] == 'a',
        "reality"@.len() == 7,
        "reality"@[0] == 'r',
        "vless"@.len() == 5,
        "vless"@[0] == 'v',
        "vmess"@.len() == 5,
        "vmess"@[0] == 'v',
        "trojan"@.len() == 6,
        "trojan"@[0] == 't',
        "anytls"@.len() == 6,
        "anytls"@[0] == 'a',
        "tuic"@.len() == 4,
        "tuic"@[0] == 't',
        "proxy"@.len() == 5,
        "proxy"@[0] == 'p',
        "tag"@[1] == 'a',
        "tls"@[1] == 'l',
        "server_port"@[7] == 'p',
        "server_name"@[7] == 'n',
        "vless"@[1] == 'l',
        "vmess"@[1] == 'm',
{
    reveal_strlit("type");
    reveal_strlit("tag");
    reveal_strlit("server");
    reveal_strlit("server_port");
    reveal_strlit("uuid");
    reveal_strlit("flow");
    reveal_strlit("tls");
    reveal_strlit("password");
    reveal_strlit("security");
    reveal_strlit("alter_id");
    reveal_strlit("idle_timeout");
    reveal_strlit("padding_scheme");
    reveal_strlit("congestion_control");
    reveal_strlit("udp_relay_mode");
    reveal_strlit("zero_rtt_handshake");
    reveal_strlit("heartbeat");
    reveal_strlit("enabled");
    reveal_strlit("server_name");
    reveal_strlit("insecure");
    reveal_strlit("alpn");
    reveal_strlit("reality");
    reveal_strlit("vless");
    reveal_strlit("vmess");
    reveal_strlit("trojan");
    reveal_strlit("anytls");
    reveal_strlit("tuic");
    reveal_strlit("proxy");
}

/// The TLS object written for enabled TLS without REALITY is read back as
/// the same settings.
pub proof fn lemma_tls_roundtrip(tls: TlsView)
    requires
        tls.enabled,
        tls.reality is None,
    ensures
        tls_json(tls) is Some,
        singbox_tls_spec(tls_json(tls)) == tls,
{
    broadcast use lemma_lookup_push;

    lemma_key_facts();
    lemma_str_items_of_strings(tls.alpn);
    if tls.alpn.len() == 0 {
        assert(tls.alpn =~= Seq::<Seq<char>>::empty());
    }
    if tls.server_name.len() == 0 {
        assert(tls.server_name =~= Seq::<char>::empty());
    }
}

/// The entries every outbound starts with, one after the other.
proof fn lemma_head_pushes(ty: Seq<char>, n: NodeView)
    ensures
        crate::config::outbound_head(ty, n) == Seq::<(DocView, DocView)>::empty().push(
            kv("type"@, js(ty)),
        ).push(kv("tag"@, js("proxy"@))).push(kv("server"@, js(n.server))).push(
            kv("server_port"@, crate::config::jn(n.port as u64)),
        ),
{
    assert(crate::config::outbound_head(ty, n) =~= Seq::<(DocView, DocView)>::empty().push(
        kv("type"@, js(ty)),
    ).push(kv("tag"@, js("proxy"@))).push(kv("server"@, js(n.server))).push(
        kv("server_port"@, crate::config::jn(n.port as u64)),
    ));
}

/// A node whose settings the writer exports in full and the sing-box parser
/// reads back: a server and a port, TLS on without REALITY, no transport,
/// and for AnyTLS and TUIC the defaults of the settings the parser does not
/// read.
pub open spec fn exported_in_full(n: NodeView) -> bool {
    &&& n.server.len() > 0
    &&& n.port > 0
    &&& match n.protocol {
        ProtocolView::Vless(c) => c.tls.enabled && c.tls.reality is None && c.transport is None,
        ProtocolView::Vmess(c) => c.tls.enabled && c.tls.reality is None && c.transport is None,
        ProtocolView::Trojan(c) => c.tls.enabled && c.tls.reality is None && c.transport is None,
        ProtocolView::AnyTls(c) => c.tls.enabled && c.tls.reality is None && c.idle_timeout
            == "15m"@ && c.min_padding_len == 0 && c.max_padding_len == 0,
        ProtocolView::Tuic(c) => c.tls.enabled && c.tls.reality is None && c.udp_relay_mode
            == "native"@ && !c.zero_rtt_handshake && c.heartbeat == "10s"@,
    }
}

/// The fields of an outbound hold no `tls` key, so setting `tls` adds it
/// at the end.
proof fn lemma_fields_without_tls(n: NodeView)
    ensures
        without_key(outbound_fields(n), "tls"@) == outbound_fields(n),
{
    broadcast use lemma_without_key_push;

    lemma_key_facts();
    match n.protocol {
        ProtocolView::Vless(_) => lemma_head_pushes("vless"@, n),
        ProtocolView::Vmess(_) => lemma_head_pushes("vmess"@, n),
        ProtocolView::Trojan(_) => lemma_head_pushes("trojan"@, n),
        ProtocolView::AnyTls(_) => lemma_head_pushes("anytls"@, n),
        ProtocolView::Tuic(_) => lemma_head_pushes("tuic"@, n),
    }
    assert(without_key(Seq::<(DocView, DocView)>::empty(), "tls"@) == Seq::<(DocView, DocView)>::empty());
}

/// The outbound written for a node is read back by the sing-box parser as
/// the same node, named `proxy`, where the writer exports all its settings.
pub proof fn lemma_outbound_roundtrip(n: NodeView)
    requires
        exported_in_full(n),
    ensures
        singbox_outbound(outbound_spec(n)) == Some(fresh_node("proxy"@, n.server, n.port, n.protocol)),
{
    broadcast use lemma_lookup_push;

    lemma_key_facts();
    lemma_fields_without_tls(n);
    lemma_tls_roundtrip(protocol_tls(n));
    let t = tls_json(protocol_tls(n))->0;
    assert(outbound_spec(n) == DocView::Mapping(outbound_fields(n).push(kv("tls"@, t))));
    match n.protocol {
        ProtocolView::Vless(_) => lemma_head_pushes("vless"@, n),
        ProtocolView::Vmess(_) => lemma_head_pushes("vmess"@, n),
        ProtocolView::Trojan(_) => lemma_head_pushes("trojan"@, n),
        ProtocolView::AnyTls(_) => lemma_head_pushes("anytls"@, n),
        ProtocolView::Tuic(_) => lemma_head_pushes("tuic"@, n),
    }
    match n.protocol {
        ProtocolView::Vless(c) => {
            if c.flow.len() == 0 {
                assert(c.flow =~= Seq::<char>::empty());
            }
        },
        _ => {},
    }
}


proof fn lemma_plain_outbound_skipped(ty: Seq<char>, tag: Seq<char>)
    ensures
        singbox_outbound(crate::config::plain_outbound(ty, tag)) is None,
{
    broadcast use lemma_lookup_push;

    lemma_key_facts();
    assert(seq![kv("type"@, js(ty)), kv("tag"@, js(tag))] =~= Seq::<(DocView, DocView)>::empty().push(
        kv("type"@, js(ty)),
    ).push(kv("tag"@, js(tag))));
}

/// The configuration written for a node, read back as a sing-box config,
/// yields that node alone (named `proxy`), where the writer exports all its
/// settings: the direct, block and dns outbounds name no server.
pub proof fn lemma_config_roundtrip(n: NodeView, mode: crate::settings::ProxyMode, mixed_port: u16, clash_api_port: u16)
    requires
        exported_in_full(n),
    ensures
        singbox_doc_spec(config_spec(n, mode, mixed_port, clash_api_port)) == Ok::<
            Seq<NodeView>,
            crate::error::ErrorView,
        >(seq![fresh_node("proxy"@, n.server, n.port, n.protocol)]),
{
    broadcast use lemma_lookup_push;

    lemma_key_facts();
    reveal_strlit("log");
    reveal_strlit("dns");
    reveal_strlit("inbounds");
    reveal_strlit("outbounds");
    reveal_strlit("route");
    reveal_strlit("experimental");
    reveal_strlit("direct");
    reveal_strlit("block");
    reveal_strlit("dns-out");
    let c = config_spec(n, mode, mixed_port, clash_api_port);
    let es = seq![
        kv("log"@, crate::config::log_spec()),
        kv("dns"@, crate::config::dns_spec()),
        kv("inbounds"@, crate::config::inbounds_spec(mixed_port)),
        kv("outbounds"@, crate::config::outbounds_spec(n)),
        kv("route"@, crate::config::route_spec(mode)),
        kv("experimental"@, crate::config::experimental_spec(clash_api_port)),
    ];
    assert(es =~= Seq::<(DocView, DocView)>::empty().push(es[0]).push(es[1]).push(es[2]).push(
        es[3],
    ).push(es[4]).push(es[5]));
    assert("outbounds"@.len() == 9 && "log"@.len() == 3 && "dns"@.len() == 3 && "inbounds"@.len() == 8);
    assert("outbounds"@[0] == 'o' && "inbounds"@[0] == 'i');
    assert(lookup(es, "outbounds"@) == Some(crate::config::outbounds_spec(n)));
    let obs = seq![
        outbound_spec(n),
        crate::config::plain_outbound("direct"@, "direct"@),
        crate::config::plain_outbound("block"@, "block"@),
        crate::config::plain_outbound("dns"@, "dns-out"@),
    ];
    lemma_outbound_roundtrip(n);
    lemma_plain_outbound_skipped("direct"@, "direct"@);
    lemma_plain_outbound_skipped("block"@, "block"@);
    lemma_plain_outbound_skipped("dns"@, "dns-out"@);
    let v = fresh_node("proxy"@, n.server, n.port, n.protocol);
    assert(obs.drop_last().drop_last().drop_last().drop_last() =~= Seq::<DocView>::empty());
    assert(obs.drop_last().drop_last().drop_last() =~= seq![outbound_spec(n)]);
    let one = seq![outbound_spec(n)];
    assert(one.drop_last() =~= Seq::<DocView>::empty());
    assert(one.last() == outbound_spec(n));
    assert(outbound_nodes(Seq::<DocView>::empty()) =~= Seq::<NodeView>::empty());
    assert(outbound_nodes(one) =~= seq![v]);
    assert(outbound_nodes(obs.drop_last().drop_last().drop_last()) =~= seq![v]);
    assert(outbound_nodes(obs.drop_last().drop_last()) == seq![v]);
    assert(outbound_nodes(obs.drop_last()) == seq![v]);
    assert(outbound_nodes(obs) == seq![v]);
}


/// Whether the outbound `out` carries the TLS settings `tls`: no `tls` key
/// where TLS is disabled; otherwise the TLS object of `tls`, which says
/// `enabled: true`.
pub open spec fn carries_tls(out: DocView, tls: TlsView) -> bool {
    if tls.enabled {
        &&& get_spec(out, "tls"@) == tls_json(tls)
        &&& get_spec(out, "tls"@) matches Some(t) && get_spec(t, "enabled"@) == Some(DocView::Bool(true))
    } else {
        get_spec(out, "tls"@) is None
    }
}

/// The outbound written for a node carries that node's own TLS settings,
/// whatever its protocol: a node with TLS disabled gets no `tls` key.
pub proof fn lemma_outbound_tls(n: NodeView)
    ensures
        match n.protocol {
            ProtocolView::Vless(c) => carries_tls(outbound_spec(n), c.tls),
            ProtocolView::Vmess(c) => carries_tls(outbound_spec(n), c.tls),
            ProtocolView::Trojan(c) => carries_tls(outbound_spec(n), c.tls),
            ProtocolView::AnyTls(c) => carries_tls(outbound_spec(n), c.tls),
            ProtocolView::Tuic(c) => carries_tls(outbound_spec(n), c.tls),
        },
{
    broadcast use lemma_lookup_push;

    lemma_key_facts();
    reveal_strlit("type");
    let f = outbound_fields(n);
    let tls = protocol_tls(n);
    lemma_fields_without_tls(n);
    lemma_without_key_lookup(f, "tls"@, "type"@);
    assert(lookup(f, "tls"@) is None);
    match tls_json(tls) {
        Some(t) => {
            lemma_set_entry_lookup(f, "tls"@, t, "type"@);
            assert(get_spec(outbound_spec(n), "tls"@) == Some(t));
            reveal_strlit("enabled");
            assert(get_spec(t, "enabled"@) == Some(DocView::Bool(true)));
        },
        None => {
            assert(get_spec(outbound_spec(n), "tls"@) is None);
        },
    }
}


/// A key found in a mapping is found with the same value after more
/// entries are added at the end.
proof fn lemma_lookup_prefix(es: Seq<(DocView, DocView)>, more: Seq<(DocView, DocView)>, k: Seq<char>)
    requires
        lookup(es, k) is Some,
    ensures
        lookup(es + more, k) == lookup(es, k),
    decreases more.len(),
{
    broadcast use lemma_lookup_push;

    if more.len() == 0 {
        assert(es + more =~= es);
    } else {
        lemma_lookup_prefix(es, more.drop_last(), k);
        assert(es + more =~= (es + more.drop_last()).push(more.last()));
    }
}

/// The lookups of the head entries of an outbound.
proof fn lemma_head_lookups(ty: Seq<char>, n: NodeView)
    ensures
        lookup(crate::config::outbound_head(ty, n), "tag"@) == Some(DocView::Str("proxy"@)),
        lookup(crate::config::outbound_head(ty, n), "server"@) == Some(DocView::Str(n.server)),
        lookup(crate::config::outbound_head(ty, n), "server_port"@) == Some(DocView::Number(Some(n.port as u64))),
        lookup(crate::config::outbound_head(ty, n), "type"@) == Some(DocView::Str(ty)),
{
    broadcast use lemma_lookup_push;

    lemma_key_facts();
    lemma_head_pushes(ty, n);
}

/// The outbound written for any node is tagged `proxy`, names the node's
/// server and port, and has the type of the node's protocol.
pub proof fn lemma_outbound_head(n: NodeView)
    ensures
        get_spec(outbound_spec(n), "tag"@) == Some(DocView::Str("proxy"@)),
        get_spec(outbound_spec(n), "server"@) == Some(DocView::Str(n.server)),
        get_spec(outbound_spec(n), "server_port"@) == Some(DocView::Number(Some(n.port as u64))),
        get_spec(outbound_spec(n), "type"@) == Some(DocView::Str(
            match n.protocol {
                ProtocolView::Vless(_) => "vless"@,
                ProtocolView::Vmess(_) => "vmess"@,
                ProtocolView::Trojan(_) => "trojan"@,
                ProtocolView::AnyTls(_) => "anytls"@,
                ProtocolView::Tuic(_) => "tuic"@,
            },
        )),
{
    let ty = match n.protocol {
        ProtocolView::Vless(_) => "vless"@,
        ProtocolView::Vmess(_) => "vmess"@,
        ProtocolView::Trojan(_) => "trojan"@,
        ProtocolView::AnyTls(_) => "anytls"@,
        ProtocolView::Tuic(_) => "tuic"@,
    };
    let head = crate::config::outbound_head(ty, n);
    let f = outbound_fields(n);
    assert(f.len() >= 4 && f.subrange(0, 4) =~= head);
    lemma_fields_without_tls(n);
    let es = crate::config::with_tls(f, protocol_tls(n));
    let more = match tls_json(protocol_tls(n)) {
        Some(t) => f.subrange(4, f.len() as int).push(kv("tls"@, t)),
        None => f.subrange(4, f.len() as int),
    };
    assert(es =~= head + more);
    assert(outbound_spec(n) == DocView::Mapping(es));
    lemma_head_lookups(ty, n);
    lemma_lookup_prefix(head, more, "tag"@);
    lemma_lookup_prefix(head, more, "server"@);
    lemma_lookup_prefix(head, more, "server_port"@);
    lemma_lookup_prefix(head, more, "type"@);
}

}
