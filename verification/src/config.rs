//! The sing-box configuration that runs one node.
use vstd::prelude::*;
use crate::doc::{
    entries_view, items_view, kv, lemma_set_entry_lookup, lemma_without_key_idempotent,
    lemma_without_key_push, list, lookup, object, push_entry, push_item, set_entry, set_entry_in,
    string_list, string_value, without_key, DocValue, DocView,
};
use crate::node::{host_port, host_port_spec, NodeView, ProtocolView, ProxyNode, ProxyProtocol};
use crate::protocol::{strings_view, TlsConfig, TlsView};
use crate::settings::ProxyMode;
use crate::text::{dec_spec, u64_to_string};

verus! {

/// A string value.
pub open spec fn js(s: Seq<char>) -> DocView {
    DocView::Str(s)
}

/// A number value.
pub open spec fn jn(n: u64) -> DocView {
    DocView::Number(Some(n))
}

/// The `tls` object of an outbound, or `None` where TLS is disabled: `enabled`,
/// then each of `server_name`, `insecure`, `alpn` and `reality` when set.
pub open spec fn tls_json(tls: TlsView) -> Option<DocView> {
    if !tls.enabled {
        None
    } else {
        let e0 = seq![kv("enabled"@, DocView::Bool(true))];
        let e1 = if tls.server_name.len() > 0 {
            e0.push(kv("server_name"@, js(tls.server_name)))
        } else {
            e0
        };
        let e2 = if tls.insecure {
            e1.push(kv("insecure"@, DocView::Bool(true)))
        } else {
            e1
        };
        let e3 = if tls.alpn.len() > 0 {
            e2.push(kv("alpn"@, DocView::List(tls.alpn.map_values(|s: Seq<char>| js(s)))))
        } else {
            e2
        };
        let e4 = match tls.reality {
            Some(r) => e3.push(
                kv(
                    "reality"@,
                    DocView::Mapping(
                        seq![
                            kv("enabled"@, DocView::Bool(true)),
                            kv("public_key"@, js(r.public_key)),
                            kv("short_id"@, js(r.short_id)),
                        ],
                    ),
                ),
            ),
            None => e3,
        };
        Some(DocView::Mapping(e4))
    }
}

/// `entries` with the key `tls` set to the TLS object where TLS is enabled,
/// and unchanged otherwise.
pub open spec fn with_tls(entries: Seq<(DocView, DocView)>, tls: TlsView) -> Seq<(DocView, DocView)> {
    match tls_json(tls) {
        Some(t) => set_entry(entries, "tls"@, t),
        None => entries,
    }
}

/// The entries every outbound starts with.
pub open spec fn outbound_head(ty: Seq<char>, n: NodeView) -> Seq<(DocView, DocView)> {
    seq![
        kv("type"@, js(ty)),
        kv("tag"@, js("proxy"@)),
        kv("server"@, js(n.server)),
        kv("server_port"@, jn(n.port as u64)),
    ]
}

/// The entries of a node's `proxy` outbound before its TLS settings.
pub open spec fn outbound_fields(n: NodeView) -> Seq<(DocView, DocView)> {
    match n.protocol {
        ProtocolView::Vless(c) => {
            let e = outbound_head("vless"@, n).push(kv("uuid"@, js(c.uuid)));
            if c.flow.len() > 0 {
                e.push(kv("flow"@, js(c.flow)))
            } else {
                e
            }
        },
        ProtocolView::Vmess(c) => outbound_head("vmess"@, n).push(kv("uuid"@, js(c.uuid))).push(
            kv("security"@, js(c.security)),
        ).push(kv("alter_id"@, jn(c.alter_id as u64))),
        ProtocolView::Trojan(c) => outbound_head("trojan"@, n).push(kv("password"@, js(c.password))),
        ProtocolView::AnyTls(c) => {
            let e = outbound_head("anytls"@, n).push(kv("password"@, js(c.password))).push(
                kv("idle_timeout"@, js(c.idle_timeout)),
            );
            if c.min_padding_len > 0 || c.max_padding_len > 0 {
                e.push(
                    kv(
                        "padding_scheme"@,
                        js(dec_spec(c.min_padding_len as nat) + ":"@ + dec_spec(c.max_padding_len as nat)),
                    ),
                )
            } else {
                e
            }
        },
        ProtocolView::Tuic(c) => {
            let e = outbound_head("tuic"@, n).push(kv("uuid"@, js(c.uuid))).push(
                kv("password"@, js(c.password)),
            ).push(kv("congestion_control"@, js(c.congestion_control))).push(
                kv("udp_relay_mode"@, js(c.udp_relay_mode)),
            ).push(kv("zero_rtt_handshake"@, DocView::Bool(c.zero_rtt_handshake)));
            if c.heartbeat.len() > 0 {
                e.push(kv("heartbeat"@, js(c.heartbeat)))
            } else {
                e
            }
        },
    }
}

/// The TLS settings of a node's protocol.
pub open spec fn protocol_tls(n: NodeView) -> TlsView {
    match n.protocol {
        ProtocolView::Vless(c) => c.tls,
        ProtocolView::Vmess(c) => c.tls,
        ProtocolView::Trojan(c) => c.tls,
        ProtocolView::AnyTls(c) => c.tls,
        ProtocolView::Tuic(c) => c.tls,
    }
}

/// The `proxy` outbound of a node: its fields, with `tls` set where TLS is
/// enabled.
pub open spec fn outbound_spec(n: NodeView) -> DocView {
    DocView::Mapping(with_tls(outbound_fields(n), protocol_tls(n)))
}

/// Sets the key `tls` of an outbound to the TLS object of `tls`, where TLS
/// is enabled: a lookup of `tls` then finds that object and every other key
/// keeps its value. Disabled TLS leaves the outbound as it is.
fn apply_tls(ob: &mut Vec<(DocValue, DocValue)>, tls: &TlsConfig)
    ensures
        entries_view(final(ob)@) == with_tls(entries_view(old(ob)@), tls@),
        !tls.enabled ==> final(ob)@ == old(ob)@,
        tls.enabled ==> lookup(entries_view(final(ob)@), "tls"@) == tls_json(tls@),
        tls.enabled ==> without_key(entries_view(final(ob)@), "tls"@) == without_key(
            entries_view(old(ob)@),
            "tls"@,
        ),
{
    if !tls.enabled {
        return;
    }
    let ghost tv = tls@;
    let mut t: Vec<(DocValue, DocValue)> = Vec::new();
    push_entry(&mut t, "enabled", DocValue::Bool(true));
    let ghost e0 = seq![kv("enabled"@, DocView::Bool(true))];
    assert(entries_view(t@) =~= e0);
    if !tls.server_name.as_str().is_empty() {
        push_entry(&mut t, "server_name", string_value(tls.server_name.as_str()));
    }
    let ghost e1 = if tv.server_name.len() > 0 {
        e0.push(kv("server_name"@, js(tv.server_name)))
    } else {
        e0
    };
    assert(entries_view(t@) == e1);
    if tls.insecure {
        push_entry(&mut t, "insecure", DocValue::Bool(true));
    }
    let ghost e2 = if tv.insecure {
        e1.push(kv("insecure"@, DocView::Bool(true)))
    } else {
        e1
    };
    assert(entries_view(t@) == e2);
    if tls.alpn.len() > 0 {
        let a = string_list(&tls.alpn);
        assert(strings_view(tls.alpn@).map_values(|s: Seq<char>| js(s)) =~= tls.alpn@.map_values(
            |s: String| DocView::Str(s@),
        ));
        push_entry(&mut t, "alpn", a);
    }
    let ghost e3 = if tv.alpn.len() > 0 {
        e2.push(kv("alpn"@, DocView::List(tv.alpn.map_values(|s: Seq<char>| js(s)))))
    } else {
        e2
    };
    assert(entries_view(t@) == e3);
    match &tls.reality {
        Some(r) => {
            let mut re: Vec<(DocValue, DocValue)> = Vec::new();
            push_entry(&mut re, "enabled", DocValue::Bool(true));
            push_entry(&mut re, "public_key", string_value(r.public_key.as_str()));
            push_entry(&mut re, "short_id", string_value(r.short_id.as_str()));
            assert(entries_view(re@) =~= seq![
                kv("enabled"@, DocView::Bool(true)),
                kv("public_key"@, js(r.public_key@)),
                kv("short_id"@, js(r.short_id@)),
            ]);
            push_entry(&mut t, "reality", object(re));
        },
        None => {},
    }
    assert(Some(DocView::Mapping(entries_view(t@))) == tls_json(tv));
    let ghost before = entries_view(ob@);
    let tobj = object(t);
    set_entry_in(ob, "tls", tobj);
    proof {
        reveal_strlit("tls");
        reveal_strlit("enabled");
        assert("tls"@.len() != "enabled"@.len());
        lemma_set_entry_lookup(before, "tls"@, tobj@, "enabled"@);
        assert(without_key(entries_view(ob@), "tls"@) =~= without_key(before, "tls"@)) by {
            lemma_without_key_push(without_key(before, "tls"@), kv("tls"@, tobj@), "tls"@);
            lemma_without_key_idempotent(before, "tls"@);
        }
    }
}

/// The entries every outbound starts with.
fn outbound_head_entries(ty: &str, node: &ProxyNode) -> (res: Vec<(DocValue, DocValue)>)
    ensures
        entries_view(res@) == outbound_head(ty@, node@),
{
    let mut e: Vec<(DocValue, DocValue)> = Vec::new();
    push_entry(&mut e, "type", string_value(ty));
    push_entry(&mut e, "tag", string_value("proxy"));
    push_entry(&mut e, "server", string_value(node.server.as_str()));
    push_entry(&mut e, "server_port", DocValue::Number(Some(node.port as u64)));
    assert(entries_view(e@) =~= outbound_head(ty@, node@));
    e
}

/// The `proxy` outbound of a node.
fn node_to_outbound(node: &ProxyNode) -> (res: DocValue)
    ensures
        res@ == outbound_spec(node@),
{
    match &node.protocol {
        ProxyProtocol::Vless(cfg) => {
            let mut ob = outbound_head_entries("vless", node);
            push_entry(&mut ob, "uuid", string_value(cfg.uuid.as_str()));
            if !cfg.flow.as_str().is_empty() {
                push_entry(&mut ob, "flow", string_value(cfg.flow.as_str()));
            }
            apply_tls(&mut ob, &cfg.tls);
            object(ob)
        },
        ProxyProtocol::Vmess(cfg) => {
            let mut ob = outbound_head_entries("vmess", node);
            push_entry(&mut ob, "uuid", string_value(cfg.uuid.as_str()));
            push_entry(&mut ob, "security", string_value(cfg.security.as_str()));
            push_entry(&mut ob, "alter_id", DocValue::Number(Some(cfg.alter_id as u64)));
            apply_tls(&mut ob, &cfg.tls);
            object(ob)
        },
        ProxyProtocol::Trojan(cfg) => {
            let mut ob = outbound_head_entries("trojan", node);
            push_entry(&mut ob, "password", string_value(cfg.password.as_str()));
            apply_tls(&mut ob, &cfg.tls);
            object(ob)
        },
        ProxyProtocol::AnyTls(cfg) => {
            let mut ob = outbound_head_entries("anytls", node);
            push_entry(&mut ob, "password", string_value(cfg.password.as_str()));
            push_entry(&mut ob, "idle_timeout", string_value(cfg.idle_timeout.as_str()));
            if cfg.min_padding_len > 0 || cfg.max_padding_len > 0 {
                let mut s = u64_to_string(cfg.min_padding_len as u64);
                s.append(":");
                let m = u64_to_string(cfg.max_padding_len as u64);
                s.append(m.as_str());
                push_entry(&mut ob, "padding_scheme", string_value(s.as_str()));
            }
            apply_tls(&mut ob, &cfg.tls);
            object(ob)
        },
        ProxyProtocol::Tuic(cfg) => {
            let mut ob = outbound_head_entries("tuic", node);
            push_entry(&mut ob, "uuid", string_value(cfg.uuid.as_str()));
            push_entry(&mut ob, "password", string_value(cfg.password.as_str()));
            push_entry(&mut ob, "congestion_control", string_value(cfg.congestion_control.as_str()));
            push_entry(&mut ob, "udp_relay_mode", string_value(cfg.udp_relay_mode.as_str()));
            push_entry(&mut ob, "zero_rtt_handshake", DocValue::Bool(cfg.zero_rtt_handshake));
            if !cfg.heartbeat.as_str().is_empty() {
                push_entry(&mut ob, "heartbeat", string_value(cfg.heartbeat.as_str()));
            }
            apply_tls(&mut ob, &cfg.tls);
            object(ob)
        },
    }
}


/// The `route` section for a proxy mode.
pub open spec fn route_spec(mode: ProxyMode) -> DocView {
    match mode {
        ProxyMode::Global => DocView::Mapping(
            seq![kv("final"@, js("proxy"@)), kv("auto_detect_interface"@, DocView::Bool(true))],
        ),
        ProxyMode::Direct => DocView::Mapping(
            seq![kv("final"@, js("direct"@)), kv("auto_detect_interface"@, DocView::Bool(true))],
        ),
        ProxyMode::Rule => DocView::Mapping(
            seq![
                kv("final"@, js("proxy"@)),
                kv("auto_detect_interface"@, DocView::Bool(true)),
                kv(
                    "rules"@,
                    DocView::List(
                        seq![
                            DocView::Mapping(
                                seq![kv("protocol"@, js("dns"@)), kv("outbound"@, js("dns-out"@))],
                            ),
                            DocView::Mapping(
                                seq![
                                    kv("geoip"@, DocView::List(seq![js("private"@)])),
                                    kv("outbound"@, js("direct"@)),
                                ],
                            ),
                            DocView::Mapping(
                                seq![
                                    kv("geosite"@, DocView::List(seq![js("cn"@)])),
                                    kv("geoip"@, DocView::List(seq![js("cn"@)])),
                                    kv("outbound"@, js("direct"@)),
                                ],
                            ),
                        ],
                    ),
                ),
            ],
        ),
    }
}

/// The `log` section.
pub open spec fn log_spec() -> DocView {
    DocView::Mapping(seq![kv("level"@, js("info"@)), kv("timestamp"@, DocView::Bool(true))])
}

/// The `dns` section: a remote resolver over TLS, a local one reached
/// directly, and the local one for Chinese sites.
pub open spec fn dns_spec() -> DocView {
    DocView::Mapping(
        seq![
            kv(
                "servers"@,
                DocView::List(
                    seq![
                        DocView::Mapping(
                            seq![kv("tag"@, js("google"@)), kv("address"@, js("tls://8.8.8.8"@))],
                        ),
                        DocView::Mapping(
                            seq![
                                kv("tag"@, js("local"@)),
                                kv("address"@, js("223.5.5.5"@)),
                                kv("detour"@, js("direct"@)),
                            ],
                        ),
                    ],
                ),
            ),
            kv(
                "rules"@,
                DocView::List(
                    seq![
                        DocView::Mapping(
                            seq![
                                kv("geosite"@, DocView::List(seq![js("cn"@)])),
                                kv("server"@, js("local"@)),
                            ],
                        ),
                    ],
                ),
            ),
        ],
    )
}

/// The `inbounds` section: one mixed inbound on the loopback address.
pub open spec fn inbounds_spec(mixed_port: u16) -> DocView {
    DocView::List(
        seq![
            DocView::Mapping(
                seq![
                    kv("type"@, js("mixed"@)),
                    kv("tag"@, js("mixed-in"@)),
                    kv("listen"@, js("127.0.0.1"@)),
                    kv("listen_port"@, jn(mixed_port as u64)),
                ],
            ),
        ],
    )
}

/// An outbound with only a type and a tag.
pub open spec fn plain_outbound(ty: Seq<char>, tag: Seq<char>) -> DocView {
    DocView::Mapping(seq![kv("type"@, js(ty)), kv("tag"@, js(tag))])
}

/// The `outbounds` section: the node's proxy, then direct, block and dns.
pub open spec fn outbounds_spec(n: NodeView) -> DocView {
    DocView::List(
        seq![
            outbound_spec(n),
            plain_outbound("direct"@, "direct"@),
            plain_outbound("block"@, "block"@),
            plain_outbound("dns"@, "dns-out"@),
        ],
    )
}

/// The `experimental` section: the Clash API on the loopback address.
pub open spec fn experimental_spec(clash_api_port: u16) -> DocView {
    DocView::Mapping(
        seq![
            kv(
                "clash_api"@,
                DocView::Mapping(
                    seq![
                        kv(
                            "external_controller"@,
                            js(host_port_spec("127.0.0.1"@, clash_api_port as nat)),
                        ),
                        kv("store_selected"@, DocView::Bool(true)),
                    ],
                ),
            ),
        ],
    )
}

/// The whole configuration.
pub open spec fn config_spec(n: NodeView, mode: ProxyMode, mixed_port: u16, clash_api_port: u16) -> DocView {
    DocView::Mapping(
        seq![
            kv("log"@, log_spec()),
            kv("dns"@, dns_spec()),
            kv("inbounds"@, inbounds_spec(mixed_port)),
            kv("outbounds"@, outbounds_spec(n)),
            kv("route"@, route_spec(mode)),
            kv("experimental"@, experimental_spec(clash_api_port)),
        ],
    )
}

/// A one-item list holding a string.
fn one_string_list(s: &str) -> (res: DocValue)
    ensures
        res@ == DocView::List(seq![js(s@)]),
{
    let mut v: Vec<DocValue> = Vec::new();
    push_item(&mut v, string_value(s));
    assert(items_view(v@) =~= seq![js(s@)]);
    list(v)
}

/// A mapping with two string entries.
fn pair_object(k1: &str, v1: DocValue, k2: &str, v2: DocValue) -> (res: DocValue)
    ensures
        res@ == DocView::Mapping(seq![kv(k1@, v1@), kv(k2@, v2@)]),
{
    let mut e: Vec<(DocValue, DocValue)> = Vec::new();
    push_entry(&mut e, k1, v1);
    push_entry(&mut e, k2, v2);
    assert(entries_view(e@) =~= seq![kv(k1@, v1@), kv(k2@, v2@)]);
    object(e)
}

/// The `route` section for a proxy mode.
fn route_section(mode: ProxyMode) -> (res: DocValue)
    ensures
        res@ == route_spec(mode),
{
    match mode {
        ProxyMode::Global => pair_object(
            "final",
            string_value("proxy"),
            "auto_detect_interface",
            DocValue::Bool(true),
        ),
        ProxyMode::Direct => pair_object(
            "final",
            string_value("direct"),
            "auto_detect_interface",
            DocValue::Bool(true),
        ),
        ProxyMode::Rule => {
            let r1 = pair_object("protocol", string_value("dns"), "outbound", string_value("dns-out"));
            let r2 = pair_object("geoip", one_string_list("private"), "outbound", string_value("direct"));
            let mut e3: Vec<(DocValue, DocValue)> = Vec::new();
            push_entry(&mut e3, "geosite", one_string_list("cn"));
            push_entry(&mut e3, "geoip", one_string_list("cn"));
            push_entry(&mut e3, "outbound", string_value("direct"));
            let ghost v3 = entries_view(e3@);
            let r3 = object(e3);
            let mut rules: Vec<DocValue> = Vec::new();
            push_item(&mut rules, r1);
            push_item(&mut rules, r2);
            push_item(&mut rules, r3);
            let ghost rv = items_view(rules@);
            let mut e: Vec<(DocValue, DocValue)> = Vec::new();
            push_entry(&mut e, "final", string_value("proxy"));
            push_entry(&mut e, "auto_detect_interface", DocValue::Bool(true));
            push_entry(&mut e, "rules", list(rules));
            assert(entries_view(e@) =~= seq![
                kv("final"@, js("proxy"@)),
                kv("auto_detect_interface"@, DocView::Bool(true)),
                kv("rules"@, DocView::List(rv)),
            ]);
            let res = object(e);
            assert(v3 =~= seq![
                kv("geosite"@, DocView::List(seq![js("cn"@)])),
                kv("geoip"@, DocView::List(seq![js("cn"@)])),
                kv("outbound"@, js("direct"@)),
            ]);
            assert(rv =~= seq![
                DocView::Mapping(seq![kv("protocol"@, js("dns"@)), kv("outbound"@, js("dns-out"@))]),
                DocView::Mapping(
                    seq![kv("geoip"@, DocView::List(seq![js("private"@)])), kv("outbound"@, js("direct"@))],
                ),
                DocView::Mapping(v3),
            ]);
            res
        },
    }
}

/// The `dns` section.
fn dns_section() -> (res: DocValue)
    ensures
        res@ == dns_spec(),
{
    let s1 = pair_object("tag", string_value("google"), "address", string_value("tls://8.8.8.8"));
    let mut e2: Vec<(DocValue, DocValue)> = Vec::new();
    push_entry(&mut e2, "tag", string_value("local"));
    push_entry(&mut e2, "address", string_value("223.5.5.5"));
    push_entry(&mut e2, "detour", string_value("direct"));
    let ghost v2 = entries_view(e2@);
    let s2 = object(e2);
    let mut servers: Vec<DocValue> = Vec::new();
    push_item(&mut servers, s1);
    push_item(&mut servers, s2);
    let ghost sv = items_view(servers@);
    let r = pair_object("geosite", one_string_list("cn"), "server", string_value("local"));
    let mut rules: Vec<DocValue> = Vec::new();
    push_item(&mut rules, r);
    let ghost rv = items_view(rules@);
    let res = pair_object("servers", list(servers), "rules", list(rules));
    assert(v2 =~= seq![kv("tag"@, js("local"@)), kv("address"@, js("223.5.5.5"@)), kv("detour"@, js("direct"@))]);
    assert(sv =~= seq![
        DocView::Mapping(seq![kv("tag"@, js("google"@)), kv("address"@, js("tls://8.8.8.8"@))]),
        DocView::Mapping(v2),
    ]);
    assert(rv =~= seq![
        DocView::Mapping(seq![kv("geosite"@, DocView::List(seq![js("cn"@)])), kv("server"@, js("local"@))]),
    ]);
    res
}

/// The `inbounds` section.
fn inbounds_section(mixed_port: u16) -> (res: DocValue)
    ensures
        res@ == inbounds_spec(mixed_port),
{
    let mut e: Vec<(DocValue, DocValue)> = Vec::new();
    push_entry(&mut e, "type", string_value("mixed"));
    push_entry(&mut e, "tag", string_value("mixed-in"));
    push_entry(&mut e, "listen", string_value("127.0.0.1"));
    push_entry(&mut e, "listen_port", DocValue::Number(Some(mixed_port as u64)));
    let ghost ev = entries_view(e@);
    let mut v: Vec<DocValue> = Vec::new();
    push_item(&mut v, object(e));
    assert(ev =~= seq![
        kv("type"@, js("mixed"@)),
        kv("tag"@, js("mixed-in"@)),
        kv("listen"@, js("127.0.0.1"@)),
        kv("listen_port"@, jn(mixed_port as u64)),
    ]);
    assert(items_view(v@) =~= seq![DocView::Mapping(ev)]);
    list(v)
}

/// The `outbounds` section.
fn outbounds_section(node: &ProxyNode) -> (res: DocValue)
    ensures
        res@ == outbounds_spec(node@),
{
    let mut v: Vec<DocValue> = Vec::new();
    push_item(&mut v, node_to_outbound(node));
    push_item(&mut v, pair_object("type", string_value("direct"), "tag", string_value("direct")));
    push_item(&mut v, pair_object("type", string_value("block"), "tag", string_value("block")));
    push_item(&mut v, pair_object("type", string_value("dns"), "tag", string_value("dns-out")));
    assert(items_view(v@) =~= seq![
        outbound_spec(node@),
        plain_outbound("direct"@, "direct"@),
        plain_outbound("block"@, "block"@),
        plain_outbound("dns"@, "dns-out"@),
    ]);
    list(v)
}

/// The `experimental` section.
fn experimental_section(clash_api_port: u16) -> (res: DocValue)
    ensures
        res@ == experimental_spec(clash_api_port),
{
    let addr = host_port("127.0.0.1", clash_api_port as u64);
    let api = pair_object(
        "external_controller",
        string_value(addr.as_str()),
        "store_selected",
        DocValue::Bool(true),
    );
    let mut e: Vec<(DocValue, DocValue)> = Vec::new();
    push_entry(&mut e, "clash_api", api);
    assert(entries_view(e@) =~= seq![
        kv(
            "clash_api"@,
            DocView::Mapping(
                seq![
                    kv("external_controller"@, js(host_port_spec("127.0.0.1"@, clash_api_port as nat))),
                    kv("store_selected"@, DocView::Bool(true)),
                ],
            ),
        ),
    ]);
    object(e)
}

/// The sing-box configuration that runs `node` in `mode`, listening on
/// `mixed_port` and serving the Clash API on `clash_api_port`.
pub fn generate_config(node: &ProxyNode, mode: ProxyMode, mixed_port: u16, clash_api_port: u16) -> (res: DocValue)
    ensures
        res@ == config_spec(node@, mode, mixed_port, clash_api_port),
{
    let mut e: Vec<(DocValue, DocValue)> = Vec::new();
    push_entry(&mut e, "log", pair_object("level", string_value("info"), "timestamp", DocValue::Bool(true)));
    push_entry(&mut e, "dns", dns_section());
    push_entry(&mut e, "inbounds", inbounds_section(mixed_port));
    push_entry(&mut e, "outbounds", outbounds_section(node));
    push_entry(&mut e, "route", route_section(mode));
    push_entry(&mut e, "experimental", experimental_section(clash_api_port));
    assert(entries_view(e@) =~= seq![
        kv("log"@, log_spec()),
        kv("dns"@, dns_spec()),
        kv("inbounds"@, inbounds_spec(mixed_port)),
        kv("outbounds"@, outbounds_spec(node@)),
        kv("route"@, route_spec(mode)),
        kv("experimental"@, experimental_spec(clash_api_port)),
    ]);
    object(e)
}

}
