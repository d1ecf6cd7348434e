use song_bin::config::generate_config;
use song_bin::doc::DocValue;
use song_bin::node::{ProxyNode, ProxyProtocol};
use song_bin::protocol::{AnyTlsConfig, TlsConfig, TrojanConfig, TuicConfig, VlessConfig};
use song_bin::settings::ProxyMode;
use song_bin::singbox_parser::parse_outbounds;

fn to_json(v: &DocValue) -> serde_json::Value {
    match v {
        DocValue::Null => serde_json::Value::Null,
        DocValue::Bool(b) => serde_json::Value::Bool(*b),
        DocValue::Number(Some(n)) => serde_json::Value::from(*n),
        DocValue::Number(None) => serde_json::Value::Null,
        DocValue::Str(s) => serde_json::Value::String(s.clone()),
        DocValue::List(items) => serde_json::Value::Array(items.iter().map(to_json).collect()),
        DocValue::Mapping(entries) => {
            let mut m = serde_json::Map::new();
            for (k, v) in entries {
                if let DocValue::Str(k) = k {
                    m.insert(k.clone(), to_json(v));
                }
            }
            serde_json::Value::Object(m)
        }
        DocValue::Tagged(inner) => to_json(inner),
    }
}

fn parse(s: &str) -> serde_json::Value {
    serde_json::from_str(s).unwrap()
}

fn trojan_node() -> ProxyNode {
    ProxyNode::new(
        "t".to_string(),
        "t.example".to_string(),
        8443,
        ProxyProtocol::Trojan(TrojanConfig {
            password: "pw".to_string(),
            tls: TlsConfig {
                enabled: true,
                server_name: "sni.t".to_string(),
                insecure: true,
                alpn: vec!["h2".to_string()],
                reality: None,
            },
            transport: None,
        }),
    )
}

#[test]
fn rule_mode_config() {
    let cfg = to_json(&generate_config(&trojan_node(), ProxyMode::Rule, 7890, 9090));
    let expected = parse(
        r#"{
        "log": {"level": "info", "timestamp": true},
        "dns": {
            "servers": [
                {"tag": "google", "address": "tls://8.8.8.8"},
                {"tag": "local", "address": "223.5.5.5", "detour": "direct"}
            ],
            "rules": [{"geosite": ["cn"], "server": "local"}]
        },
        "inbounds": [{"type": "mixed", "tag": "mixed-in", "listen": "127.0.0.1", "listen_port": 7890}],
        "outbounds": [
            {"type": "trojan", "tag": "proxy", "server": "t.example", "server_port": 8443, "password": "pw",
             "tls": {"enabled": true, "server_name": "sni.t", "insecure": true, "alpn": ["h2"]}},
            {"type": "direct", "tag": "direct"},
            {"type": "block", "tag": "block"},
            {"type": "dns", "tag": "dns-out"}
        ],
        "route": {
            "final": "proxy",
            "auto_detect_interface": true,
            "rules": [
                {"protocol": "dns", "outbound": "dns-out"},
                {"geoip": ["private"], "outbound": "direct"},
                {"geosite": ["cn"], "geoip": ["cn"], "outbound": "direct"}
            ]
        },
        "experimental": {"clash_api": {"external_controller": "127.0.0.1:9090", "store_selected": true}}
    }"#,
    );
    assert_eq!(cfg, expected);
}

#[test]
fn global_and_direct_routes() {
    let cfg = to_json(&generate_config(&trojan_node(), ProxyMode::Global, 1080, 19090));
    assert_eq!(cfg["route"], parse(r#"{"final": "proxy", "auto_detect_interface": true}"#));
    assert_eq!(cfg["inbounds"][0]["listen_port"], serde_json::Value::from(1080u64));
    assert_eq!(cfg["experimental"]["clash_api"]["external_controller"], "127.0.0.1:19090");
    let cfg = to_json(&generate_config(&trojan_node(), ProxyMode::Direct, 1080, 19090));
    assert_eq!(cfg["route"], parse(r#"{"final": "direct", "auto_detect_interface": true}"#));
}

#[test]
fn vless_outbound_without_tls_or_flow() {
    let node = ProxyNode::new(
        "v".to_string(),
        "v.example".to_string(),
        443,
        ProxyProtocol::Vless(VlessConfig {
            uuid: "u".to_string(),
            flow: String::new(),
            tls: TlsConfig { enabled: false, ..TlsConfig::default() },
            transport: None,
        }),
    );
    let cfg = to_json(&generate_config(&node, ProxyMode::Rule, 7890, 9090));
    assert_eq!(
        cfg["outbounds"][0],
        parse(r#"{"type": "vless", "tag": "proxy", "server": "v.example", "server_port": 443, "uuid": "u"}"#)
    );
}

#[test]
fn anytls_and_tuic_outbounds() {
    let node = ProxyNode::new(
        "a".to_string(),
        "a.example".to_string(),
        9443,
        ProxyProtocol::AnyTls(AnyTlsConfig {
            password: "p".to_string(),
            min_padding_len: 1,
            max_padding_len: 5,
            tls: TlsConfig { alpn: Vec::new(), ..TlsConfig::default() },
            ..AnyTlsConfig::default()
        }),
    );
    let cfg = to_json(&generate_config(&node, ProxyMode::Rule, 7890, 9090));
    assert_eq!(
        cfg["outbounds"][0],
        parse(
            r#"{"type": "anytls", "tag": "proxy", "server": "a.example", "server_port": 9443, "password": "p",
                "idle_timeout": "15m", "padding_scheme": "1:5", "tls": {"enabled": true}}"#
        )
    );
    let node = ProxyNode::new(
        "u".to_string(),
        "u.example".to_string(),
        443,
        ProxyProtocol::Tuic(TuicConfig { uuid: "id".to_string(), password: "pw".to_string(), ..TuicConfig::default() }),
    );
    let cfg = to_json(&generate_config(&node, ProxyMode::Rule, 7890, 9090));
    assert_eq!(
        cfg["outbounds"][0],
        parse(
            r#"{"type": "tuic", "tag": "proxy", "server": "u.example", "server_port": 443, "uuid": "id", "password": "pw",
                "congestion_control": "bbr", "udp_relay_mode": "native", "zero_rtt_handshake": false,
                "heartbeat": "10s", "tls": {"enabled": true, "alpn": ["h2", "http/1.1"]}}"#
        )
    );
}

#[test]
fn generated_outbound_reads_back() {
    // The proxy outbound of a generated config reads back as the node,
    // under the outbound's tag.
    let node = trojan_node();
    let cfg = generate_config(&node, ProxyMode::Rule, 7890, 9090);
    let back = parse_outbounds(&cfg).unwrap();
    assert_eq!(back.len(), 1);
    assert_eq!(back[0].name, "proxy");
    assert_eq!(back[0].server, node.server);
    assert_eq!(back[0].port, node.port);
    match (&back[0].protocol, &node.protocol) {
        (ProxyProtocol::Trojan(a), ProxyProtocol::Trojan(b)) => {
            assert_eq!(a.password, b.password);
            assert_eq!(a.tls.server_name, b.tls.server_name);
            assert_eq!(a.tls.insecure, b.tls.insecure);
            assert_eq!(a.tls.alpn, b.tls.alpn);
            assert_eq!(a.tls.enabled, b.tls.enabled);
        }
        other => panic!("unexpected {:?}", other),
    }
}
