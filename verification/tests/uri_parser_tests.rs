use song_bin::error::ProxyError;
use song_bin::node::{NodeSource, ProxyProtocol};
use song_bin::uri_parser::{parse_lines, parse_uri};

#[test]
fn vless_link_is_read() {
    let n = parse_uri("vless://abc-uuid@example.com:8443?flow=xtls-rprx-vision&security=tls&sni=sni.example.com&alpn=h2,http/1.1&allowInsecure=1#My%20Node").unwrap();
    assert_eq!(n.name, "My Node");
    assert_eq!(n.server, "example.com");
    assert_eq!(n.port, 8443);
    assert!(n.enabled);
    assert_eq!(n.latency, None);
    assert_eq!(n.source, NodeSource::Manual);
    match n.protocol {
        ProxyProtocol::Vless(c) => {
            assert_eq!(c.uuid, "abc-uuid");
            assert_eq!(c.flow, "xtls-rprx-vision");
            assert!(c.tls.enabled);
            assert_eq!(c.tls.server_name, "sni.example.com");
            assert!(c.tls.insecure);
            assert_eq!(c.tls.alpn, vec!["h2".to_string(), "http/1.1".to_string()]);
        }
        other => panic!("unexpected {:?}", other),
    }
}

#[test]
fn vless_security_none_disables_tls_and_default_port() {
    let n = parse_uri("vless://u@host.example?security=none&peer=p.example").unwrap();
    assert_eq!(n.port, 443);
    assert_eq!(n.name, "host.example:0");
    match n.protocol {
        ProxyProtocol::Vless(c) => {
            assert!(!c.tls.enabled);
            assert_eq!(c.tls.server_name, "p.example");
            assert!(c.tls.alpn.is_empty());
            assert_eq!(c.flow, "");
        }
        other => panic!("unexpected {:?}", other),
    }
}

#[test]
fn unsupported_and_schemeless() {
    assert_eq!(parse_uri("ss://abc").unwrap_err(), ProxyError::UnsupportedScheme("ss".to_string()));
    assert_eq!(parse_uri("hello").unwrap_err(), ProxyError::NoScheme);
    assert_eq!(parse_uri("ss://abc").unwrap_err().message(), "不支持的 URI 协议: ss");
}

#[test]
fn vmess_link_is_read() {
    let json = r#"{"v":"2","ps":"vm","add":"1.2.3.4","port":"10086","id":"id-1","aid":"2","scy":"aes-128-gcm","tls":"tls","sni":"s.example"}"#;
    let b64 = base64::Engine::encode(&base64::engine::general_purpose::STANDARD, json);
    let n = parse_uri(&format!("vmess://{}", b64)).unwrap();
    assert_eq!(n.name, "vm");
    assert_eq!(n.server, "1.2.3.4");
    assert_eq!(n.port, 10086);
    match n.protocol {
        ProxyProtocol::Vmess(c) => {
            assert_eq!(c.uuid, "id-1");
            assert_eq!(c.alter_id, 2);
            assert_eq!(c.security, "aes-128-gcm");
            assert!(c.tls.enabled);
            assert_eq!(c.tls.server_name, "s.example");
        }
        other => panic!("unexpected {:?}", other),
    }
}

#[test]
fn lines_skip_comments_and_bad_links() {
    let content = "# comment\n\n  trojan://pw@t.example:443#T  \r\nnot a link\nanytls://pw2@a.example:9443?sni=x#A\n";
    let nodes = parse_lines(content).unwrap();
    assert_eq!(nodes.len(), 2);
    assert_eq!(nodes[0].name, "T");
    assert_eq!(nodes[1].name, "A");
}
