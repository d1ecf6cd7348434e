use song_bin::app_state::AppState;
use song_bin::error::ProxyError;
use song_bin::import::{
    apply_import, import_fetched_content, import_fetched_content_at, import_from_url,
    import_share_uri, is_share_uri, subscription_name_from_url, ImportKind, ImportResult,
    ImportStep,
};
use song_bin::new_node::import_success_message;
use song_bin::node::{ProxyNode, ProxyProtocol};
use song_bin::protocol::TrojanConfig;
use song_bin::settings::AppSettings;
use song_bin::subscription::{Subscription, UtcTime};

fn empty_state() -> AppState {
    AppState::load(AppSettings::default(), Vec::new(), Vec::new())
}

#[test]
fn share_uri_schemes() {
    assert!(is_share_uri("vless://x"));
    assert!(is_share_uri("vmess://x"));
    assert!(is_share_uri("trojan://x"));
    assert!(is_share_uri("tuic://x"));
    assert!(is_share_uri("anytls://x"));
    assert!(!is_share_uri("ss://x"));
    assert!(!is_share_uri("https://x"));
    assert!(!is_share_uri(" vless://x"));
}

#[test]
fn import_from_url_steps() {
    let e = import_from_url("   ", ImportKind::Node).unwrap_err();
    assert_eq!(e, ProxyError::EmptyUrl);
    assert_eq!(e.message(), "URL 不能为空");

    match import_from_url("  trojan://pw@t.example:443#T \n", ImportKind::Node).unwrap() {
        ImportStep::Done(ImportResult::Nodes(ns)) => {
            assert_eq!(ns.len(), 1);
            assert_eq!(ns[0].name, "T");
        }
        other => panic!("unexpected {:?}", other),
    }

    let e = import_from_url("trojan://pw@t.example:443#T", ImportKind::Subscription).unwrap_err();
    assert_eq!(e, ProxyError::ShareLinkIsNode);
    assert_eq!(e.message(), "该链接为单个节点分享链接，请使用「从 URL 中导入节点」");

    match import_from_url(" https://sub.example/s?t=1 ", ImportKind::Subscription).unwrap() {
        ImportStep::Fetch(u) => assert_eq!(u, "https://sub.example/s?t=1"),
        other => panic!("unexpected {:?}", other),
    }
    match import_from_url("http://sub.example", ImportKind::Node).unwrap() {
        ImportStep::Fetch(u) => assert_eq!(u, "http://sub.example"),
        other => panic!("unexpected {:?}", other),
    }

    let e = import_from_url("ftp://x.example", ImportKind::Node).unwrap_err();
    assert_eq!(e, ProxyError::UnsupportedUrl);
    assert_eq!(e.message(), "不支持的 URL 格式，请输入 http(s) 链接或节点分享链接");

    // A share link that does not parse keeps its error.
    assert_eq!(
        import_from_url("vless://:443", ImportKind::Node).unwrap_err(),
        ProxyError::InvalidUrl("empty host".to_string())
    );
}

#[test]
fn share_uri_import_by_kind() {
    match import_share_uri("anytls://p@a.example:1#A", ImportKind::Node).unwrap() {
        ImportResult::Nodes(ns) => assert_eq!(ns[0].server, "a.example"),
        other => panic!("unexpected {:?}", other),
    }
    assert_eq!(
        import_share_uri("anytls://p@a.example:1#A", ImportKind::Subscription).unwrap_err(),
        ProxyError::ShareLinkIsNode
    );
}

#[test]
fn subscription_names() {
    assert_eq!(subscription_name_from_url("https://sub.example.com/path?x=1"), "sub.example.com");
    assert_eq!(subscription_name_from_url("not a url"), "订阅");
    assert_eq!(subscription_name_from_url("mailto:someone"), "订阅");
}

#[test]
fn fetched_content_as_subscription() {
    let now = UtcTime { secs: 1_700_000_000, nanos: 5 };
    // Subscription content is usually base64 of the link list.
    let content = base64::Engine::encode(
        &base64::engine::general_purpose::STANDARD,
        "trojan://pw@t.example:443#T\nvless://u@v.example:443#V\n",
    );
    let content = content.as_str();
    match import_fetched_content_at("https://sub.example/list", content, ImportKind::Subscription, now).unwrap() {
        ImportResult::Subscription(s) => {
            assert_eq!(s.name, "sub.example");
            assert_eq!(s.url, "https://sub.example/list");
            assert_eq!(s.nodes.len(), 2);
            assert_eq!(s.nodes[1].name, "V");
            assert_eq!(s.last_updated, Some(now));
            assert!(s.enabled);
        }
        other => panic!("unexpected {:?}", other),
    }
    match import_fetched_content_at("https://sub.example/list", content, ImportKind::Node, now).unwrap() {
        ImportResult::Nodes(ns) => {
            assert_eq!(ns.len(), 2);
            assert_eq!(ns[0].name, "T");
        }
        other => panic!("unexpected {:?}", other),
    }
}

#[test]
fn fetched_content_single_node() {
    let now = UtcTime { secs: 0, nanos: 0 };
    // A share link (after trimming) is one node.
    match import_fetched_content_at("https://x.example", "  vless://u@v.example:1#One \n", ImportKind::Node, now).unwrap() {
        ImportResult::Nodes(ns) => {
            assert_eq!(ns.len(), 1);
            assert_eq!(ns[0].name, "One");
        }
        other => panic!("unexpected {:?}", other),
    }
    assert_eq!(
        import_fetched_content_at("https://x.example", "vless://u@v.example:1#One", ImportKind::Subscription, now)
            .unwrap_err(),
        ProxyError::ShareLinkIsNode
    );
}

#[test]
fn fetched_plain_list_starting_with_a_link_is_one_link() {
    // Content that starts with a share link is read as that one link, as a
    // pasted link would be: a subscription import refuses it.
    let now = UtcTime { secs: 0, nanos: 0 };
    let content = "trojan://pw@t.example:443#T\nvless://u@v.example:443#V\n";
    assert_eq!(
        import_fetched_content_at("https://sub.example/list", content, ImportKind::Subscription, now).unwrap_err(),
        ProxyError::ShareLinkIsNode
    );
}

#[test]
fn fetched_content_errors() {
    let now = UtcTime { secs: 0, nanos: 0 };
    let e = import_fetched_content_at("https://x.example", "<html>nothing</html>", ImportKind::Subscription, now)
        .unwrap_err();
    assert_eq!(e, ProxyError::UnrecognizedFormat);
    // An unsupported single link in the content is refused as the subscription parser refuses it.
    let e = import_fetched_content("https://x.example", "ss://abc", ImportKind::Node).unwrap_err();
    assert_eq!(e, ProxyError::UnrecognizedFormat);
    assert_eq!(ProxyError::ContentIsNode.message(), "该链接内容为单个节点，请使用「从 URL 中导入节点」");
}

#[test]
fn fetched_content_now_is_stamped() {
    match import_fetched_content("https://s.example/a", "# nodes\ntrojan://pw@t.example:443#T\ntrojan://pw@u.example:443#U", ImportKind::Subscription).unwrap() {
        ImportResult::Subscription(s) => {
            assert_eq!(s.nodes.len(), 2);
            assert!(s.last_updated.is_some());
            assert!(s.last_updated.unwrap().secs > 1_600_000_000);
        }
        other => panic!("unexpected {:?}", other),
    }
}

fn trojan_node(name: &str) -> ProxyNode {
    ProxyNode::new(
        name.to_string(),
        "t.example".to_string(),
        443,
        ProxyProtocol::Trojan(TrojanConfig { password: "p".to_string(), ..TrojanConfig::default() }),
    )
}

#[test]
fn apply_import_appends() {
    let mut state = empty_state();
    state.add_node(trojan_node("first"));
    apply_import(&mut state, ImportResult::Nodes(vec![trojan_node("a"), trojan_node("b")]));
    let names: Vec<&str> = state.nodes.iter().map(|n| n.name.as_str()).collect();
    assert_eq!(names, vec!["first", "a", "b"]);
    assert!(state.subscriptions.is_empty());

    let mut sub = Subscription::new("s".to_string(), "https://s".to_string());
    sub.nodes.push(trojan_node("sub-node"));
    apply_import(&mut state, ImportResult::Subscription(sub));
    assert_eq!(state.subscriptions.len(), 1);
    assert_eq!(state.subscriptions[0].name, "s");
    assert_eq!(state.nodes.len(), 3);
}

#[test]
fn success_messages() {
    let r = ImportResult::Nodes(vec![trojan_node("a"), trojan_node("b")]);
    assert_eq!(import_success_message(&r), "已导入 2 个节点");
    let mut sub = Subscription::new("机场".to_string(), "https://s".to_string());
    sub.nodes.push(trojan_node("x"));
    let r = ImportResult::Subscription(sub);
    assert_eq!(import_success_message(&r), "已添加订阅「机场」，共 1 个节点");
}
