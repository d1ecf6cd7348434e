//! Importing nodes or a subscription from a URL the user pastes.
use vstd::prelude::*;
use crate::app_state::AppState;
use crate::error::{ErrorView, ProxyError};
use crate::node::{nodes_match, NodeView, ProxyNode};
use crate::parser::{parse_subscription_content, subscription_spec};
use crate::subscription::{utc_now, Subscription, UtcTime};
use crate::text::{starts_with_spec, str_starts_with, trim, trim_spec};
use crate::uri_parser::{parse_uri, parse_uri_spec, parse_url, url_parse};

verus! {

/// Whether the user asked for nodes or for a subscription.
#[derive(Clone, Copy, Debug, PartialEq, Eq)]
pub enum ImportKind {
    Node,
    Subscription,
}

/// What an import yields.
#[derive(Debug)]
pub enum ImportResult {
    Nodes(Vec<ProxyNode>),
    Subscription(Subscription),
}

/// The next step of an import from a URL: done, or the content of an
/// http(s) URL is needed (see `import_fetched_content`).
#[derive(Debug)]
pub enum ImportStep {
    Done(ImportResult),
    Fetch(String),
}

/// `s` starts with the scheme of a supported share link.
pub open spec fn is_share_uri_spec(s: Seq<char>) -> bool {
    ||| starts_with_spec(s, "vless://"@)
    ||| starts_with_spec(s, "vmess://"@)
    ||| starts_with_spec(s, "trojan://"@)
    ||| starts_with_spec(s, "tuic://"@)
    ||| starts_with_spec(s, "anytls://"@)
}

/// Whether `s` starts with the scheme of a supported share link.
pub fn is_share_uri(s: &str) -> (res: bool)
    ensures
        res == is_share_uri_spec(s@),
{
    str_starts_with(s, "vless://") || str_starts_with(s, "vmess://") || str_starts_with(
        s,
        "trojan://",
    ) || str_starts_with(s, "tuic://") || str_starts_with(s, "anytls://")
}

/// `res` is the import of the single node `v` (up to its id) when nodes were
/// asked for, and the error `refusal` when a subscription was asked for.
pub open spec fn single_node_outcome(
    res: Result<ImportResult, ProxyError>,
    v: NodeView,
    kind: ImportKind,
    refusal: ErrorView,
) -> bool {
    match kind {
        ImportKind::Node => res matches Ok(ImportResult::Nodes(ns)) && nodes_match(ns@, seq![v]),
        ImportKind::Subscription => res matches Err(e) && e@ == refusal,
    }
}

/// The outcome of importing a share link.
pub open spec fn share_uri_outcome(res: Result<ImportResult, ProxyError>, uri: Seq<char>, kind: ImportKind) -> bool {
    match parse_uri_spec(uri) {
        Err(e) => res matches Err(x) && x@ == e,
        Ok(v) => single_node_outcome(res, v, kind, ErrorView::ShareLinkIsNode),
    }
}

/// Imports one share link: its node, when nodes were asked for.
pub fn import_share_uri(uri: &str, kind: ImportKind) -> (res: Result<ImportResult, ProxyError>)
    ensures
        share_uri_outcome(res, uri@, kind),
{
    let node = parse_uri(uri)?;
    match kind {
        ImportKind::Node => {
            let mut v: Vec<ProxyNode> = Vec::new();
            v.push(node);
            Ok(ImportResult::Nodes(v))
        },
        ImportKind::Subscription => Err(ProxyError::ShareLinkIsNode),
    }
}

/// The outcome of the first step of importing `url`: refused when empty;
/// a share link is imported at once; an http(s) URL is to be fetched;
/// anything else is refused.
pub open spec fn import_step_outcome(res: Result<ImportStep, ProxyError>, url: Seq<char>, kind: ImportKind) -> bool {
    let t = trim_spec(url);
    if t.len() == 0 {
        res matches Err(e) && e@ == ErrorView::EmptyUrl
    } else if is_share_uri_spec(t) {
        match res {
            Ok(ImportStep::Done(r)) => share_uri_outcome(Ok(r), t, kind),
            Ok(ImportStep::Fetch(_)) => false,
            Err(e) => share_uri_outcome(Err(e), t, kind),
        }
    } else if starts_with_spec(t, "http://"@) || starts_with_spec(t, "https://"@) {
        res matches Ok(ImportStep::Fetch(u)) && u@ == t
    } else {
        res matches Err(e) && e@ == ErrorView::UnsupportedUrl
    }
}

/// The first step of importing from a URL the user pasted (trimmed).
pub fn import_from_url(url: &str, kind: ImportKind) -> (res: Result<ImportStep, ProxyError>)
    ensures
        import_step_outcome(res, url@, kind),
{
    let url = trim(url);
    if url.as_str().is_empty() {
        return Err(ProxyError::EmptyUrl);
    }
    if is_share_uri(url.as_str()) {
        return match import_share_uri(url.as_str(), kind) {
            Ok(r) => Ok(ImportStep::Done(r)),
            Err(e) => Err(e),
        };
    }
    if str_starts_with(url.as_str(), "http://") || str_starts_with(url.as_str(), "https://") {
        return Ok(ImportStep::Fetch(url));
    }
    Err(ProxyError::UnsupportedUrl)
}

/// The name of a subscription read from `url`: its host, else `订阅`.
pub open spec fn subscription_name_spec(url: Seq<char>) -> Seq<char> {
    match url_parse(url) {
        Ok(u) => match u.host {
            Some(h) => h,
            None => "订阅"@,
        },
        Err(_) => "订阅"@,
    }
}

/// The name of a subscription read from `url`: its host, else `订阅`.
pub fn subscription_name_from_url(url: &str) -> (res: String)
    ensures
        res@ == subscription_name_spec(url@),
{
    match parse_url(url) {
        Ok(u) => match u.host {
            Some(h) => h,
            None => "订阅".to_owned(),
        },
        Err(_) => "订阅".to_owned(),
    }
}

/// `res` is the subscription read from `url` at `now`, holding the nodes `vs`.
pub open spec fn subscription_outcome(res: Result<ImportResult, ProxyError>, url: Seq<char>, vs: Seq<NodeView>, now: UtcTime) -> bool {
    res matches Ok(ImportResult::Subscription(s)) && s.name@ == subscription_name_spec(url) && s.url@
        == url && nodes_match(s.nodes@, vs) && s.last_updated == Some(now) && s.enabled
}

/// The outcome of importing the content fetched from `url`, at time `now`:
/// a share link, or a single link, is one node; otherwise the content is
/// read as a subscription, whose nodes are imported as they are or as a new
/// subscription named after the URL's host.
pub open spec fn fetched_outcome(
    res: Result<ImportResult, ProxyError>,
    url: Seq<char>,
    content: Seq<char>,
    kind: ImportKind,
    now: UtcTime,
) -> bool {
    let t = trim_spec(content);
    if is_share_uri_spec(t) {
        share_uri_outcome(res, t, kind)
    } else {
        match parse_uri_spec(t) {
            Ok(v) => single_node_outcome(res, v, kind, ErrorView::ContentIsNode),
            Err(_) => match subscription_spec(content) {
                Err(e) => res matches Err(x) && x@ == e,
                Ok(vs) => match kind {
                    ImportKind::Node => res matches Ok(ImportResult::Nodes(ns)) && nodes_match(ns@, vs),
                    ImportKind::Subscription => subscription_outcome(res, url, vs, now),
                },
            },
        }
    }
}

/// Imports the content fetched from `url`, stamping a new subscription with
/// the time `now`.
pub fn import_fetched_content_at(url: &str, content: &str, kind: ImportKind, now: UtcTime) -> (res: Result<ImportResult, ProxyError>)
    ensures
        fetched_outcome(res, url@, content@, kind, now),
{
    let trimmed = trim(content);
    if is_share_uri(trimmed.as_str()) {
        return import_share_uri(trimmed.as_str(), kind);
    }
    if let Ok(node) = parse_uri(trimmed.as_str()) {
        return match kind {
            ImportKind::Node => {
                let mut v: Vec<ProxyNode> = Vec::new();
                v.push(node);
                Ok(ImportResult::Nodes(v))
            },
            ImportKind::Subscription => Err(ProxyError::ContentIsNode),
        };
    }
    let nodes = parse_subscription_content(content)?;
    match kind {
        ImportKind::Node => Ok(ImportResult::Nodes(nodes)),
        ImportKind::Subscription => {
            let name = subscription_name_from_url(url);
            let mut sub = Subscription::new(name, url.to_owned());
            sub.nodes = nodes;
            sub.last_updated = Some(now);
            Ok(ImportResult::Subscription(sub))
        },
    }
}

/// Imports the content fetched from `url`; a new subscription is stamped
/// with the current time.
pub fn import_fetched_content(url: &str, content: &str, kind: ImportKind) -> (res: Result<ImportResult, ProxyError>)
    ensures
        exists|now: UtcTime|
            now.secs >= 0 && now.nanos < 1_000_000_000 && #[trigger] fetched_outcome(
                res,
                url@,
                content@,
                kind,
                now,
            ),
{
    let now = utc_now();
    import_fetched_content_at(url, content, kind, now)
}

/// Adds the result of an import to the state: the nodes at the end of the
/// manual nodes, or the subscription at the end of the subscriptions. (The
/// caller then saves the state.)
pub fn apply_import(state: &mut AppState, result: ImportResult)
    ensures
        match result {
            ImportResult::Nodes(ns) => final(state).nodes@ == old(state).nodes@ + ns@
                && final(state).subscriptions@ == old(state).subscriptions@,
            ImportResult::Subscription(s) => final(state).subscriptions@ == old(
                state,
            ).subscriptions@.push(s) && final(state).nodes@ == old(state).nodes@,
        },
        final(state).settings == old(state).settings,
        final(state).selected_node_index == old(state).selected_node_index,
        final(state).selected_sub_index == old(state).selected_sub_index,
{
    match result {
        ImportResult::Nodes(nodes) => {
            let mut nodes = nodes;
            state.nodes.append(&mut nodes);
        },
        ImportResult::Subscription(sub) => {
            state.add_subscription(sub);
        },
    }
}


proof fn lemma_scheme_prefix(s: Seq<char>, i: int, scheme: Seq<char>, link: Seq<char>)
    requires
        crate::text::occurs_at(s, "://"@, i),
        s.subrange(0, i) == scheme,
        link =~= scheme + "://"@,
    ensures
        starts_with_spec(s, link),
{
    reveal_strlit("://");
    assert(s.subrange(0, i + 3) =~= s.subrange(0, i) + s.subrange(i, i + 3));
}

/// Every text that `parse_uri` accepts starts with the scheme of a supported
/// share link: what `is_share_uri` recognizes covers all of it.
pub proof fn lemma_parsed_is_share_uri(s: Seq<char>)
    requires
        parse_uri_spec(s) is Ok,
    ensures
        is_share_uri_spec(s),
{
    reveal_strlit("://");
    reveal_strlit("vless");
    reveal_strlit("vmess");
    reveal_strlit("trojan");
    reveal_strlit("tuic");
    reveal_strlit("anytls");
    reveal_strlit("vless://");
    reveal_strlit("vmess://");
    reveal_strlit("trojan://");
    reveal_strlit("tuic://");
    reveal_strlit("anytls://");
    crate::text::lemma_first_occurrence(s, "://"@);
    let i = crate::text::first_occurrence(s, "://"@)->0;
    let scheme = s.subrange(0, i);
    if scheme == "vless"@ {
        lemma_scheme_prefix(s, i, scheme, "vless://"@);
    } else if scheme == "vmess"@ {
        lemma_scheme_prefix(s, i, scheme, "vmess://"@);
    } else if scheme == "trojan"@ {
        lemma_scheme_prefix(s, i, scheme, "trojan://"@);
    } else if scheme == "tuic"@ {
        lemma_scheme_prefix(s, i, scheme, "tuic://"@);
    } else {
        lemma_scheme_prefix(s, i, scheme, "anytls://"@);
    }
}


/// An import yields what was asked for: nodes when nodes were asked for, a
/// subscription when a subscription was asked for.
pub proof fn lemma_fetched_import_respects_kind(
    res: Result<ImportResult, ProxyError>,
    url: Seq<char>,
    content: Seq<char>,
    kind: ImportKind,
    now: UtcTime,
)
    requires
        fetched_outcome(res, url, content, kind, now),
    ensures
        res matches Ok(ImportResult::Nodes(_)) ==> kind == ImportKind::Node,
        res matches Ok(ImportResult::Subscription(_)) ==> kind == ImportKind::Subscription,
{
}

/// The first step of an import never yields a subscription, and yields
/// nodes only when nodes were asked for: a share link is never taken as a
/// subscription.
pub proof fn lemma_import_step_respects_kind(res: Result<ImportStep, ProxyError>, url: Seq<char>, kind: ImportKind)
    requires
        import_step_outcome(res, url, kind),
    ensures
        !(res matches Ok(ImportStep::Done(ImportResult::Subscription(_)))),
        res matches Ok(ImportStep::Done(ImportResult::Nodes(_))) ==> kind == ImportKind::Node,
{
}

}
