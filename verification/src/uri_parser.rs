//! Share links: `vless://`, `vmess://`, `trojan://`, `tuic://` and `anytls://`.
use vstd::prelude::*;
use vstd::utf8::{decode_utf8, valid_utf8};
use crate::codec::{
    base64_standard, base64_url_safe_no_pad, decode_base64_standard, decode_base64_url_safe_no_pad,
    percent_decode, url_decode, utf8_decode,
};
use crate::doc::{
    as_str, as_u64, get, get_spec, json_document, opt_str, opt_u64, or_else, parse_json, str_spec,
    u64_spec, unwrap_or, DocValue, DocView,
};
use crate::error::{ErrorView, ProxyError};
use crate::node::{
    fresh_node, is_v4_uuid, host_port, host_port_spec, new_uuid, nodes_match, NodeSource, NodeView,
    ProtocolView, ProxyNode, ProxyProtocol,
};
use crate::protocol::{
    anytls_with, strings_view, tuic_with, AnyTlsConfig, TlsConfig, TlsView, TrojanConfig,
    TrojanView, TuicConfig, VMessConfig, VMessView, VlessConfig, VlessView,
};
use crate::text::{
    chars_of, parse_uint, parse_uint_spec, slice_chars, split_chars, split_spec, starts_with_spec,
    str_eq, string_of, trim, trim_chars, trim_spec, views_of, find_chars, first_occurrence,
};

verus! {

/// The parts of a parsed URL that the link parsers read.
#[derive(Clone, Debug, PartialEq, Eq)]
pub struct ParsedUrl {
    /// `Url::username`.
    pub username: String,
    /// `Url::password`.
    pub password: Option<String>,
    /// `Url::host_str`.
    pub host: Option<String>,
    /// `Url::port`.
    pub port: Option<u16>,
    /// `Url::fragment`.
    pub fragment: Option<String>,
    /// `Url::query_pairs`, decoded, in order.
    pub query: Vec<(String, String)>,
}

pub struct UrlView {
    pub username: Seq<char>,
    pub password: Option<Seq<char>>,
    pub host: Option<Seq<char>>,
    pub port: Option<u16>,
    pub fragment: Option<Seq<char>>,
    pub query: Seq<(Seq<char>, Seq<char>)>,
}

pub open spec fn opt_string_view(s: Option<String>) -> Option<Seq<char>> {
    match s {
        Some(x) => Some(x@),
        None => None,
    }
}

impl View for ParsedUrl {
    type V = UrlView;

    open spec fn view(&self) -> UrlView {
        UrlView {
            username: self.username@,
            password: opt_string_view(self.password),
            host: opt_string_view(self.host),
            port: self.port,
            fragment: opt_string_view(self.fragment),
            query: self.query@.map_values(|p: (String, String)| (p.0@, p.1@)),
        }
    }
}

/// What `url::Url::parse` gives for `text`: the parts of the URL, or the
/// message of its error.
pub uninterp spec fn url_parse(text: Seq<char>) -> Result<UrlView, Seq<char>>;

/// Parses `text` with `url::Url::parse` and reads the parts the link parsers
/// use; on failure, the error's message. The contract names the result; URL
/// syntax is not restated.
#[verifier::external_body]
pub(crate) fn parse_url(text: &str) -> (res: Result<ParsedUrl, String>)
    ensures
        match res {
            Ok(u) => url_parse(text@) == Ok::<UrlView, Seq<char>>(u@),
            Err(e) => url_parse(text@) == Err::<UrlView, Seq<char>>(e@),
        },
{
    match url::Url::parse(text) {
        Ok(u) => Ok(ParsedUrl {
            username: u.username().to_string(),
            password: u.password().map(String::from),
            host: u.host_str().map(String::from),
            port: u.port(),
            fragment: u.fragment().map(String::from),
            query: u.query_pairs().map(|(k, v)| (k.to_string(), v.to_string())).collect(),
        }),
        Err(e) => Err(e.to_string()),
    }
}

/// The value of query parameter `key`; where it occurs more than once, the
/// last occurrence (as a `HashMap` collected from the pairs keeps it).
pub open spec fn query_get(q: Seq<(Seq<char>, Seq<char>)>, key: Seq<char>) -> Option<Seq<char>>
    decreases q.len(),
{
    if q.len() == 0 {
        None
    } else if q.last().0 == key {
        Some(q.last().1)
    } else {
        query_get(q.drop_last(), key)
    }
}

/// The ALPN list of a link: the `alpn` parameter split at commas, or empty.
pub open spec fn alpn_spec(q: Seq<(Seq<char>, Seq<char>)>) -> Seq<Seq<char>> {
    match query_get(q, "alpn"@) {
        Some(v) => split_spec(v, ','),
        None => Seq::empty(),
    }
}

/// Whether a link asks to skip certificate checks: `allowInsecure=1`.
pub open spec fn insecure_spec(q: Seq<(Seq<char>, Seq<char>)>) -> bool {
    query_get(q, "allowInsecure"@) == Some("1"@)
}

/// The name of a node read from a link: its percent-decoded fragment (the
/// fragment itself where it does not decode), else `host:port`.
pub open spec fn fragment_name_spec(u: UrlView) -> Seq<char> {
    match u.fragment {
        Some(f) => unwrap_or(percent_decode(f), f),
        None => host_port_spec(unwrap_or(u.host, "unknown"@), unwrap_or(u.port, 0u16) as nat),
    }
}

/// TLS settings read from a link's query.
pub open spec fn link_tls(enabled: bool, server_name: Seq<char>, insecure: bool, q: Seq<(Seq<char>, Seq<char>)>) -> TlsView {
    TlsView { enabled, server_name, insecure, alpn: alpn_spec(q), reality: None }
}

/// A node read from a link with the given host and protocol.
pub open spec fn link_node(u: UrlView, host: Seq<char>, protocol: ProtocolView) -> NodeView {
    fresh_node(fragment_name_spec(u), host, unwrap_or(u.port, 443u16), protocol)
}

/// The node of a `vless://` link.
pub open spec fn vless_spec(u: UrlView) -> Result<NodeView, ErrorView> {
    let q = u.query;
    match u.host {
        None => Err(ErrorView::NoHost),
        Some(host) => Ok(
            link_node(
                u,
                host,
                ProtocolView::Vless(
                    VlessView {
                        uuid: u.username,
                        flow: unwrap_or(query_get(q, "flow"@), Seq::empty()),
                        tls: link_tls(
                            unwrap_or(query_get(q, "security"@), Seq::empty()) != "none"@,
                            unwrap_or(
                                or_else(query_get(q, "sni"@), query_get(q, "peer"@)),
                                Seq::empty(),
                            ),
                            insecure_spec(q),
                            q,
                        ),
                        transport: None,
                    },
                ),
            ),
        ),
    }
}

/// The node of a `trojan://` link.
pub open spec fn trojan_spec(u: UrlView) -> Result<NodeView, ErrorView> {
    let q = u.query;
    match u.host {
        None => Err(ErrorView::NoHost),
        Some(host) => Ok(
            link_node(
                u,
                host,
                ProtocolView::Trojan(
                    TrojanView {
                        password: u.username,
                        tls: link_tls(
                            true,
                            unwrap_or(query_get(q, "sni"@), Seq::empty()),
                            insecure_spec(q),
                            q,
                        ),
                        transport: None,
                    },
                ),
            ),
        ),
    }
}

/// The node of an `anytls://` link.
pub open spec fn anytls_spec(u: UrlView) -> Result<NodeView, ErrorView> {
    let q = u.query;
    match u.host {
        None => Err(ErrorView::NoHost),
        Some(host) => Ok(
            link_node(
                u,
                host,
                ProtocolView::AnyTls(
                    anytls_with(
                        u.username,
                        link_tls(
                            true,
                            unwrap_or(query_get(q, "sni"@), Seq::empty()),
                            insecure_spec(q),
                            q,
                        ),
                    ),
                ),
            ),
        ),
    }
}

/// The node of a `tuic://` link.
pub open spec fn tuic_spec(u: UrlView) -> Result<NodeView, ErrorView> {
    let q = u.query;
    match u.host {
        None => Err(ErrorView::NoHost),
        Some(host) => Ok(
            link_node(
                u,
                host,
                ProtocolView::Tuic(
                    tuic_with(
                        u.username,
                        unwrap_or(u.password, Seq::empty()),
                        unwrap_or(query_get(q, "congestion_control"@), "bbr"@),
                        link_tls(true, unwrap_or(query_get(q, "sni"@), Seq::empty()), false, q),
                    ),
                ),
            ),
        ),
    }
}

/// A number field of a vmess document: a JSON number, or a string holding
/// a decimal `u64`.
pub open spec fn vmess_number(v: Option<DocView>) -> Option<u64> {
    match v {
        Some(x) => or_else(
            u64_spec(x),
            match str_spec(x) {
                Some(s) => match parse_uint_spec(s, u64::MAX as nat) {
                    Some(n) => Some(n as u64),
                    None => None,
                },
                None => None,
            },
        ),
        None => None,
    }
}

/// `n as u16`.
pub open spec fn trunc16(n: u64) -> u16 {
    (n % 65536) as u16
}

/// The node described by the JSON document of a `vmess://` link.
pub open spec fn vmess_doc_spec(v: DocView) -> NodeView {
    let server = unwrap_or(opt_str(or_else(get_spec(v, "add"@), get_spec(v, "host"@))), Seq::empty());
    let port = trunc16(unwrap_or(vmess_number(get_spec(v, "port"@)), 443u64));
    let name = match opt_str(get_spec(v, "ps"@)) {
        Some(s) => if s.len() > 0 {
            s
        } else {
            host_port_spec(server, port as nat)
        },
        None => host_port_spec(server, port as nat),
    };
    let tls = TlsView {
        enabled: opt_str(get_spec(v, "tls"@)) == Some("tls"@),
        server_name: unwrap_or(opt_str(or_else(get_spec(v, "sni"@), get_spec(v, "host"@))), Seq::empty()),
        insecure: false,
        alpn: Seq::empty(),
        reality: None,
    };
    fresh_node(
        name,
        server,
        port,
        ProtocolView::Vmess(
            VMessView {
                uuid: unwrap_or(opt_str(get_spec(v, "id"@)), Seq::empty()),
                alter_id: trunc16(unwrap_or(vmess_number(get_spec(v, "aid"@)), 0u64)),
                security: unwrap_or(opt_str(or_else(get_spec(v, "scy"@), get_spec(v, "security"@))), "auto"@),
                tls,
                transport: None,
            },
        ),
    )
}

/// The node of a `vmess://` link: the rest of the link, trimmed, is base64
/// (standard, else URL-safe without padding) of UTF-8 JSON.
pub open spec fn vmess_spec(uri: Seq<char>) -> Result<NodeView, ErrorView> {
    if !starts_with_spec(uri, "vmess://"@) {
        Err(ErrorView::InvalidVmessUri)
    } else {
        let encoded = trim_spec(uri.subrange(8, uri.len() as int));
        let decoded = or_else(base64_standard(encoded), base64_url_safe_no_pad(encoded));
        match decoded {
            None => Err(ErrorView::VmessBase64),
            Some(bytes) => if !valid_utf8(bytes) {
                Err(ErrorView::VmessUtf8)
            } else {
                match json_document(decode_utf8(bytes)) {
                    Err(_) => Err(ErrorView::VmessJson),
                    Ok(v) => Ok(vmess_doc_spec(v)),
                }
            },
        }
    }
}

/// A node read through the URL parser with `f`, or the parser's error.
pub open spec fn via_url(uri: Seq<char>, f: spec_fn(UrlView) -> Result<NodeView, ErrorView>) -> Result<NodeView, ErrorView> {
    match url_parse(uri) {
        Ok(u) => f(u),
        Err(e) => Err(ErrorView::InvalidUrl(e)),
    }
}

/// The node of a share link, chosen by the scheme before the first `://`.
pub open spec fn parse_uri_spec(uri: Seq<char>) -> Result<NodeView, ErrorView> {
    match first_occurrence(uri, "://"@) {
        None => Err(ErrorView::NoScheme),
        Some(i) => {
            let scheme = uri.subrange(0, i);
            if scheme == "vless"@ {
                via_url(uri, |u: UrlView| vless_spec(u))
            } else if scheme == "vmess"@ {
                vmess_spec(uri)
            } else if scheme == "trojan"@ {
                via_url(uri, |u: UrlView| trojan_spec(u))
            } else if scheme == "tuic"@ {
                via_url(uri, |u: UrlView| tuic_spec(u))
            } else if scheme == "anytls"@ {
                via_url(uri, |u: UrlView| anytls_spec(u))
            } else {
                Err(ErrorView::UnsupportedScheme(scheme))
            }
        },
    }
}

/// `res` is the outcome `spec`, up to the random id of the node.
pub open spec fn node_outcome(res: Result<ProxyNode, ProxyError>, spec: Result<NodeView, ErrorView>) -> bool {
    match res {
        Ok(n) => spec matches Ok(v) && n@.sans_id() == v && is_v4_uuid(n.id),
        Err(e) => spec == Err::<NodeView, ErrorView>(e@),
    }
}


/// The views of the query pairs of a URL.
pub open spec fn query_view(q: Seq<(String, String)>) -> Seq<(Seq<char>, Seq<char>)> {
    q.map_values(|p: (String, String)| (p.0@, p.1@))
}

pub open spec fn opt_ref_view(s: Option<&String>) -> Option<Seq<char>> {
    match s {
        Some(x) => Some(x@),
        None => None,
    }
}

/// The value of query parameter `key` (its last occurrence).
pub fn query_param<'a>(q: &'a Vec<(String, String)>, key: &str) -> (res: Option<&'a String>)
    ensures
        opt_ref_view(res) == query_get(query_view(q@), key@),
{
    let ghost qv = query_view(q@);
    let mut i = q.len();
    assert(qv.take(i as int) =~= qv);
    while i > 0
        invariant
            i <= q@.len(),
            qv == query_view(q@),
            query_get(qv, key@) == query_get(qv.take(i as int), key@),
        decreases i,
    {
        let p = &q[i - 1];
        assert(qv.take(i as int).drop_last() =~= qv.take(i - 1));
        assert(qv.take(i as int).last() == (p.0@, p.1@));
        if str_eq(p.0.as_str(), key) {
            return Some(&p.1);
        }
        i -= 1;
    }
    None
}

/// The string, or the empty string.
pub fn string_or_empty(s: Option<&String>) -> (res: String)
    ensures
        res@ == unwrap_or(opt_ref_view(s), Seq::empty()),
{
    match s {
        Some(x) => x.clone(),
        None => String::new(),
    }
}

/// The string, or `d`.
pub fn string_or(s: Option<&String>, d: &str) -> (res: String)
    ensures
        res@ == unwrap_or(opt_ref_view(s), d@),
{
    match s {
        Some(x) => x.clone(),
        None => d.to_owned(),
    }
}

/// Strings holding the given pieces of characters.
pub fn strings_of(pieces: &Vec<Vec<char>>) -> (res: Vec<String>)
    ensures
        strings_view(res@) == views_of(pieces@),
{
    let mut res: Vec<String> = Vec::new();
    let mut i: usize = 0;
    while i < pieces.len()
        invariant
            i <= pieces@.len(),
            strings_view(res@) == views_of(pieces@).take(i as int),
        decreases pieces@.len() - i,
    {
        let s = string_of(pieces[i].as_slice());
        assert(s@ == views_of(pieces@)[i as int]);
        let ghost before = res@;
        res.push(s);
        assert(strings_view(res@) =~= strings_view(before).push(s@));
        i += 1;
        assert(strings_view(res@) =~= views_of(pieces@).take(i as int));
    }
    assert(views_of(pieces@).take(i as int) =~= views_of(pieces@));
    res
}

/// The pieces of `s` between commas.
pub fn split_commas(s: &str) -> (res: Vec<String>)
    ensures
        strings_view(res@) == split_spec(s@, ','),
{
    let cs = chars_of(s);
    let pieces = split_chars(cs.as_slice(), ',');
    strings_of(&pieces)
}

/// The ALPN list of a link's query.
pub fn alpn_list(q: &Vec<(String, String)>) -> (res: Vec<String>)
    ensures
        strings_view(res@) == alpn_spec(query_view(q@)),
{
    match query_param(q, "alpn") {
        Some(v) => split_commas(v.as_str()),
        None => {
            let v: Vec<String> = Vec::new();
            assert(strings_view(v@) =~= Seq::<Seq<char>>::empty());
            v
        },
    }
}

/// Whether a link's query asks to skip certificate checks.
pub fn insecure_flag(q: &Vec<(String, String)>) -> (res: bool)
    ensures
        res == insecure_spec(query_view(q@)),
{
    match query_param(q, "allowInsecure") {
        Some(v) => str_eq(v.as_str(), "1"),
        None => false,
    }
}

/// The name of a node read from a link.
pub fn fragment_name(u: &ParsedUrl) -> (res: String)
    ensures
        res@ == fragment_name_spec(u@),
{
    match &u.fragment {
        Some(f) => match url_decode(f.as_str()) {
            Some(d) => d,
            None => f.clone(),
        },
        None => {
            let host = match &u.host {
                Some(h) => h.as_str(),
                None => "unknown",
            };
            let port = match u.port {
                Some(p) => p,
                None => 0,
            };
            host_port(host, port as u64)
        },
    }
}

/// Parses a link with the URL parser and takes its host.
pub fn link_parts(uri: &str) -> (res: Result<(ParsedUrl, String), ProxyError>)
    ensures
        match url_parse(uri@) {
            Err(e) => res matches Err(x) && x@ == ErrorView::InvalidUrl(e),
            Ok(u) => match u.host {
                None => res matches Err(x) && x@ == ErrorView::NoHost,
                Some(h) => res matches Ok(p) && p.0@ == u && p.1@ == h,
            },
        },
{
    match parse_url(uri) {
        Err(e) => Err(ProxyError::InvalidUrl(e)),
        Ok(u) => {
            let host = match &u.host {
                Some(h) => h.clone(),
                None => {
                    return Err(ProxyError::NoHost);
                },
            };
            Ok((u, host))
        },
    }
}

/// The node for a link with the given parts and protocol.
pub fn link_node_of(u: &ParsedUrl, host: String, protocol: ProxyProtocol) -> (res: ProxyNode)
    ensures
        res@.sans_id() == link_node(u@, host@, protocol@),
        is_v4_uuid(res.id),
{
    let port = match u.port {
        Some(p) => p,
        None => 443,
    };
    ProxyNode {
        id: new_uuid(),
        name: fragment_name(u),
        server: host,
        port,
        protocol,
        enabled: true,
        latency: None,
        source: NodeSource::Manual,
    }
}

/// Reads a `vless://` link.
fn parse_vless(uri: &str) -> (res: Result<ProxyNode, ProxyError>)
    ensures
        node_outcome(res, via_url(uri@, |u: UrlView| vless_spec(u))),
{
    let (u, host) = link_parts(uri)?;
    let q = &u.query;
    let security = string_or_empty(query_param(q, "security"));
    let sni = match query_param(q, "sni") {
        Some(s) => s.clone(),
        None => string_or_empty(query_param(q, "peer")),
    };
    let tls = TlsConfig {
        enabled: !str_eq(security.as_str(), "none"),
        server_name: sni,
        insecure: insecure_flag(q),
        alpn: alpn_list(q),
        reality: None,
    };
    let protocol = ProxyProtocol::Vless(
        VlessConfig {
            uuid: u.username.clone(),
            flow: string_or_empty(query_param(q, "flow")),
            tls,
            transport: None,
        },
    );
    Ok(link_node_of(&u, host, protocol))
}

/// Reads a `trojan://` link.
fn parse_trojan(uri: &str) -> (res: Result<ProxyNode, ProxyError>)
    ensures
        node_outcome(res, via_url(uri@, |u: UrlView| trojan_spec(u))),
{
    let (u, host) = link_parts(uri)?;
    let q = &u.query;
    let tls = TlsConfig {
        enabled: true,
        server_name: string_or_empty(query_param(q, "sni")),
        insecure: insecure_flag(q),
        alpn: alpn_list(q),
        reality: None,
    };
    let protocol = ProxyProtocol::Trojan(
        TrojanConfig { password: u.username.clone(), tls, transport: None },
    );
    Ok(link_node_of(&u, host, protocol))
}

/// Reads an `anytls://` link.
fn parse_anytls(uri: &str) -> (res: Result<ProxyNode, ProxyError>)
    ensures
        node_outcome(res, via_url(uri@, |u: UrlView| anytls_spec(u))),
{
    let (u, host) = link_parts(uri)?;
    let q = &u.query;
    let tls = TlsConfig {
        enabled: true,
        server_name: string_or_empty(query_param(q, "sni")),
        insecure: insecure_flag(q),
        alpn: alpn_list(q),
        reality: None,
    };
    let d = AnyTlsConfig::default();
    let protocol = ProxyProtocol::AnyTls(
        AnyTlsConfig { password: u.username.clone(), tls, ..d },
    );
    Ok(link_node_of(&u, host, protocol))
}

/// Reads a `tuic://` link.
fn parse_tuic(uri: &str) -> (res: Result<ProxyNode, ProxyError>)
    ensures
        node_outcome(res, via_url(uri@, |u: UrlView| tuic_spec(u))),
{
    let (u, host) = link_parts(uri)?;
    let q = &u.query;
    let password = match &u.password {
        Some(p) => p.clone(),
        None => String::new(),
    };
    let tls = TlsConfig {
        enabled: true,
        server_name: string_or_empty(query_param(q, "sni")),
        insecure: false,
        alpn: alpn_list(q),
        reality: None,
    };
    let d = TuicConfig::default();
    let protocol = ProxyProtocol::Tuic(
        TuicConfig {
            uuid: u.username.clone(),
            password,
            congestion_control: string_or(query_param(q, "congestion_control"), "bbr"),
            tls,
            ..d
        },
    );
    Ok(link_node_of(&u, host, protocol))
}


/// The string of an optional document value, or `d`.
fn doc_string_or(v: Option<&DocValue>, d: &str) -> (res: String)
    ensures
        res@ == unwrap_or(opt_str(crate::doc::opt_view(v)), d@),
{
    match v {
        Some(x) => match as_str(x) {
            Some(s) => s.clone(),
            None => d.to_owned(),
        },
        None => d.to_owned(),
    }
}

/// `a.or_else(|| b)` on optional references.
fn first_of<'a>(a: Option<&'a DocValue>, b: Option<&'a DocValue>) -> (res: Option<&'a DocValue>)
    ensures
        crate::doc::opt_view(res) == or_else(crate::doc::opt_view(a), crate::doc::opt_view(b)),
{
    match a {
        Some(x) => Some(x),
        None => b,
    }
}

/// A number field of a vmess document.
fn vmess_number_of(v: Option<&DocValue>) -> (res: Option<u64>)
    ensures
        res == vmess_number(crate::doc::opt_view(v)),
{
    match v {
        Some(x) => match as_u64(x) {
            Some(n) => Some(n),
            None => match as_str(x) {
                Some(s) => {
                    let cs = chars_of(s.as_str());
                    parse_uint(cs.as_slice(), u64::MAX)
                },
                None => None,
            },
        },
        None => None,
    }
}

/// The node described by the JSON document of a `vmess://` link.
pub fn vmess_node_from_doc(v: &DocValue) -> (res: ProxyNode)
    ensures
        res@.sans_id() == vmess_doc_spec(v@),
        is_v4_uuid(res.id),
{
    proof {
        reveal_strlit("");
        assert(""@ =~= Seq::<char>::empty());
    }
    let server = doc_string_or(first_of(get(v, "add"), get(v, "host")), "");
    let port_n = match vmess_number_of(get(v, "port")) {
        Some(n) => n,
        None => 443,
    };
    let port = (port_n % 65536) as u16;
    let uuid = doc_string_or(get(v, "id"), "");
    let name = match get(v, "ps") {
        Some(x) => match as_str(x) {
            Some(s) => if !s.as_str().is_empty() {
                s.clone()
            } else {
                host_port(server.as_str(), port as u64)
            },
            None => host_port(server.as_str(), port as u64),
        },
        None => host_port(server.as_str(), port as u64),
    };
    let aid_n = match vmess_number_of(get(v, "aid")) {
        Some(n) => n,
        None => 0,
    };
    let alter_id = (aid_n % 65536) as u16;
    let security = doc_string_or(first_of(get(v, "scy"), get(v, "security")), "auto");
    let sni = doc_string_or(first_of(get(v, "sni"), get(v, "host")), "");
    let tls_enabled = match get(v, "tls") {
        Some(x) => match as_str(x) {
            Some(s) => str_eq(s.as_str(), "tls"),
            None => false,
        },
        None => false,
    };
    let tls = TlsConfig {
        enabled: tls_enabled,
        server_name: sni,
        insecure: false,
        alpn: Vec::new(),
        reality: None,
    };
    assert(tls@.alpn =~= Seq::<Seq<char>>::empty());
    ProxyNode {
        id: new_uuid(),
        name,
        server,
        port,
        protocol: ProxyProtocol::Vmess(
            VMessConfig { uuid, alter_id, security, tls, transport: None },
        ),
        enabled: true,
        latency: None,
        source: NodeSource::Manual,
    }
}

/// Reads a `vmess://` link.
fn parse_vmess(uri: &str) -> (res: Result<ProxyNode, ProxyError>)
    ensures
        node_outcome(res, vmess_spec(uri@)),
{
    let cs = chars_of(uri);
    let prefix = chars_of("vmess://");
    if !crate::text::starts_with_chars(cs.as_slice(), prefix.as_slice()) {
        return Err(ProxyError::InvalidVmessUri);
    }
    proof {
        reveal_strlit("vmess://");
    }
    let rest = slice_chars(cs.as_slice(), 8, cs.len());
    let trimmed = trim_chars(rest.as_slice());
    let encoded = string_of(trimmed.as_slice());
    let decoded = match decode_base64_standard(encoded.as_str()) {
        Some(b) => b,
        None => match decode_base64_url_safe_no_pad(encoded.as_str()) {
            Some(b) => b,
            None => {
                return Err(ProxyError::VmessBase64);
            },
        },
    };
    let json_str = match utf8_decode(decoded) {
        Some(s) => s,
        None => {
            return Err(ProxyError::VmessUtf8);
        },
    };
    let v = match parse_json(json_str.as_str()) {
        Ok(v) => v,
        Err(_) => {
            return Err(ProxyError::VmessJson);
        },
    };
    Ok(vmess_node_from_doc(&v))
}

/// Reads one share link.
pub fn parse_uri(uri: &str) -> (res: Result<ProxyNode, ProxyError>)
    ensures
        node_outcome(res, parse_uri_spec(uri@)),
{
    let cs = chars_of(uri);
    let sep = chars_of("://");
    let scheme_end = match find_chars(cs.as_slice(), sep.as_slice()) {
        Some(i) => i,
        None => {
            return Err(ProxyError::NoScheme);
        },
    };
    let scheme_chars = slice_chars(cs.as_slice(), 0, scheme_end);
    let scheme = string_of(scheme_chars.as_slice());
    if str_eq(scheme.as_str(), "vless") {
        parse_vless(uri)
    } else if str_eq(scheme.as_str(), "vmess") {
        parse_vmess(uri)
    } else if str_eq(scheme.as_str(), "trojan") {
        parse_trojan(uri)
    } else if str_eq(scheme.as_str(), "tuic") {
        parse_tuic(uri)
    } else if str_eq(scheme.as_str(), "anytls") {
        parse_anytls(uri)
    } else {
        Err(ProxyError::UnsupportedScheme(scheme))
    }
}


/// The node of one line of a list of links: `None` for an empty line, a
/// comment (`#`) or a line that is not a valid link.
pub open spec fn line_node_spec(line: Seq<char>) -> Option<NodeView> {
    let t = trim_spec(line);
    if t.len() == 0 || starts_with_spec(t, "#"@) {
        None
    } else {
        match parse_uri_spec(t) {
            Ok(n) => Some(n),
            Err(_) => None,
        }
    }
}

/// The nodes of the given lines, in order.
pub open spec fn lines_nodes(lines: Seq<Seq<char>>) -> Seq<NodeView>
    decreases lines.len(),
{
    if lines.len() == 0 {
        Seq::empty()
    } else {
        let rest = lines_nodes(lines.drop_last());
        match line_node_spec(lines.last()) {
            Some(n) => rest.push(n),
            None => rest,
        }
    }
}

/// The nodes of a list of share links, one per line.
pub open spec fn parse_lines_spec(content: Seq<char>) -> Seq<NodeView> {
    lines_nodes(split_spec(content, '\n'))
}

/// The node of one line of a list of links.
fn line_node(line: &[char]) -> (res: Option<ProxyNode>)
    ensures
        match line_node_spec(line@) {
            Some(v) => res matches Some(n) && n@.sans_id() == v && is_v4_uuid(n.id),
            None => res is None,
        },
{
    let t = trim_chars(line);
    let hash = chars_of("#");
    if t.len() == 0 || crate::text::starts_with_chars(t.as_slice(), hash.as_slice()) {
        return None;
    }
    let s = string_of(t.as_slice());
    match parse_uri(s.as_str()) {
        Ok(n) => Some(n),
        Err(_) => None,
    }
}

/// Reads every share link of `content`, one per line, skipping empty lines,
/// comments (`#`) and lines that are not a valid link. Never fails.
pub fn parse_lines(content: &str) -> (res: Result<Vec<ProxyNode>, ProxyError>)
    ensures
        res matches Ok(nodes) && nodes_match(nodes@, parse_lines_spec(content@)),
{
    let cs = chars_of(content);
    let lines = split_chars(cs.as_slice(), '\n');
    let ghost lv = views_of(lines@);
    let mut nodes: Vec<ProxyNode> = Vec::new();
    let mut i: usize = 0;
    assert(lv.take(0) =~= Seq::<Seq<char>>::empty());
    while i < lines.len()
        invariant
            i <= lines@.len(),
            lv == views_of(lines@),
            lv == split_spec(content@, '\n'),
            nodes_match(nodes@, lines_nodes(lv.take(i as int))),
        decreases lines@.len() - i,
    {
        assert(lv.take(i + 1).drop_last() =~= lv.take(i as int));
        assert(lv.take(i + 1).last() == lines@[i as int]@);
        match line_node(lines[i].as_slice()) {
            Some(n) => {
                let ghost before = nodes@;
                nodes.push(n);
                assert forall|k: int| 0 <= k < nodes@.len() implies (#[trigger] nodes@[k])@.sans_id()
                    == lines_nodes(lv.take(i + 1))[k] by {
                    if k < before.len() {
                        assert(nodes@[k] == before[k]);
                    }
                }
            },
            None => {},
        }
        i += 1;
    }
    assert(lv.take(lines@.len() as int) =~= lv);
    Ok(nodes)
}


proof fn lemma_lines_nodes_concat(x: Seq<Seq<char>>, y: Seq<Seq<char>>)
    ensures
        lines_nodes(x + y) == lines_nodes(x) + lines_nodes(y),
    decreases y.len(),
{
    if y.len() == 0 {
        assert(x + y =~= x);
        assert(lines_nodes(x) + lines_nodes(y) =~= lines_nodes(x));
    } else {
        lemma_lines_nodes_concat(x, y.drop_last());
        assert((x + y).drop_last() =~= x + y.drop_last());
        assert((x + y).last() == y.last());
        match line_node_spec(y.last()) {
            Some(n) => {
                assert(lines_nodes(x) + lines_nodes(y.drop_last()).push(n) =~= (lines_nodes(x)
                    + lines_nodes(y.drop_last())).push(n));
            },
            None => {},
        }
    }
}

/// Two lists of links joined by a line break give the nodes of the first
/// list, then those of the second: a list is read line by line.
pub proof fn lemma_parse_lines_concat(a: Seq<char>, b: Seq<char>)
    ensures
        parse_lines_spec(a + seq!['\n'] + b) == parse_lines_spec(a) + parse_lines_spec(b),
{
    crate::text::lemma_split_concat(a, b, '\n');
    lemma_lines_nodes_concat(split_spec(a, '\n'), split_spec(b, '\n'));
}


/// The port of a `vmess` document is read from a JSON number as well as from
/// decimal text: a number `n` below 65536 under `port` is the node's port,
/// decimal text of such a number is too, and with no readable port the node
/// uses 443.
pub proof fn lemma_vmess_port(v: DocView, n: u64, s: Seq<char>)
    ensures
        opt_u64(get_spec(v, "port"@)) == Some(n) && n < 65536 ==> vmess_doc_spec(v).port == n,
        opt_u64(get_spec(v, "port"@)) is None && opt_str(get_spec(v, "port"@)) == Some(s)
            && parse_uint_spec(s, 65535) == Some(n as nat) ==> vmess_doc_spec(v).port == n,
        get_spec(v, "port"@) is None ==> vmess_doc_spec(v).port == 443,
{
    if opt_u64(get_spec(v, "port"@)) is None && opt_str(get_spec(v, "port"@)) == Some(s)
        && parse_uint_spec(s, 65535) == Some(n as nat) {
        assert(parse_uint_spec(s, u64::MAX as nat) == Some(n as nat));
    }
}

/// The alter id of a `vmess` document is read from a JSON number as well as
/// from decimal text; with none under `aid` it is 0.
pub proof fn lemma_vmess_alter_id(v: DocView, n: u64)
    ensures
        opt_u64(get_spec(v, "aid"@)) == Some(n) && n < 65536 ==> (vmess_doc_spec(v).protocol matches ProtocolView::Vmess(c)
            && c.alter_id == n),
        get_spec(v, "aid"@) is None ==> (vmess_doc_spec(v).protocol matches ProtocolView::Vmess(c)
            && c.alter_id == 0),
{
}

/// A `vmess://` link whose body decodes (standard base64) to a JSON
/// document with a numeric port `n` below 65536 is read as a node on port
/// `n` at the document's `add` server.
pub proof fn lemma_vmess_link_port(uri: Seq<char>, bytes: Seq<u8>, v: DocView, n: u64)
    requires
        starts_with_spec(uri, "vmess://"@),
        base64_standard(trim_spec(uri.subrange(8, uri.len() as int))) == Some(bytes),
        valid_utf8(bytes),
        json_document(decode_utf8(bytes)) == Ok::<DocView, Seq<char>>(v),
        opt_u64(get_spec(v, "port"@)) == Some(n),
        n < 65536,
    ensures
        vmess_spec(uri) matches Ok(node) && node.port == n
            && node.server == unwrap_or(opt_str(or_else(get_spec(v, "add"@), get_spec(v, "host"@))), Seq::empty()),
{
    lemma_vmess_port(v, n, Seq::empty());
}


/// The node of a `vmess` document: its server is the string under `add`
/// (where there is no `add`, under `host`); its name is a non-empty `ps`,
/// else `server:port`; TLS is on exactly when `tls` is the string `tls`, with
/// `sni` (else `host`) as server name; the UUID is `id` and the cipher is
/// `scy`, else `security`, else `auto`.
pub proof fn lemma_vmess_doc_read(v: DocView)
    ensures
        ({
            let n = vmess_doc_spec(v);
            &&& n.server == unwrap_or(opt_str(or_else(get_spec(v, "add"@), get_spec(v, "host"@))), Seq::empty())
            &&& n.name == match opt_str(get_spec(v, "ps"@)) {
                Some(s) if s.len() > 0 => s,
                _ => n.server + ":"@ + crate::text::dec_spec(n.port as nat),
            }
            &&& n.enabled && n.latency is None && n.source == NodeSource::Manual
            &&& n.protocol matches ProtocolView::Vmess(c) && {
                &&& c.uuid == unwrap_or(opt_str(get_spec(v, "id"@)), Seq::empty())
                &&& c.security == unwrap_or(
                    opt_str(or_else(get_spec(v, "scy"@), get_spec(v, "security"@))),
                    "auto"@,
                )
                &&& c.tls.enabled == (opt_str(get_spec(v, "tls"@)) == Some("tls"@))
                &&& c.tls.server_name == unwrap_or(
                    opt_str(or_else(get_spec(v, "sni"@), get_spec(v, "host"@))),
                    Seq::empty(),
                )
                &&& c.tls.reality is None
            }
        }),
{
}

}
