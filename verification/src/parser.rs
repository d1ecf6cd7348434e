//! Subscription content in any supported format.
use vstd::prelude::*;
use crate::codec::{
    base64_standard, base64_url_safe_no_pad, decode_base64_standard,
    decode_base64_url_safe_no_pad, utf8_decode_lossy, utf8_lossy_spec,
};
use crate::error::{ErrorView, ProxyError};
use crate::node::{nodes_match, nodes_outcome, NodeView, ProxyNode};
use crate::text::{trim, trim_spec};
use crate::uri_parser::{parse_lines, parse_lines_spec};

verus! {

/// The text of a list of share links inside subscription content: the
/// trimmed content decoded from base64 (standard, else URL-safe without
/// padding) and read as lossy UTF-8, or the content itself where neither
/// decodes.
pub open spec fn link_list_text(content: Seq<char>) -> Seq<char> {
    let t = trim_spec(content);
    match base64_standard(t) {
        Some(b) => utf8_lossy_spec(b),
        None => match base64_url_safe_no_pad(t) {
            Some(b) => utf8_lossy_spec(b),
            None => content,
        },
    }
}

/// The nodes of subscription content: a sing-box config if it yields any
/// node, else a Clash config if it yields any node, else a list of share
/// links (base64-encoded or plain) if it yields any node.
pub open spec fn subscription_spec(content: Seq<char>) -> Result<Seq<NodeView>, ErrorView> {
    let from_links = parse_lines_spec(link_list_text(content));
    let fallback = if from_links.len() > 0 {
        Ok(from_links)
    } else {
        Err(ErrorView::UnrecognizedFormat)
    };
    let after_singbox = match crate::clash_parser::clash_spec(content) {
        Ok(ns) => if ns.len() > 0 {
            Ok(ns)
        } else {
            fallback
        },
        Err(_) => fallback,
    };
    match crate::singbox_parser::singbox_spec(content) {
        Ok(ns) => if ns.len() > 0 {
            Ok(ns)
        } else {
            after_singbox
        },
        Err(_) => after_singbox,
    }
}

/// Reads subscription content: a sing-box config, a Clash config, or a
/// list of share links, plain or base64-encoded, whichever first yields a
/// node.
pub fn parse_subscription_content(content: &str) -> (res: Result<Vec<ProxyNode>, ProxyError>)
    ensures
        nodes_outcome(res, subscription_spec(content@)),
{
    if let Ok(nodes) = crate::singbox_parser::parse(content) {
        if nodes.len() > 0 {
            return Ok(nodes);
        }
    }
    if let Ok(nodes) = crate::clash_parser::parse(content) {
        if nodes.len() > 0 {
            return Ok(nodes);
        }
    }
    let t = trim(content);
    let decoded = match decode_base64_standard(t.as_str()) {
        Some(bytes) => utf8_decode_lossy(bytes.as_slice()),
        None => match decode_base64_url_safe_no_pad(t.as_str()) {
            Some(bytes) => utf8_decode_lossy(bytes.as_slice()),
            None => content.to_owned(),
        },
    };
    let nodes = match parse_lines(decoded.as_str()) {
        Ok(n) => n,
        Err(e) => {
            return Err(e);
        },
    };
    if nodes.len() > 0 {
        return Ok(nodes);
    }
    Err(ProxyError::UnrecognizedFormat)
}

}
