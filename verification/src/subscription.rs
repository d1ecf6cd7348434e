//! Subscriptions: a named URL and the nodes last read from it.
use vstd::prelude::*;
use crate::node::{NodeView, ProxyNode};

verus! {

/// A UTC instant: seconds since the Unix epoch and nanoseconds past them.
#[derive(Clone, Copy, Debug, PartialEq, Eq)]
pub struct UtcTime {
    pub secs: i64,
    pub nanos: u32,
}

/// The current time (`chrono::Utc::now`): at or after the Unix epoch, with
/// the nanoseconds below one second. Which instant it is, is not said.
#[verifier::external_body]
pub(crate) fn utc_now() -> (res: UtcTime)
    ensures
        res.secs >= 0,
        res.nanos < 1_000_000_000,
{
    let now = chrono::Utc::now();
    UtcTime { secs: now.timestamp(), nanos: now.timestamp_subsec_nanos() }
}

/// A subscription. Its `id` is a random UUID, held as its 128-bit value.
#[derive(Clone, Debug, PartialEq, Eq)]
pub struct Subscription {
    pub id: u128,
    pub name: String,
    pub url: String,
    pub nodes: Vec<ProxyNode>,
    pub last_updated: Option<UtcTime>,
    pub enabled: bool,
}

pub struct SubscriptionView {
    pub id: u128,
    pub name: Seq<char>,
    pub url: Seq<char>,
    pub nodes: Seq<NodeView>,
    pub last_updated: Option<UtcTime>,
    pub enabled: bool,
}

impl View for Subscription {
    type V = SubscriptionView;

    open spec fn view(&self) -> SubscriptionView {
        SubscriptionView {
            id: self.id,
            name: self.name@,
            url: self.url@,
            nodes: self.nodes@.map_values(|n: ProxyNode| n@),
            last_updated: self.last_updated,
            enabled: self.enabled,
        }
    }
}

impl Subscription {
    /// A new enabled subscription with no nodes yet and a fresh random id.
    pub fn new(name: String, url: String) -> (res: Self)
        ensures
            res.name@ == name@,
            res.url@ == url@,
            res.nodes@.len() == 0,
            res.last_updated is None,
            res.enabled,
            crate::node::is_v4_uuid(res.id),
    {
        Subscription {
            id: crate::node::new_uuid(),
            name,
            url,
            nodes: Vec::new(),
            last_updated: None,
            enabled: crate::protocol::default_true(),
        }
    }

    /// The number of nodes of the subscription.
    pub fn node_count(&self) -> (res: usize)
        ensures
            res == self.nodes@.len(),
    {
        self.nodes.len()
    }
}

}
