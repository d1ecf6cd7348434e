//! The state of the application: settings, nodes and subscriptions.
use vstd::prelude::*;
use crate::node::ProxyNode;
use crate::settings::AppSettings;
use crate::subscription::Subscription;

verus! {

/// The application's state.
pub struct AppState {
    pub settings: AppSettings,
    pub nodes: Vec<ProxyNode>,
    pub subscriptions: Vec<Subscription>,
    pub selected_node_index: Option<usize>,
    pub selected_sub_index: Option<usize>,
}

/// The nodes of the given subscriptions, subscription after subscription.
pub open spec fn subscription_nodes(subs: Seq<Subscription>) -> Seq<ProxyNode>
    decreases subs.len(),
{
    if subs.len() == 0 {
        Seq::empty()
    } else {
        subscription_nodes(subs.drop_last()) + subs.last().nodes@
    }
}

/// The values behind a list of references.
pub open spec fn derefs(v: Seq<&ProxyNode>) -> Seq<ProxyNode> {
    v.map_values(|r: &ProxyNode| *r)
}

impl AppState {
    /// The state made of what was read from disk, with nothing selected.
    pub fn load(settings: AppSettings, nodes: Vec<ProxyNode>, subscriptions: Vec<Subscription>) -> (res: Self)
        ensures
            res.settings == settings,
            res.nodes@ == nodes@,
            res.subscriptions@ == subscriptions@,
            res.selected_node_index is None,
            res.selected_sub_index is None,
    {
        AppState {
            settings,
            nodes,
            subscriptions,
            selected_node_index: None,
            selected_sub_index: None,
        }
    }

    /// Every node: the manual ones first, then those of each subscription in turn.
    pub fn all_nodes(&self) -> (res: Vec<&ProxyNode>)
        ensures
            derefs(res@) == self.nodes@ + subscription_nodes(self.subscriptions@),
    {
        let mut all: Vec<&ProxyNode> = Vec::new();
        let mut i: usize = 0;
        while i < self.nodes.len()
            invariant
                i <= self.nodes@.len(),
                derefs(all@) == self.nodes@.take(i as int),
            decreases self.nodes@.len() - i,
        {
            let ghost before = all@;
            all.push(&self.nodes[i]);
            assert(derefs(all@) =~= derefs(before).push(self.nodes@[i as int]));
            i += 1;
            assert(derefs(all@) =~= self.nodes@.take(i as int));
        }
        assert(self.nodes@.take(i as int) =~= self.nodes@);
        let subs = &self.subscriptions;
        let mut j: usize = 0;
        assert(subs@.take(0) =~= Seq::<Subscription>::empty());
        assert(self.nodes@ + subscription_nodes(subs@.take(0)) =~= self.nodes@);
        while j < subs.len()
            invariant
                j <= subs@.len(),
                derefs(all@) == self.nodes@ + subscription_nodes(subs@.take(j as int)),
            decreases subs@.len() - j,
        {
            let sub = &subs[j];
            let mut k: usize = 0;
            let ghost start = derefs(all@);
            while k < sub.nodes.len()
                invariant
                    k <= sub.nodes@.len(),
                    derefs(all@) == start + sub.nodes@.take(k as int),
                decreases sub.nodes@.len() - k,
            {
                let ghost before = all@;
                all.push(&sub.nodes[k]);
                assert(derefs(all@) =~= derefs(before).push(sub.nodes@[k as int]));
                k += 1;
                assert(derefs(all@) =~= start + sub.nodes@.take(k as int));
            }
            assert(sub.nodes@.take(k as int) =~= sub.nodes@);
            assert(subs@.take(j + 1).drop_last() =~= subs@.take(j as int));
            assert(subs@.take(j + 1).last() == *sub);
            j += 1;
            assert(derefs(all@) =~= self.nodes@ + subscription_nodes(subs@.take(j as int)));
        }
        assert(subs@.take(j as int) =~= subs@);
        all
    }

    /// Adds a node at the end of the manual nodes.
    pub fn add_node(&mut self, node: ProxyNode)
        ensures
            final(self).nodes@ == old(self).nodes@.push(node),
            final(self).subscriptions@ == old(self).subscriptions@,
            final(self).settings == old(self).settings,
            final(self).selected_node_index == old(self).selected_node_index,
            final(self).selected_sub_index == old(self).selected_sub_index,
    {
        self.nodes.push(node);
    }

    /// Removes the manual node at `index`; an index past the end changes nothing.
    pub fn remove_node(&mut self, index: usize)
        ensures
            final(self).nodes@ == (if index < old(self).nodes@.len() {
                old(self).nodes@.remove(index as int)
            } else {
                old(self).nodes@
            }),
            final(self).subscriptions@ == old(self).subscriptions@,
            final(self).settings == old(self).settings,
            final(self).selected_node_index == old(self).selected_node_index,
            final(self).selected_sub_index == old(self).selected_sub_index,
    {
        if index < self.nodes.len() {
            self.nodes.remove(index);
        }
    }

    /// Adds a subscription at the end.
    pub fn add_subscription(&mut self, sub: Subscription)
        ensures
            final(self).subscriptions@ == old(self).subscriptions@.push(sub),
            final(self).nodes@ == old(self).nodes@,
            final(self).settings == old(self).settings,
            final(self).selected_node_index == old(self).selected_node_index,
            final(self).selected_sub_index == old(self).selected_sub_index,
    {
        self.subscriptions.push(sub);
    }
}

/// Removing the node just added gives the manual nodes back: `remove_node`
/// at the old length undoes `add_node`.
pub proof fn lemma_remove_undoes_add(nodes: Seq<ProxyNode>, node: ProxyNode)
    ensures
        nodes.len() < nodes.push(node).len(),
        nodes.push(node).remove(nodes.len() as int) == nodes,
{
    assert(nodes.push(node).remove(nodes.len() as int) =~= nodes);
}

/// Adding a manual node puts it right after the other manual nodes in the
/// list of all nodes, ahead of every subscription's nodes.
pub proof fn lemma_add_node_in_all_nodes(nodes: Seq<ProxyNode>, subs: Seq<Subscription>, node: ProxyNode)
    ensures
        nodes.push(node) + subscription_nodes(subs) == nodes + seq![node] + subscription_nodes(subs),
        (nodes.push(node) + subscription_nodes(subs))[nodes.len() as int] == node,
{
    assert(nodes.push(node) =~= nodes + seq![node]);
}

}
