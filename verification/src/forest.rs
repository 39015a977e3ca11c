//! What it means that the parent links of a tree make a forest: every
//! link names a node, and no node is its own ancestor.

use vstd::prelude::*;
use crate::gtree::{is_forest, rooted, GNodeView};

verus! {

/// The node that is reached from node `i` after `k` parent links, if the
/// chain of parents goes that far.
pub open spec fn ancestor(nodes: Seq<GNodeView>, i: int, k: nat) -> Option<int>
    decreases k,
{
    if !(0 <= i < nodes.len()) {
        None
    } else if k == 0 {
        Some(i)
    } else {
        match nodes[i].parent {
            Some(p) => ancestor(nodes, p, (k - 1) as nat),
            None => None,
        }
    }
}

/// Every parent link names a node of the list.
pub open spec fn links_in_range(nodes: Seq<GNodeView>) -> bool {
    forall|i: int|
        0 <= i < nodes.len() ==> match (#[trigger] nodes[i]).parent {
            Some(p) => 0 <= p < nodes.len(),
            None => true,
        }
}

/// No node is reached from itself after one or more parent links.
pub open spec fn acyclic(nodes: Seq<GNodeView>) -> bool {
    forall|i: int, k: nat|
        0 <= i < nodes.len() && k >= 1 ==> #[trigger] ancestor(nodes, i, k) != Some(i)
}

/// An ancestor is a node of the list.
pub proof fn lemma_ancestor_in_range(nodes: Seq<GNodeView>, i: int, k: nat)
    ensures
        match ancestor(nodes, i, k) {
            Some(j) => 0 <= j < nodes.len(),
            None => true,
        },
    decreases k,
{
    if 0 <= i < nodes.len() && k > 0 {
        match nodes[i].parent {
            Some(p) => {
                lemma_ancestor_in_range(nodes, p, (k - 1) as nat);
            },
            None => {},
        }
    }
}

/// Going `a` links up and then `b` more is going `a + b` links up.
pub proof fn lemma_ancestor_chain(nodes: Seq<GNodeView>, i: int, a: nat, b: nat)
    ensures
        match ancestor(nodes, i, a) {
            Some(j) => ancestor(nodes, i, a + b) == ancestor(nodes, j, b),
            None => ancestor(nodes, i, a + b).is_none(),
        },
    decreases a,
{
    if 0 <= i < nodes.len() && a > 0 {
        match nodes[i].parent {
            Some(p) => {
                lemma_ancestor_chain(nodes, p, (a - 1) as nat, b);
                assert(ancestor(nodes, i, a + b) == ancestor(nodes, p, (a + b - 1) as nat));
            },
            None => {},
        }
    }
}

/// A chain that ends at a root within `hops` links has no ancestor further
/// up than that.
pub proof fn lemma_rooted_chain_ends(nodes: Seq<GNodeView>, i: int, hops: nat, k: nat)
    requires
        rooted(nodes, i, hops),
        k > hops,
    ensures
        ancestor(nodes, i, k).is_none(),
    decreases hops,
{
    match nodes[i].parent {
        Some(p) => {
            lemma_rooted_chain_ends(nodes, p, (hops - 1) as nat, (k - 1) as nat);
        },
        None => {},
    }
}

/// A node that is its own ancestor after `k` links is so after every
/// multiple of `k` links.
pub proof fn lemma_cycle_repeats(nodes: Seq<GNodeView>, i: int, k: nat, rounds: nat)
    requires
        0 <= i < nodes.len(),
        ancestor(nodes, i, k) == Some(i),
    ensures
        ancestor(nodes, i, rounds * k) == Some(i),
    decreases rounds,
{
    if rounds == 0 {
        assert(rounds * k == 0) by (nonlinear_arith)
            requires
                rounds == 0,
        ;
    } else {
        let before = ((rounds - 1) * k) as nat;
        assert((rounds - 1) * k >= 0 && rounds * k == (rounds - 1) * k + k) by (nonlinear_arith)
            requires
                rounds >= 1,
                k >= 0,
        ;
        lemma_cycle_repeats(nodes, i, k, (rounds - 1) as nat);
        lemma_ancestor_chain(nodes, i, before, k);
    }
}

/// The parent of a node whose chain ends at a root is a node of the list.
pub proof fn lemma_rooted_parent(nodes: Seq<GNodeView>, i: int, hops: nat)
    requires
        rooted(nodes, i, hops),
    ensures
        match nodes[i].parent {
            Some(p) => 0 <= p < nodes.len() && hops > 0 && rooted(nodes, p, (hops - 1) as nat),
            None => true,
        },
{
    match nodes[i].parent {
        Some(p) => {
            assert(rooted(nodes, p, (hops - 1) as nat));
        },
        None => {},
    }
}

/// In a forest every parent link names a node, and no node is its own
/// ancestor.
pub proof fn lemma_forest_is_acyclic(nodes: Seq<GNodeView>)
    requires
        is_forest(nodes),
    ensures
        links_in_range(nodes),
        acyclic(nodes),
{
    let n = nodes.len();
    assert forall|i: int| 0 <= i < n implies match (#[trigger] nodes[i]).parent {
        Some(p) => 0 <= p < n,
        None => true,
    } by {
        lemma_rooted_parent(nodes, i, n);
    }
    assert forall|i: int, k: nat| 0 <= i < n && k >= 1 implies #[trigger] ancestor(nodes, i, k)
        != Some(i) by {
        if ancestor(nodes, i, k) == Some(i) {
            lemma_cycle_repeats(nodes, i, k, n + 1);
            assert((n + 1) * k > n) by (nonlinear_arith)
                requires
                    k >= 1,
                    n >= 0,
            ;
            assert(rooted(nodes, i, n));
            lemma_rooted_chain_ends(nodes, i, n, (n + 1) * k);
        }
    }
}

/// Where every link names a node, a chain that does not end at a root within
/// `hops` links has an ancestor at each of the first `hops + 1` links.
pub proof fn lemma_unrooted_chain_goes_on(nodes: Seq<GNodeView>, i: int, hops: nat, k: nat)
    requires
        links_in_range(nodes),
        0 <= i < nodes.len(),
        !rooted(nodes, i, hops),
        k <= hops + 1,
    ensures
        ancestor(nodes, i, k).is_some(),
    decreases hops,
{
    if k > 0 {
        assert(nodes[i].parent.is_some());
        let p = nodes[i].parent.unwrap();
        if hops > 0 {
            lemma_unrooted_chain_goes_on(nodes, p, (hops - 1) as nat, (k - 1) as nat);
        } else {
            assert(ancestor(nodes, p, 0) == Some(p));
        }
    }
}

/// Among `n + 1` values below `n` two are equal.
pub proof fn lemma_two_alike(f: spec_fn(int) -> int, n: nat) -> (pair: (int, int))
    requires
        forall|t: int| 0 <= t <= n ==> 0 <= #[trigger] f(t) < n,
    ensures
        0 <= pair.0 < pair.1 <= n,
        f(pair.0) == f(pair.1),
    decreases n,
{
    if n == 0 {
        let v = f(0int);
        assert(0 <= v < n);
        (0, 0)
    } else if exists|t: int| 0 <= t < n && #[trigger] f(t) == f(n as int) {
        let t = choose|t: int| 0 <= t < n && #[trigger] f(t) == f(n as int);
        (t, n as int)
    } else {
        let last = f(n as int);
        let g = |t: int|
            if f(t) > last {
                f(t) - 1
            } else {
                f(t)
            };
        assert forall|t: int| 0 <= t <= n - 1 implies 0 <= #[trigger] g(t) < n - 1 by {
            assert(0 <= f(t) < n);
            assert(f(t) != last);
        }
        let pair = lemma_two_alike(g, (n - 1) as nat);
        assert(f(pair.0) != last && f(pair.1) != last);
        assert(g(pair.0) == g(pair.1));
        pair
    }
}

/// Where every parent link names a node and no node is its own ancestor,
/// the links make a forest.
pub proof fn lemma_acyclic_is_forest(nodes: Seq<GNodeView>)
    requires
        links_in_range(nodes),
        acyclic(nodes),
    ensures
        is_forest(nodes),
{
    let n = nodes.len();
    assert forall|i: int| 0 <= i < n implies rooted(nodes, i, n) by {
        if !rooted(nodes, i, n) {
            let f = |t: int| ancestor(nodes, i, t as nat).unwrap();
            assert forall|t: int| 0 <= t <= n implies 0 <= #[trigger] f(t) < n by {
                lemma_unrooted_chain_goes_on(nodes, i, n, t as nat);
                lemma_ancestor_in_range(nodes, i, t as nat);
            }
            let (a, b) = lemma_two_alike(f, n);
            let j = f(a);
            lemma_unrooted_chain_goes_on(nodes, i, n, a as nat);
            lemma_unrooted_chain_goes_on(nodes, i, n, b as nat);
            lemma_ancestor_chain(nodes, i, a as nat, (b - a) as nat);
            assert(ancestor(nodes, j, (b - a) as nat) == Some(j));
        }
    }
}

/// The parent links make a forest exactly where each names a node and no
/// node is its own ancestor.
pub proof fn lemma_forest_iff_acyclic(nodes: Seq<GNodeView>)
    ensures
        is_forest(nodes) <==> links_in_range(nodes) && acyclic(nodes),
{
    if is_forest(nodes) {
        lemma_forest_is_acyclic(nodes);
    }
    if links_in_range(nodes) && acyclic(nodes) {
        lemma_acyclic_is_forest(nodes);
    }
}

/// Whether node `target` is reached from node `from` after some number of
/// parent links: `from` is `target` itself or one of its descendants.
pub open spec fn descends_from(nodes: Seq<GNodeView>, from: int, target: int) -> bool {
    exists|k: nat| ancestor(nodes, from, k) == Some(target)
}

/// The list in which node `node` has the parent link `parent` and all else
/// is as in `nodes`.
pub open spec fn with_parent(nodes: Seq<GNodeView>, node: int, parent: Option<int>) -> Seq<
    GNodeView,
> {
    nodes.update(node, GNodeView { parent, ..nodes[node] })
}

/// The least number of links after which `target` is reached from `from`,
/// where it is reached after `k`.
pub proof fn lemma_first_visit(nodes: Seq<GNodeView>, from: int, target: int, k: nat) -> (m: nat)
    requires
        ancestor(nodes, from, k) == Some(target),
    ensures
        m <= k,
        ancestor(nodes, from, m) == Some(target),
        forall|t: nat| t < m ==> ancestor(nodes, from, t) != Some(target),
    decreases k,
{
    if exists|t: nat| t < k && ancestor(nodes, from, t) == Some(target) {
        let t = choose|t: nat| t < k && ancestor(nodes, from, t) == Some(target);
        lemma_first_visit(nodes, from, target, t)
    } else {
        k
    }
}

/// A chain that does not visit `node` within its first `m` links is the
/// same whatever parent `node` has.
pub proof fn lemma_chain_beside(
    nodes: Seq<GNodeView>,
    node: int,
    parent: Option<int>,
    from: int,
    m: nat,
)
    requires
        0 <= node < nodes.len(),
        forall|t: nat| t < m ==> ancestor(with_parent(nodes, node, parent), from, t) != Some(node),
    ensures
        ancestor(with_parent(nodes, node, parent), from, m) == ancestor(nodes, from, m),
    decreases m,
{
    let changed = with_parent(nodes, node, parent);
    if 0 <= from < nodes.len() && m > 0 {
        assert(ancestor(changed, from, 0) == Some(from));
        assert(from != node);
        assert(changed[from] == nodes[from]);
        match nodes[from].parent {
            Some(q) => {
                assert forall|t: nat| t < (m - 1) as nat implies ancestor(changed, q, t) != Some(
                    node,
                ) by {
                    assert(ancestor(changed, from, t + 1) == ancestor(changed, q, t));
                }
                lemma_chain_beside(nodes, node, parent, q, (m - 1) as nat);
            },
            None => {},
        }
    }
}

/// Giving a node of a forest a new parent leaves a forest, where the new
/// parent is a node and neither the node itself nor one of its descendants.
pub proof fn lemma_reparent_keeps_forest(nodes: Seq<GNodeView>, node: int, parent: Option<int>)
    requires
        is_forest(nodes),
        0 <= node < nodes.len(),
        match parent {
            Some(p) => 0 <= p < nodes.len() && !descends_from(nodes, p, node),
            None => true,
        },
    ensures
        is_forest(with_parent(nodes, node, parent)),
{
    let changed = with_parent(nodes, node, parent);
    let n = nodes.len();
    lemma_forest_is_acyclic(nodes);
    assert forall|i: int| 0 <= i < n implies match (#[trigger] changed[i]).parent {
        Some(p) => 0 <= p < n,
        None => true,
    } by {
        if i != node {
            assert(changed[i] == nodes[i]);
        }
    }
    assert forall|j: int, k: nat| 0 <= j < n && k >= 1 implies #[trigger] ancestor(changed, j, k)
        != Some(j) by {
        if ancestor(changed, j, k) == Some(j) {
            if exists|t: nat| t < k && ancestor(changed, j, t) == Some(node) {
                // the cycle goes through the node: turn it so that it starts there
                let t = choose|t: nat| t < k && ancestor(changed, j, t) == Some(node);
                lemma_ancestor_chain(changed, j, t, (k - t) as nat);
                lemma_ancestor_chain(changed, node, (k - t) as nat, t);
                assert(ancestor(changed, node, k) == Some(node));
                match parent {
                    Some(p) => {
                        assert(ancestor(changed, node, k) == ancestor(changed, p, (k - 1) as nat));
                        let m = lemma_first_visit(changed, p, node, (k - 1) as nat);
                        lemma_chain_beside(nodes, node, parent, p, m);
                        assert(ancestor(nodes, p, m) == Some(node));
                    },
                    None => {},
                }
            } else {
                lemma_chain_beside(nodes, node, parent, j, k);
                assert(ancestor(nodes, j, k) == Some(j));
            }
        }
    }
    lemma_acyclic_is_forest(changed);
}

/// A list in which a node is its own parent is no forest.
pub proof fn lemma_self_parent_is_refused(nodes: Seq<GNodeView>, i: int)
    requires
        0 <= i < nodes.len(),
        nodes[i].parent == Some(i),
    ensures
        !is_forest(nodes),
{
    if is_forest(nodes) {
        lemma_forest_is_acyclic(nodes);
        assert(ancestor(nodes, i, 0) == Some(i));
        assert(ancestor(nodes, i, 1) == Some(i));
    }
}

/// A list in which the parent of a node is one of its descendants is no
/// forest: `child` is reached from `parent` after `k` links, and `parent`
/// is the parent of `child`.
pub proof fn lemma_descendant_parent_is_refused(
    nodes: Seq<GNodeView>,
    child: int,
    parent: int,
    k: nat,
)
    requires
        0 <= child < nodes.len(),
        nodes[child].parent == Some(parent),
        ancestor(nodes, parent, k) == Some(child),
    ensures
        !is_forest(nodes),
{
    if is_forest(nodes) {
        lemma_forest_is_acyclic(nodes);
        lemma_ancestor_in_range(nodes, parent, 0);
        lemma_rooted_parent(nodes, child, nodes.len());
        assert(ancestor(nodes, parent, 0) == Some(parent));
        assert(ancestor(nodes, child, 1) == Some(parent));
        lemma_ancestor_chain(nodes, child, 1, k);
        assert(ancestor(nodes, child, 1 + k) == Some(child));
    }
}

/// A list with a parent link that names no node is no forest.
pub proof fn lemma_dangling_parent_is_refused(nodes: Seq<GNodeView>, i: int)
    requires
        0 <= i < nodes.len(),
        nodes[i].parent is Some,
        !(0 <= nodes[i].parent.unwrap() < nodes.len()),
    ensures
        !is_forest(nodes),
{
    if is_forest(nodes) {
        lemma_rooted_parent(nodes, i, nodes.len());
    }
}

} // verus!
