//! The skill tree: nodes with tasks, linked to their parents, and the
//! progress derived from them.

use vstd::prelude::*;
use crate::fixed::{floor_div, times, UNIT};
use crate::forest::{
    ancestor, descends_from, lemma_ancestor_chain, lemma_reparent_keeps_forest, with_parent,
};
use crate::geometry::Point;

verus! {

/// Why an operation on a tree was refused.
#[derive(Clone, Copy, Debug, PartialEq, Eq, Structural)]
pub enum TreeError {
    /// A file could not be read or written.
    IoError,
    /// A document was malformed.
    ParseError,
    /// A parent link names no node of the tree, or closes a cycle.
    InvalidParent,
    /// No node, or no task of the node, has the given index.
    NotFound,
}

/// One step towards a node's goal.
#[derive(Clone, Debug)]
pub struct Task {
    pub content: String,
    pub checked: bool,
}

/// What a task is, to the contracts.
pub struct TaskView {
    pub content: Seq<char>,
    pub checked: bool,
}

impl View for Task {
    type V = TaskView;

    open spec fn view(&self) -> TaskView {
        TaskView { content: self.content@, checked: self.checked }
    }
}

/// A goal of the tree, drawn as a disc of radius `r` about (`x`, `y`).
#[derive(Clone, Debug)]
pub struct GNode {
    pub title: String,
    pub description: String,
    /// The authored progress, which counts where the node has no tasks.
    pub progress: i64,
    pub tasks: Vec<Task>,
    pub is_lit: bool,
    pub x: i64,
    pub y: i64,
    pub r: i64,
    /// The index of the parent node, or `None` for a root.
    pub parent: Option<usize>,
}

/// What a node is, to the contracts.
pub struct GNodeView {
    pub title: Seq<char>,
    pub description: Seq<char>,
    pub progress: int,
    pub tasks: Seq<TaskView>,
    pub is_lit: bool,
    pub position: Point,
    pub radius: int,
    pub parent: Option<int>,
}

impl View for GNode {
    type V = GNodeView;

    open spec fn view(&self) -> GNodeView {
        GNodeView {
            title: self.title@,
            description: self.description@,
            progress: self.progress as int,
            tasks: Seq::new(self.tasks@.len(), |i: int| self.tasks@[i]@),
            is_lit: self.is_lit,
            position: Point { x: self.x, y: self.y },
            radius: self.r as int,
            parent: match self.parent {
                Some(p) => Some(p as int),
                None => None,
            },
        }
    }
}

/// The number of tasks among the first `n` that are checked.
pub open spec fn done_count(tasks: Seq<TaskView>, n: nat) -> nat
    decreases n,
{
    if n == 0 {
        0
    } else {
        done_count(tasks, (n - 1) as nat) + if tasks[n - 1].checked {
            1nat
        } else {
            0nat
        }
    }
}

impl GNodeView {
    /// The node's progress: the fraction of its tasks that are checked, or,
    /// without tasks, the authored value.
    pub open spec fn progress(self) -> int {
        if self.tasks.len() > 0 {
            (done_count(self.tasks, self.tasks.len()) * UNIT) / (self.tasks.len() as int)
        } else {
            self.progress
        }
    }
}

/// The progress of `node`: the fraction of its tasks that are checked, or,
/// where it has no tasks, its authored progress.
pub fn compute_progress(node: &GNode) -> (p: i64)
    ensures
        p == node@.progress(),
        node@.tasks.len() > 0 ==> 0 <= p <= UNIT,
{
    let n = node.tasks.len();
    if n == 0 {
        return node.progress;
    }
    let mut done: usize = 0;
    let mut i: usize = 0;
    while i < n
        invariant
            i <= n,
            n == node.tasks@.len(),
            done == done_count(node@.tasks, i as nat),
            done <= i,
        decreases n - i,
    {
        if node.tasks[i].checked {
            done = done + 1;
        }
        i = i + 1;
    }
    let scaled: i128 = times(done, UNIT);
    let q = scaled / (n as i128);
    proof {
        assert(0 <= (done * 1000) / (n as int) <= 1000) by (nonlinear_arith)
            requires
                0 <= done <= n,
                n > 0,
        ;
    }
    q as i64
}

/// The parent link that a document's `parent` entry stands for: no entry
/// marks a root, an index that is not negative names a node, and a negative
/// one is refused with `InvalidParent`.
pub fn parent_index(raw: Option<i64>) -> (parent: Result<Option<usize>, TreeError>)
    ensures
        match raw {
            None => parent == Ok::<Option<usize>, TreeError>(None),
            Some(p) => if 0 <= p <= usize::MAX {
                parent == Ok::<Option<usize>, TreeError>(Some(p as usize))
            } else {
                parent == Err::<Option<usize>, TreeError>(TreeError::InvalidParent)
            },
        },
{
    match raw {
        None => Ok(None),
        Some(p) => {
            if p < 0 || p as u64 > usize::MAX as u64 {
                Err(TreeError::InvalidParent)
            } else {
                Ok(Some(p as usize))
            }
        },
    }
}

/// The views of the nodes of a list, in its order.
pub open spec fn views(nodes: Seq<GNode>) -> Seq<GNodeView> {
    Seq::new(nodes.len(), |i: int| nodes[i]@)
}

/// Whether the chain of parents that starts at node `i` stays among the
/// nodes and ends at a root after at most `hops` links.
pub open spec fn rooted(nodes: Seq<GNodeView>, i: int, hops: nat) -> bool
    decreases hops,
{
    &&& 0 <= i < nodes.len()
    &&& match nodes[i].parent {
        None => true,
        Some(p) => hops > 0 && rooted(nodes, p, (hops - 1) as nat),
    }
}

/// Whether the parent links make a forest: from every node the chain of
/// parents ends at a root. A chain that ends has no node twice, so it has
/// fewer links than there are nodes.
pub open spec fn is_forest(nodes: Seq<GNodeView>) -> bool {
    forall|i: int| 0 <= i < nodes.len() ==> rooted(nodes, i, nodes.len())
}

/// The sum of the progress of the first `n` nodes.
pub open spec fn progress_sum(nodes: Seq<GNodeView>, n: nat) -> int
    decreases n,
{
    if n == 0 {
        0
    } else {
        progress_sum(nodes, (n - 1) as nat) + nodes[n - 1].progress()
    }
}

/// The mean of the progress of the nodes, rounded down; 0 without nodes.
pub open spec fn overall_progress(nodes: Seq<GNodeView>) -> int {
    if nodes.len() == 0 {
        0
    } else {
        progress_sum(nodes, nodes.len()) / (nodes.len() as int)
    }
}

/// The mean of `n` values between `lo` and `hi` lies between `lo` and `hi`.
pub proof fn lemma_mean_bound(sum: int, n: int, lo: int, hi: int)
    requires
        n > 0,
        n * lo <= sum <= n * hi,
    ensures
        lo <= sum / n <= hi,
{
    let q = sum / n;
    let r = sum % n;
    assert(sum == n * q + r && 0 <= r < n) by (nonlinear_arith)
        requires
            n > 0,
            q == sum / n,
            r == sum % n,
    ;
    assert(lo <= q <= hi) by (nonlinear_arith)
        requires
            sum == n * q + r,
            0 <= r < n,
            n * lo <= sum <= n * hi,
    ;
}

/// A chain that ends within `hops` links still does so with more links
/// allowed, and in every list that has the same parent links at the same
/// places, whatever it holds beyond them.
pub proof fn lemma_rooted_carries(
    before: Seq<GNodeView>,
    after: Seq<GNodeView>,
    i: int,
    hops: nat,
    more: nat,
)
    requires
        rooted(before, i, hops),
        hops <= more,
        before.len() <= after.len(),
        forall|k: int| 0 <= k < before.len() ==> before[k].parent == after[k].parent,
    ensures
        rooted(after, i, more),
    decreases hops,
{
    match before[i].parent {
        None => {},
        Some(p) => {
            lemma_rooted_carries(before, after, p, (hops - 1) as nat, (more - 1) as nat);
        },
    }
}

/// Tests whether the parent links of `nodes` make a forest.
pub fn links_valid(nodes: &Vec<GNode>) -> (ok: bool)
    ensures
        ok == is_forest(views(nodes@)),
{
    let n = nodes.len();
    let ghost all = views(nodes@);
    let mut i: usize = 0;
    while i < n
        invariant
            i <= n,
            n == nodes@.len(),
            all == views(nodes@),
            forall|j: int| 0 <= j < i ==> rooted(all, j, n as nat),
        decreases n - i,
    {
        let mut cur: usize = i;
        let mut hops: usize = 0;
        let mut at_root = false;
        while !at_root
            invariant
                n == nodes@.len(),
                all == views(nodes@),
                i < n,
                cur < n,
                hops <= n,
                !at_root ==> rooted(all, i as int, n as nat) == rooted(
                    all,
                    cur as int,
                    (n - hops) as nat,
                ),
                at_root ==> rooted(all, i as int, n as nat),
            decreases n - hops + if at_root { 0int } else { 1int },
        {
            match nodes[cur].parent {
                None => {
                    assert(all[cur as int].parent.is_none());
                    assert(rooted(all, cur as int, (n - hops) as nat));
                    at_root = true;
                },
                Some(p) => {
                    assert(all[cur as int].parent == Some(p as int));
                    if hops == n || p >= n {
                        assert(!rooted(all, p as int, (n - hops - 1) as nat) || hops == n);
                        assert(!rooted(all, cur as int, (n - hops) as nat));
                        return false;
                    }
                    assert(rooted(all, cur as int, (n - hops) as nat) == rooted(
                        all,
                        p as int,
                        (n - hops - 1) as nat,
                    ));
                    cur = p;
                    hops = hops + 1;
                },
            }
        }
        i = i + 1;
    }
    true
}

/// Tests whether node `target` is reached from node `from` along the parent
/// links of a forest.
fn reaches(nodes: &Vec<GNode>, from: usize, target: usize) -> (found: bool)
    requires
        is_forest(views(nodes@)),
        from < nodes@.len(),
    ensures
        found == descends_from(views(nodes@), from as int, target as int),
{
    let n = nodes.len();
    let ghost all = views(nodes@);
    let mut cur: usize = from;
    let mut hops: usize = 0;
    assert(rooted(all, from as int, n as nat));
    loop
        invariant
            n == nodes@.len(),
            all == views(nodes@),
            cur < n,
            hops <= n,
            rooted(all, cur as int, (n - hops) as nat),
            ancestor(all, from as int, hops as nat) == Some(cur as int),
            forall|k: nat| k < hops ==> ancestor(all, from as int, k) != Some(target as int),
        decreases n - hops,
    {
        if cur == target {
            return true;
        }
        assert(all[cur as int] == nodes@[cur as int]@);
        match nodes[cur].parent {
            None => {
                assert forall|k: nat| ancestor(all, from as int, k) != Some(target as int) by {
                    if k > hops {
                        lemma_ancestor_chain(all, from as int, hops as nat, (k - hops) as nat);
                        assert(ancestor(all, cur as int, (k - hops) as nat).is_none());
                    }
                }
                return false;
            },
            Some(q) => {
                proof {
                    assert(rooted(all, q as int, (n - hops - 1) as nat));
                    lemma_ancestor_chain(all, from as int, hops as nat, 1);
                    assert(ancestor(all, q as int, 0) == Some(q as int));
                    assert(ancestor(all, cur as int, 1) == Some(q as int));
                }
                cur = q;
                hops = hops + 1;
            },
        }
    }
}

/// A tree of nodes. Its parent links always make a forest.
#[derive(Debug)]
pub struct GTree {
    title: String,
    nodes: Vec<GNode>,
}

/// What a tree is, to the contracts.
pub struct GTreeView {
    pub title: Seq<char>,
    pub nodes: Seq<GNodeView>,
}

impl GTreeView {
    /// The parent links make a forest.
    pub open spec fn wf(self) -> bool {
        is_forest(self.nodes)
    }

    /// The mean progress of the nodes.
    pub open spec fn progress(self) -> int {
        overall_progress(self.nodes)
    }

    /// The tree after node `node` has got the parent link `parent`.
    pub open spec fn set_parent(self, node: int, parent: Option<int>) -> GTreeView {
        GTreeView { nodes: with_parent(self.nodes, node, parent), ..self }
    }

    /// The tree after task `task` of node `node` has changed its `checked`
    /// flag and the node's progress has been derived anew.
    pub open spec fn toggle_task(self, node: int, task: int) -> GTreeView {
        let old_node = self.nodes[node];
        let old_task = old_node.tasks[task];
        let flipped = GNodeView {
            tasks: old_node.tasks.update(
                task,
                TaskView { checked: !old_task.checked, ..old_task },
            ),
            ..old_node
        };
        GTreeView {
            nodes: self.nodes.update(
                node,
                GNodeView { progress: flipped.progress(), ..flipped },
            ),
            ..self
        }
    }
}

impl View for GTree {
    type V = GTreeView;

    closed spec fn view(&self) -> GTreeView {
        GTreeView { title: self.title@, nodes: views(self.nodes@) }
    }
}

impl GTree {
    /// The parent links make a forest at all times.
    #[verifier::type_invariant]
    spec fn inv(self) -> bool {
        is_forest(views(self.nodes@))
    }

    /// A tree without nodes.
    pub fn new(title: String) -> (tree: GTree)
        ensures
            tree@.title == title@,
            tree@.nodes.len() == 0,
            tree@.wf(),
    {
        GTree { title, nodes: Vec::new() }
    }

    /// The tree of the given nodes, or `InvalidParent` where a parent link
    /// names no node or the links close a cycle.
    pub fn from_nodes(title: String, nodes: Vec<GNode>) -> (loaded: Result<GTree, TreeError>)
        ensures
            loaded.is_ok() <==> is_forest(views(nodes@)),
            loaded.is_ok() ==> loaded.unwrap()@ == (GTreeView {
                title: title@,
                nodes: views(nodes@),
            }),
            loaded is Err ==> loaded == Err::<GTree, TreeError>(TreeError::InvalidParent),
    {
        if links_valid(&nodes) {
            Ok(GTree { title, nodes })
        } else {
            Err(TreeError::InvalidParent)
        }
    }

    /// The title of the tree.
    pub fn title(&self) -> (title: &String)
        ensures
            title@ == self@.title,
    {
        &self.title
    }

    /// The nodes, each at the index that is its id.
    pub fn nodes(&self) -> (nodes: &Vec<GNode>)
        ensures
            views(nodes@) == self@.nodes,
            self@.wf(),
    {
        proof {
            use_type_invariant(self);
        }
        &self.nodes
    }

    /// The number of nodes.
    pub fn len(&self) -> (n: usize)
        ensures
            n == self@.nodes.len(),
    {
        self.nodes.len()
    }

    /// Adds a node without tasks, and returns its id: the number of nodes
    /// before the call. A parent that is no node of the tree is refused with
    /// `InvalidParent`, and the tree stays as it was.
    pub fn add_node(
        &mut self,
        title: String,
        position: Point,
        radius: i64,
        parent: Option<usize>,
    ) -> (added: Result<usize, TreeError>)
        ensures
            final(self)@.wf(),
            match parent {
                Some(p) => added.is_ok() <==> p < old(self)@.nodes.len(),
                None => added.is_ok(),
            },
            added is Ok ==> {
                &&& added == Ok::<usize, TreeError>(old(self)@.nodes.len() as usize)
                &&& final(self)@.title == old(self)@.title
                &&& final(self)@.nodes == old(self)@.nodes.push(
                    GNodeView {
                        title: title@,
                        description: Seq::empty(),
                        progress: 0,
                        tasks: Seq::empty(),
                        is_lit: false,
                        position,
                        radius: radius as int,
                        parent: match parent {
                            Some(p) => Some(p as int),
                            None => None,
                        },
                    },
                )
            },
            added is Err ==> {
                &&& added == Err::<usize, TreeError>(TreeError::InvalidParent)
                &&& final(self)@ == old(self)@
            },
    {
        proof {
            use_type_invariant(&*self);
        }
        let n = self.nodes.len();
        if let Some(p) = parent {
            if p >= n {
                return Err(TreeError::InvalidParent);
            }
        }
        let node = GNode {
            title,
            description: String::new(),
            progress: 0,
            tasks: Vec::new(),
            is_lit: false,
            x: position.x,
            y: position.y,
            r: radius,
            parent,
        };
        let ghost before = views(self.nodes@);
        let ghost after = before.push(node@);
        let mut nodes: Vec<GNode> = Vec::new();
        std::mem::swap(&mut self.nodes, &mut nodes);
        proof {
            assert(node@.tasks =~= Seq::empty());
            assert(views(nodes@.push(node)) =~= after);
            assert forall|i: int| 0 <= i < after.len() implies rooted(
                after,
                i,
                after.len(),
            ) by {
                if i < n {
                    lemma_rooted_carries(before, after, i, n as nat, after.len());
                } else {
                    match parent {
                        Some(p) => {
                            lemma_rooted_carries(before, after, p as int, n as nat, n as nat);
                        },
                        None => {},
                    }
                }
            }
        }
        nodes.push(node);
        self.nodes = nodes;
        Ok(n)
    }

    /// Gives a node a new parent, or makes it a root. Without such a node
    /// the call is refused with `NotFound`. A parent that is no node of the
    /// tree, or that is the node itself or one of its descendants, is refused
    /// with `InvalidParent`. A refused call leaves the tree as it was.
    pub fn set_parent(&mut self, node_id: usize, parent: Option<usize>) -> (set: Result<
        (),
        TreeError,
    >)
        ensures
            final(self)@.wf(),
            set is Ok || set == Err::<(), TreeError>(TreeError::NotFound) || set == Err::<
                (),
                TreeError,
            >(TreeError::InvalidParent),
            set == Err::<(), TreeError>(TreeError::NotFound) <==> node_id >= old(
                self,
            )@.nodes.len(),
            set == Err::<(), TreeError>(TreeError::InvalidParent) <==> node_id < old(
                self,
            )@.nodes.len() && match parent {
                Some(p) => p >= old(self)@.nodes.len() || descends_from(
                    old(self)@.nodes,
                    p as int,
                    node_id as int,
                ),
                None => false,
            },
            set is Ok ==> final(self)@ == old(self)@.set_parent(
                node_id as int,
                match parent {
                    Some(p) => Some(p as int),
                    None => None,
                },
            ),
            set is Err ==> final(self)@ == old(self)@,
    {
        proof {
            use_type_invariant(&*self);
        }
        let n = self.nodes.len();
        if node_id >= n {
            return Err(TreeError::NotFound);
        }
        if let Some(p) = parent {
            if p >= n || reaches(&self.nodes, p, node_id) {
                return Err(TreeError::InvalidParent);
            }
        }
        let ghost before = views(self.nodes@);
        let ghost link = match parent {
            Some(p) => Some(p as int),
            None => None,
        };
        let mut nodes: Vec<GNode> = Vec::new();
        std::mem::swap(&mut self.nodes, &mut nodes);
        nodes[node_id].parent = parent;
        proof {
            assert(views(nodes@) =~= with_parent(before, node_id as int, link));
            lemma_reparent_keeps_forest(before, node_id as int, link);
        }
        self.nodes = nodes;
        Ok(())
    }

    /// Flips the `checked` flag of one task of one node, and sets the node's
    /// progress to the fraction of its tasks that are then checked. Where the
    /// tree has no such node, or the node no such task, the call is refused
    /// with `NotFound` and the tree stays as it was.
    pub fn toggle_task(&mut self, node_id: usize, task_index: usize) -> (toggled: Result<
        (),
        TreeError,
    >)
        ensures
            final(self)@.wf(),
            toggled.is_ok() <==> node_id < old(self)@.nodes.len() && task_index < old(
                self,
            )@.nodes[node_id as int].tasks.len(),
            toggled is Ok ==> final(self)@ == old(self)@.toggle_task(
                node_id as int,
                task_index as int,
            ),
            toggled is Err ==> {
                &&& toggled == Err::<(), TreeError>(TreeError::NotFound)
                &&& final(self)@ == old(self)@
            },
    {
        proof {
            use_type_invariant(&*self);
        }
        if node_id >= self.nodes.len() {
            return Err(TreeError::NotFound);
        }
        if task_index >= self.nodes[node_id].tasks.len() {
            return Err(TreeError::NotFound);
        }
        let ghost before = views(self.nodes@);
        let mut nodes: Vec<GNode> = Vec::new();
        std::mem::swap(&mut self.nodes, &mut nodes);
        let checked = nodes[node_id].tasks[task_index].checked;
        nodes[node_id].tasks[task_index].checked = !checked;
        let progress = compute_progress(&nodes[node_id]);
        nodes[node_id].progress = progress;
        proof {
            let after = views(nodes@);
            let expected = (GTreeView { title: self.title@, nodes: before }).toggle_task(
                node_id as int,
                task_index as int,
            ).nodes;
            assert(after[node_id as int].tasks =~= expected[node_id as int].tasks);
            assert(after =~= expected);
            assert forall|i: int| 0 <= i < after.len() implies rooted(
                after,
                i,
                after.len(),
            ) by {
                lemma_rooted_carries(before, after, i, before.len(), after.len());
            }
        }
        self.nodes = nodes;
        Ok(())
    }

    /// The mean of the progress of all nodes, rounded down; 0 for a tree
    /// without nodes.
    pub fn compute_overall_progress(&self) -> (p: i64)
        ensures
            p == self@.progress(),
    {
        let n = self.nodes.len();
        if n == 0 {
            return 0;
        }
        let ghost all = views(self.nodes@);
        let mut sum: i128 = 0;
        let mut i: usize = 0;
        while i < n
            invariant
                i <= n,
                n == self.nodes@.len(),
                all == views(self.nodes@),
                sum == progress_sum(all, i as nat),
                -(i as int) * 0x8000_0000_0000_0000 <= sum <= (i as int) * 0x7fff_ffff_ffff_ffff,
            decreases n - i,
        {
            let p = compute_progress(&self.nodes[i]);
            assert(all[i as int] == self.nodes@[i as int]@);
            assert((i as int + 1) * 0x8000_0000_0000_0000 <= 0xffff_ffff_ffff_ffff
                * 0x8000_0000_0000_0000) by (nonlinear_arith)
                requires
                    0 <= i < n <= 0xffff_ffff_ffff_ffff,
            ;
            sum = sum + p as i128;
            i = i + 1;
        }
        let mean = floor_div(sum, n as i128);
        proof {
            lemma_mean_bound(sum as int, n as int, -0x8000_0000_0000_0000, 0x7fff_ffff_ffff_ffff);
        }
        mean as i64
    }

    /// The node with the given id.
    pub fn node(&self, id: usize) -> (node: Option<&GNode>)
        ensures
            node.is_some() <==> id < self@.nodes.len(),
            node.is_some() ==> node.unwrap()@ == self@.nodes[id as int],
    {
        if id < self.nodes.len() {
            Some(&self.nodes[id])
        } else {
            None
        }
    }
}

} // verus!
