//! Which node the pointer is over, and the selection that follows from it:
//! nothing, a hovered node, or a node whose dialogue is open.

use vstd::prelude::*;
use crate::camera::{Camera, CameraView};
use crate::fixed::{add_sat, mul_div, saturate, saturate_i128, scale, sub_sat, times, UNIT};
use crate::geometry::{Point, Rect};
use crate::gtree::{views, GNode, GNodeView, GTree, GTreeView};

verus! {

/// The width of a node's dialogue.
pub const DIALOGUE_WIDTH: i64 = 260_000;

/// The distance from a node's centre to the left edge of its dialogue.
pub const DIALOGUE_GAP: i64 = 20_000;

/// The margin inside a dialogue.
pub const DIALOGUE_PADDING: i64 = 12_000;

/// The height of a dialogue's title area.
pub const DIALOGUE_HEADER: i64 = 40_000;

/// The height of one task row of a dialogue.
pub const TASK_ROW_HEIGHT: i64 = 24_000;

/// The width of a task's checkbox.
pub const CHECKBOX_WIDTH: i64 = 24_000;

/// The radius of a node's disc on the screen.
pub open spec fn screen_radius(cam: CameraView, node: GNodeView) -> i64 {
    saturate(scale(node.radius, cam.zoom, UNIT as int))
}

/// Whether the screen point `mouse` lies on the disc of `node`.
pub open spec fn over_node(cam: CameraView, node: GNodeView, mouse: Point) -> bool {
    cam.world_to_screen(node.position).reaches(mouse, screen_radius(cam, node) as int)
}

/// The last of the first `n` nodes whose disc is under `mouse`.
pub open spec fn topmost(cam: CameraView, nodes: Seq<GNodeView>, mouse: Point, n: nat) -> Option<
    int,
>
    decreases n,
{
    if n == 0 {
        None
    } else if over_node(cam, nodes[n - 1], mouse) {
        Some(n - 1)
    } else {
        topmost(cam, nodes, mouse, (n - 1) as nat)
    }
}

/// The node that is hovered: of the nodes under `mouse` the one drawn last,
/// which is the one with the highest index.
pub open spec fn hovered(cam: CameraView, nodes: Seq<GNodeView>, mouse: Point) -> Option<int> {
    topmost(cam, nodes, mouse, nodes.len())
}

/// The height of a dialogue with `rows` task rows.
pub open spec fn dialogue_height(rows: int) -> int {
    DIALOGUE_HEADER + rows * TASK_ROW_HEIGHT + 2 * DIALOGUE_PADDING
}

/// The screen rectangle of a node's dialogue: beside the node, centred on it
/// vertically, and as high as its tasks need.
pub open spec fn dialogue_bounds(cam: CameraView, node: GNodeView) -> Rect {
    let at = cam.world_to_screen(node.position);
    let h = saturate(dialogue_height(node.tasks.len() as int));
    Rect { x: saturate(at.x + DIALOGUE_GAP), y: saturate(at.y - h / 2), w: DIALOGUE_WIDTH, h }
}

/// The screen rectangle of the checkbox of task row `row` in a dialogue.
pub open spec fn checkbox_rect(bounds: Rect, row: int) -> Rect {
    Rect {
        x: saturate(bounds.x + DIALOGUE_PADDING),
        y: saturate(bounds.y + DIALOGUE_PADDING + DIALOGUE_HEADER + row * TASK_ROW_HEIGHT),
        w: CHECKBOX_WIDTH,
        h: TASK_ROW_HEIGHT,
    }
}

/// The first task row from `start` on, of `rows` rows, whose checkbox holds
/// `mouse`.
pub open spec fn checkbox_from(bounds: Rect, rows: int, mouse: Point, start: int) -> Option<int>
    decreases rows - start,
{
    if start >= rows {
        None
    } else if checkbox_rect(bounds, start).holds(mouse) {
        Some(start)
    } else {
        checkbox_from(bounds, rows, mouse, start + 1)
    }
}

/// The task row whose checkbox holds `mouse`: the topmost, where two do.
pub open spec fn checkbox_at(bounds: Rect, rows: int, mouse: Point) -> Option<int> {
    checkbox_from(bounds, rows, mouse, 0)
}

/// What the pointer has selected.
#[derive(Clone, Copy, Debug, PartialEq, Eq, Structural)]
pub enum Interaction {
    NoSelection,
    HoveringNode(usize),
    DialogueOpen(usize),
}

/// Whether tasks can be checked off.
#[derive(Clone, Copy, Debug, PartialEq, Eq, Structural)]
pub enum Mode {
    /// Tasks can be checked and unchecked.
    Edit,
    /// Tasks are shown and cannot be changed.
    Grind,
}

/// Whether a dialogue is open on a node of the tree and holds `mouse`.
pub open spec fn in_dialogue(
    state: Interaction,
    cam: CameraView,
    nodes: Seq<GNodeView>,
    mouse: Point,
) -> bool {
    match state {
        Interaction::DialogueOpen(id) => id < nodes.len() && dialogue_bounds(
            cam,
            nodes[id as int],
        ).holds(mouse),
        _ => false,
    }
}

/// The selection after a frame. An open dialogue stays while it holds the
/// pointer. Otherwise the selection follows the hovered node, in the same
/// frame in which a dialogue closes: a click opens that node's dialogue, and
/// without a hovered node nothing is selected.
pub open spec fn next_interaction(
    state: Interaction,
    cam: CameraView,
    nodes: Seq<GNodeView>,
    mouse: Point,
    clicked: bool,
) -> Interaction {
    if in_dialogue(state, cam, nodes, mouse) {
        state
    } else {
        match hovered(cam, nodes, mouse) {
            Some(i) => if clicked {
                Interaction::DialogueOpen(i as usize)
            } else {
                Interaction::HoveringNode(i as usize)
            },
            None => Interaction::NoSelection,
        }
    }
}

/// The node and the task that a frame toggles: in edit mode, a click on a
/// checkbox of the open dialogue toggles that row's task.
pub open spec fn toggled_task(
    state: Interaction,
    cam: CameraView,
    nodes: Seq<GNodeView>,
    mouse: Point,
    clicked: bool,
    mode: Mode,
) -> Option<(int, int)> {
    match state {
        Interaction::DialogueOpen(id) => if in_dialogue(state, cam, nodes, mouse) && clicked
            && mode == Mode::Edit {
            match checkbox_at(
                dialogue_bounds(cam, nodes[id as int]),
                nodes[id as int].tasks.len() as int,
                mouse,
            ) {
                Some(row) => Some((id as int, row)),
                None => None,
            }
        } else {
            None
        },
        _ => None,
    }
}

/// The tree after a frame: as before, but for the task that the frame
/// toggles.
pub open spec fn tree_after(
    tree: GTreeView,
    state: Interaction,
    cam: CameraView,
    mouse: Point,
    clicked: bool,
    mode: Mode,
) -> GTreeView {
    match toggled_task(state, cam, tree.nodes, mouse, clicked, mode) {
        Some((node, task)) => tree.toggle_task(node, task),
        None => tree,
    }
}

/// Tests whether the screen point `mouse` lies on the disc of `node`.
pub fn is_mouse_over_node(cam: &Camera, node: &GNode, mouse: Point) -> (over: bool)
    ensures
        over == over_node(cam@, node@, mouse),
{
    let node_pos = cam.world_to_screen(Point { x: node.x, y: node.y });
    let r = saturate_i128(mul_div(node.r, cam.zoom(), UNIT));
    node_pos.within(mouse, r)
}

/// The hovered node: of the nodes whose disc is under `mouse`, the one with
/// the highest index.
pub fn hovered_node(cam: &Camera, nodes: &Vec<GNode>, mouse: Point) -> (found: Option<usize>)
    ensures
        match found {
            Some(i) => hovered(cam@, views(nodes@), mouse) == Some(i as int),
            None => hovered(cam@, views(nodes@), mouse).is_none(),
        },
{
    let n = nodes.len();
    let ghost all = views(nodes@);
    let mut found: Option<usize> = None;
    let mut i: usize = 0;
    while i < n
        invariant
            i <= n,
            n == nodes@.len(),
            all == views(nodes@),
            match found {
                Some(k) => topmost(cam@, all, mouse, i as nat) == Some(k as int),
                None => topmost(cam@, all, mouse, i as nat).is_none(),
            },
        decreases n - i,
    {
        assert(all[i as int] == nodes@[i as int]@);
        if is_mouse_over_node(cam, &nodes[i], mouse) {
            found = Some(i);
        }
        i = i + 1;
    }
    found
}

/// The screen rectangle of a node's dialogue.
pub fn dialogue_rect(cam: &Camera, node: &GNode) -> (bounds: Rect)
    ensures
        bounds == dialogue_bounds(cam@, node@),
{
    let at = cam.world_to_screen(Point { x: node.x, y: node.y });
    let rows = times(node.tasks.len(), TASK_ROW_HEIGHT);
    let h = saturate_i128(DIALOGUE_HEADER as i128 + rows + 2 * (DIALOGUE_PADDING as i128));
    Rect { x: add_sat(at.x, DIALOGUE_GAP), y: sub_sat(at.y, h / 2), w: DIALOGUE_WIDTH, h }
}

/// The screen rectangle of the checkbox of one task row of a dialogue.
pub fn checkbox(bounds: &Rect, row: usize) -> (r: Rect)
    ensures
        r == checkbox_rect(*bounds, row as int),
{
    let y: i128 = bounds.y as i128 + DIALOGUE_PADDING as i128 + DIALOGUE_HEADER as i128
        + times(row, TASK_ROW_HEIGHT);
    Rect {
        x: add_sat(bounds.x, DIALOGUE_PADDING),
        y: saturate_i128(y),
        w: CHECKBOX_WIDTH,
        h: TASK_ROW_HEIGHT,
    }
}

/// The task row of a dialogue with `rows` rows whose checkbox holds `mouse`:
/// the topmost, where two do.
pub fn clicked_checkbox(bounds: &Rect, rows: usize, mouse: Point) -> (found: Option<usize>)
    ensures
        match found {
            Some(row) => checkbox_at(*bounds, rows as int, mouse) == Some(row as int),
            None => checkbox_at(*bounds, rows as int, mouse).is_none(),
        },
{
    let mut i: usize = 0;
    while i < rows
        invariant
            i <= rows,
            checkbox_at(*bounds, rows as int, mouse) == checkbox_from(
                *bounds,
                rows as int,
                mouse,
                i as int,
            ),
        decreases rows - i,
    {
        if checkbox(bounds, i).contains(mouse) {
            return Some(i);
        }
        i = i + 1;
    }
    None
}

/// Tests whether a dialogue is open on one of the nodes and holds `mouse`.
pub fn dialogue_holds(state: Interaction, cam: &Camera, nodes: &Vec<GNode>, mouse: Point) -> (held:
    bool)
    ensures
        held == in_dialogue(state, cam@, views(nodes@), mouse),
{
    match state {
        Interaction::DialogueOpen(id) => {
            if id < nodes.len() {
                assert(views(nodes@)[id as int] == nodes@[id as int]@);
                dialogue_rect(cam, &nodes[id]).contains(mouse)
            } else {
                false
            }
        },
        _ => false,
    }
}

/// The selection after a frame. An open dialogue that holds the pointer
/// stays. Otherwise the node under the pointer is hovered, or opened where
/// the primary button went down on it, and without such a node nothing is
/// selected.
pub fn next_selection(
    state: Interaction,
    cam: &Camera,
    nodes: &Vec<GNode>,
    mouse: Point,
    clicked: bool,
) -> (next: Interaction)
    ensures
        next == next_interaction(state, cam@, views(nodes@), mouse, clicked),
{
    if dialogue_holds(state, cam, nodes, mouse) {
        return state;
    }
    match hovered_node(cam, nodes, mouse) {
        Some(i) => if clicked {
            Interaction::DialogueOpen(i)
        } else {
            Interaction::HoveringNode(i)
        },
        None => Interaction::NoSelection,
    }
}

/// Advances the selection by one frame, and toggles the task whose checkbox
/// was clicked. `mouse` is the pointer on the screen, and `clicked` tells
/// whether the primary button went down in this frame.
pub fn step(
    state: Interaction,
    cam: &Camera,
    tree: &mut GTree,
    mouse: Point,
    clicked: bool,
    mode: Mode,
) -> (next: Interaction)
    ensures
        next == next_interaction(state, cam@, old(tree)@.nodes, mouse, clicked),
        final(tree)@ == tree_after(old(tree)@, state, cam@, mouse, clicked, mode),
{
    if let Interaction::DialogueOpen(id) = state {
        let open = match tree.node(id) {
            Some(node) => {
                let bounds = dialogue_rect(cam, node);
                if bounds.contains(mouse) {
                    Some((bounds, node.tasks.len()))
                } else {
                    None
                }
            },
            None => None,
        };
        if let Some((bounds, rows)) = open {
            let editing = match mode {
                Mode::Edit => true,
                Mode::Grind => false,
            };
            if clicked && editing {
                if let Some(row) = clicked_checkbox(&bounds, rows, mouse) {
                    proof {
                        lemma_checkbox_in_rows(bounds, rows as int, mouse, 0);
                    }
                    let _ = tree.toggle_task(id, row);
                }
            }
            return state;
        }
    }
    next_selection(state, cam, tree.nodes(), mouse, clicked)
}

/// The row that a click lands on is one of the rows, holds the pointer, and
/// no row above it does.
pub proof fn lemma_checkbox_in_rows(bounds: Rect, rows: int, mouse: Point, start: int)
    requires
        0 <= start,
    ensures
        match checkbox_from(bounds, rows, mouse, start) {
            Some(row) => {
                &&& start <= row < rows
                &&& checkbox_rect(bounds, row).holds(mouse)
                &&& forall|j: int| start <= j < row ==> !checkbox_rect(bounds, j).holds(mouse)
            },
            None => forall|j: int| start <= j < rows ==> !checkbox_rect(bounds, j).holds(mouse),
        },
    decreases rows - start,
{
    if start < rows && !checkbox_rect(bounds, start).holds(mouse) {
        lemma_checkbox_in_rows(bounds, rows, mouse, start + 1);
    }
}

/// The hovered node is under the pointer and no node after it is; where no
/// node is hovered, none is under the pointer.
pub proof fn lemma_topmost_is_last(cam: CameraView, nodes: Seq<GNodeView>, mouse: Point, n: nat)
    requires
        n <= nodes.len(),
    ensures
        match topmost(cam, nodes, mouse, n) {
            Some(k) => {
                &&& 0 <= k < n
                &&& over_node(cam, nodes[k], mouse)
                &&& forall|j: int| k < j < n ==> !over_node(cam, nodes[j], mouse)
            },
            None => forall|j: int| 0 <= j < n ==> !over_node(cam, nodes[j], mouse),
        },
    decreases n,
{
    if n > 0 && !over_node(cam, nodes[n - 1], mouse) {
        lemma_topmost_is_last(cam, nodes, mouse, (n - 1) as nat);
    }
}

/// Of two nodes under the pointer the earlier one is never the hovered one:
/// the node drawn later covers it.
pub proof fn lemma_later_node_wins(
    cam: CameraView,
    nodes: Seq<GNodeView>,
    mouse: Point,
    earlier: int,
    later: int,
)
    requires
        0 <= earlier < later < nodes.len(),
        over_node(cam, nodes[earlier], mouse),
        over_node(cam, nodes[later], mouse),
    ensures
        hovered(cam, nodes, mouse) is Some,
        hovered(cam, nodes, mouse).unwrap() >= later,
        over_node(cam, nodes[hovered(cam, nodes, mouse).unwrap()], mouse),
{
    lemma_topmost_is_last(cam, nodes, mouse, nodes.len());
}

/// An open dialogue that holds the pointer stays open, whatever is under it
/// and whether or not the button was clicked.
pub proof fn lemma_dialogue_sticks(
    id: usize,
    cam: CameraView,
    nodes: Seq<GNodeView>,
    mouse: Point,
    clicked: bool,
)
    requires
        id < nodes.len(),
        dialogue_bounds(cam, nodes[id as int]).holds(mouse),
    ensures
        next_interaction(Interaction::DialogueOpen(id), cam, nodes, mouse, clicked)
            == Interaction::DialogueOpen(id),
{
}

/// Once the pointer has left an open dialogue, the frame's selection is the
/// one that would follow from no selection at all: the dialogue closes and
/// the node under the pointer, if any, is hovered or opened at once.
pub proof fn lemma_dialogue_closes(
    id: usize,
    cam: CameraView,
    nodes: Seq<GNodeView>,
    mouse: Point,
    clicked: bool,
)
    requires
        id < nodes.len() ==> !dialogue_bounds(cam, nodes[id as int]).holds(mouse),
    ensures
        next_interaction(Interaction::DialogueOpen(id), cam, nodes, mouse, clicked)
            == next_interaction(Interaction::NoSelection, cam, nodes, mouse, clicked),
        hovered(cam, nodes, mouse).is_none() ==> next_interaction(
            Interaction::DialogueOpen(id),
            cam,
            nodes,
            mouse,
            clicked,
        ) == Interaction::NoSelection,
{
}

} // verus!
