//! What a frame shows of the tree: where each node and each link to a
//! parent goes on the screen, and which node is hovered.

use vstd::prelude::*;
use crate::camera::{Camera, CameraView};
use crate::fixed::{mul_div, saturate, saturate_i128, sub_sat, UNIT};
use crate::geometry::{Point, Rect};
use crate::gtree::{views, GNode, GNodeView, GTree};
use crate::hit_test::{
    dialogue_bounds, dialogue_holds, hovered, hovered_node, in_dialogue, next_interaction,
    next_selection, screen_radius, Interaction,
};

verus! {

/// The line from a node to its parent.
#[derive(Clone, Copy, Debug, PartialEq, Eq, Structural)]
pub struct Connection {
    /// The screen position of the node.
    pub from: Point,
    /// The screen position of its parent.
    pub to: Point,
    /// Whether the parent is lit.
    pub lit: bool,
}

/// What a frame shows of the tree.
#[derive(Debug)]
pub struct TreeScene {
    /// For each node the line to its parent, where it has one.
    pub connections: Vec<Option<Connection>>,
    /// For each node the square in which its disc is drawn.
    pub sprites: Vec<Rect>,
    /// The hovered node: none while an open dialogue holds the pointer.
    pub hovered: Option<usize>,
}

/// The square about a node's disc on the screen.
pub open spec fn node_sprite(cam: CameraView, node: GNodeView) -> Rect {
    let at = cam.world_to_screen(node.position);
    let r = screen_radius(cam, node);
    Rect { x: saturate(at.x - r), y: saturate(at.y - r), w: saturate(2 * r), h: saturate(2 * r) }
}

/// The line from node `i` to its parent, where both are nodes of the list.
pub open spec fn connection(cam: CameraView, nodes: Seq<GNodeView>, i: int) -> Option<Connection> {
    if 0 <= i < nodes.len() {
        match nodes[i].parent {
            Some(p) => if 0 <= p < nodes.len() {
                Some(
                    Connection {
                        from: cam.world_to_screen(nodes[i].position),
                        to: cam.world_to_screen(nodes[p].position),
                        lit: nodes[p].is_lit,
                    },
                )
            } else {
                None
            },
            None => None,
        }
    } else {
        None
    }
}

/// The selection that an optional node stands for: the dialogue of that
/// node is open, or nothing is selected.
pub open spec fn as_interaction(selected: Option<usize>) -> Interaction {
    match selected {
        Some(id) => Interaction::DialogueOpen(id),
        None => Interaction::NoSelection,
    }
}

/// The selected node after a frame: the node whose dialogue is open once
/// the selection has advanced by the frame. A dialogue that holds the
/// pointer stays, whatever lies under it. One that the pointer has left
/// closes, and a press of the primary button on a node opens that node's.
pub open spec fn selected_after(
    selected: Option<usize>,
    cam: CameraView,
    nodes: Seq<GNodeView>,
    mouse: Point,
    pressed: bool,
) -> Option<usize> {
    match next_interaction(as_interaction(selected), cam, nodes, mouse, pressed) {
        Interaction::DialogueOpen(id) => Some(id),
        _ => None,
    }
}

/// The node that a frame shows as hovered: the topmost node under the
/// pointer, and none while the dialogue of the selected node holds the
/// pointer.
pub open spec fn hovered_beside(
    selected: Option<usize>,
    cam: CameraView,
    nodes: Seq<GNodeView>,
    mouse: Point,
) -> Option<int> {
    if in_dialogue(as_interaction(selected), cam, nodes, mouse) {
        None
    } else {
        hovered(cam, nodes, mouse)
    }
}

/// While the dialogue of the selected node holds the pointer, the node stays
/// selected and no node is hovered, whatever lies under the pointer and
/// whether or not the primary button was pressed.
pub proof fn lemma_selection_sticks(
    id: usize,
    cam: CameraView,
    nodes: Seq<GNodeView>,
    mouse: Point,
    pressed: bool,
)
    requires
        id < nodes.len(),
        dialogue_bounds(cam, nodes[id as int]).holds(mouse),
    ensures
        selected_after(Some(id), cam, nodes, mouse, pressed) == Some(id),
        hovered_beside(Some(id), cam, nodes, mouse).is_none(),
{
}

/// Once the pointer has left the dialogue of the selected node, the
/// selection is gone in the same frame unless the primary button was
/// pressed on a node, and the topmost node under the pointer is hovered.
pub proof fn lemma_selection_closes(
    id: usize,
    cam: CameraView,
    nodes: Seq<GNodeView>,
    mouse: Point,
    pressed: bool,
)
    requires
        id < nodes.len() ==> !dialogue_bounds(cam, nodes[id as int]).holds(mouse),
    ensures
        hovered_beside(Some(id), cam, nodes, mouse) == hovered(cam, nodes, mouse),
        !pressed || hovered(cam, nodes, mouse).is_none() ==> selected_after(
            Some(id),
            cam,
            nodes,
            mouse,
            pressed,
        ).is_none(),
        pressed && hovered(cam, nodes, mouse) is Some ==> selected_after(
            Some(id),
            cam,
            nodes,
            mouse,
            pressed,
        ) == Some(hovered(cam, nodes, mouse).unwrap() as usize),
{
}

/// The square in which the disc of `node` is drawn.
pub fn draw_node(cam: &Camera, node: &GNode) -> (sprite: Rect)
    ensures
        sprite == node_sprite(cam@, node@),
{
    let r = saturate_i128(mul_div(node.r, cam.zoom(), UNIT));
    let at = cam.world_to_screen(Point { x: node.x, y: node.y });
    let side = saturate_i128(2 * (r as i128));
    Rect { x: sub_sat(at.x, r), y: sub_sat(at.y, r), w: side, h: side }
}

/// The line from the node at `node_idx` to its parent.
pub fn draw_connection(cam: &Camera, nodes: &Vec<GNode>, node_idx: usize) -> (line: Option<
    Connection,
>)
    ensures
        line == connection(cam@, views(nodes@), node_idx as int),
{
    if node_idx >= nodes.len() {
        return None;
    }
    let node = &nodes[node_idx];
    match node.parent {
        Some(parent_idx) => {
            if parent_idx < nodes.len() {
                let parent = &nodes[parent_idx];
                Some(
                    Connection {
                        from: cam.world_to_screen(Point { x: node.x, y: node.y }),
                        to: cam.world_to_screen(Point { x: parent.x, y: parent.y }),
                        lit: parent.is_lit,
                    },
                )
            } else {
                None
            }
        },
        None => None,
    }
}

/// Lays the tree out for one frame and advances the selection by it.
/// `selected_node` is the node whose dialogue is open. The dialogue stays
/// while it holds the pointer, and then no node counts as hovered. Once the
/// pointer has left it, it closes in the same frame, the topmost node under
/// the pointer is hovered, and a press of the primary button on that node
/// opens its dialogue.
pub fn draw_tree(
    cam: &Camera,
    gtree: &GTree,
    selected_node: &mut Option<usize>,
    mouse: Point,
    pressed: bool,
) -> (scene: TreeScene)
    ensures
        scene.connections@.len() == gtree@.nodes.len(),
        scene.sprites@.len() == gtree@.nodes.len(),
        forall|i: int|
            0 <= i < gtree@.nodes.len() ==> #[trigger] scene.connections@[i] == connection(
                cam@,
                gtree@.nodes,
                i,
            ),
        forall|i: int|
            0 <= i < gtree@.nodes.len() ==> #[trigger] scene.sprites@[i] == node_sprite(
                cam@,
                gtree@.nodes[i],
            ),
        match scene.hovered {
            Some(i) => hovered_beside(*old(selected_node), cam@, gtree@.nodes, mouse) == Some(
                i as int,
            ),
            None => hovered_beside(*old(selected_node), cam@, gtree@.nodes, mouse).is_none(),
        },
        *final(selected_node) == selected_after(
            *old(selected_node),
            cam@,
            gtree@.nodes,
            mouse,
            pressed,
        ),
{
    let nodes = gtree.nodes();
    let n = nodes.len();
    let mut connections: Vec<Option<Connection>> = Vec::new();
    let mut sprites: Vec<Rect> = Vec::new();
    let mut i: usize = 0;
    while i < n
        invariant
            i <= n,
            n == nodes@.len(),
            views(nodes@) == gtree@.nodes,
            connections@.len() == i,
            sprites@.len() == i,
            forall|j: int|
                0 <= j < i ==> #[trigger] connections@[j] == connection(cam@, gtree@.nodes, j),
            forall|j: int|
                0 <= j < i ==> #[trigger] sprites@[j] == node_sprite(cam@, gtree@.nodes[j]),
        decreases n - i,
    {
        assert(views(nodes@)[i as int] == nodes@[i as int]@);
        connections.push(draw_connection(cam, nodes, i));
        sprites.push(draw_node(cam, &nodes[i]));
        i = i + 1;
    }
    let before = match *selected_node {
        Some(id) => Interaction::DialogueOpen(id),
        None => Interaction::NoSelection,
    };
    let hovered = if dialogue_holds(before, cam, nodes, mouse) {
        None
    } else {
        hovered_node(cam, nodes, mouse)
    };
    *selected_node = match next_selection(before, cam, nodes, mouse, pressed) {
        Interaction::DialogueOpen(id) => Some(id),
        _ => None,
    };
    TreeScene { connections, sprites, hovered }
}

} // verus!
