//! The layout of the list view: the title of the tree, and below it one
//! card for each node, with a progress bar and the node's tasks.

use vstd::prelude::*;
use crate::fixed::{add_sat, floor_div, mul_div, saturate, saturate_i128, scale, times, UNIT};
use crate::geometry::{Point, Rect};
use crate::gtree::{compute_progress, views, GNode, GNodeView, GTree};

verus! {

/// The height at which the title of the tree is written.
pub const LIST_TOP: i64 = 40_000;

/// The distance from the title to the first card.
pub const LIST_TITLE_STEP: i64 = 60_000;

/// The distance from the top of one card to the top of the next.
pub const CARD_STEP: i64 = 180_000;

/// The distance of a card from the left and from the right edge of the
/// screen.
pub const CARD_MARGIN: i64 = 80_000;

/// The height of a card.
pub const CARD_HEIGHT: i64 = 150_000;

/// The margin inside a card.
pub const CARD_INSET: i64 = 10_000;

/// The distance from the top of a card to its title.
pub const CARD_TITLE: i64 = 30_000;

/// The distance from the top of a card to its description.
pub const CARD_TEXT: i64 = 60_000;

/// The distance from the top of a card to its progress bar.
pub const CARD_BAR: i64 = 80_000;

/// The height of the progress bar of a card.
pub const CARD_BAR_HEIGHT: i64 = 10_000;

/// The distance from the top of a card to its first task.
pub const CARD_TASKS: i64 = 100_000;

/// The distance from one task of a card to the next.
pub const CARD_TASK_STEP: i64 = 20_000;

/// The card of a node: its frame, whether the node is lit, the places of
/// the title and of the description, the progress bar and the filled part of
/// it, the place of the first task and the step from one task to the next.
#[derive(Clone, Copy, Debug, PartialEq, Eq, Structural)]
pub struct NodeCard {
    pub frame: Rect,
    pub lit: bool,
    pub title_at: Point,
    pub text_at: Point,
    pub bar: Rect,
    pub fill: Rect,
    pub first_task_at: Point,
    pub task_step: i64,
}

/// The list view: the place of the title, and the card of each node.
#[derive(Debug)]
pub struct ListView {
    pub title_at: Point,
    pub cards: Vec<NodeCard>,
}

/// The card of `node` on a screen of the given width, with its top at `y`.
/// The card leaves a margin on both sides, and the bar inside it is filled
/// by the part that the node's progress is of the whole.
pub open spec fn node_card(node: GNodeView, screen_width: int, y: int) -> NodeCard {
    let width = saturate(screen_width - 2 * CARD_MARGIN);
    let left = (CARD_MARGIN + CARD_INSET) as i64;
    let bar_width = saturate(width - 2 * CARD_INSET);
    NodeCard {
        frame: Rect { x: CARD_MARGIN, y: saturate(y), w: width, h: CARD_HEIGHT },
        lit: node.is_lit,
        title_at: Point { x: left, y: saturate(y + CARD_TITLE) },
        text_at: Point { x: left, y: saturate(y + CARD_TEXT) },
        bar: Rect { x: left, y: saturate(y + CARD_BAR), w: bar_width, h: CARD_BAR_HEIGHT },
        fill: Rect {
            x: left,
            y: saturate(y + CARD_BAR),
            w: saturate(scale(bar_width as int, node.progress(), UNIT as int)),
            h: CARD_BAR_HEIGHT,
        },
        first_task_at: Point { x: left, y: saturate(y + CARD_TASKS) },
        task_step: CARD_TASK_STEP,
    }
}

/// The top of the card of node `i`.
pub open spec fn card_top(i: int) -> int {
    LIST_TOP + LIST_TITLE_STEP + i * CARD_STEP
}

/// The place of a title of the given width: centred on the screen.
pub open spec fn list_title_at(screen_width: int, title_width: int) -> Point {
    Point { x: saturate(screen_width / 2 - title_width / 2), y: LIST_TOP }
}

/// Lays out the card of `node` with its top at `y`.
pub fn draw_card(node: &GNode, screen_width: i64, y: i64) -> (card: NodeCard)
    ensures
        card == node_card(node@, screen_width as int, y as int),
{
    let width = saturate_i128(screen_width as i128 - 2 * (CARD_MARGIN as i128));
    let left: i64 = CARD_MARGIN + CARD_INSET;
    let bar_width = saturate_i128(width as i128 - 2 * (CARD_INSET as i128));
    let bar_y = add_sat(y, CARD_BAR);
    let filled = saturate_i128(mul_div(bar_width, compute_progress(node), UNIT));
    NodeCard {
        frame: Rect { x: CARD_MARGIN, y, w: width, h: CARD_HEIGHT },
        lit: node.is_lit,
        title_at: Point { x: left, y: add_sat(y, CARD_TITLE) },
        text_at: Point { x: left, y: add_sat(y, CARD_TEXT) },
        bar: Rect { x: left, y: bar_y, w: bar_width, h: CARD_BAR_HEIGHT },
        fill: Rect { x: left, y: bar_y, w: filled, h: CARD_BAR_HEIGHT },
        first_task_at: Point { x: left, y: add_sat(y, CARD_TASKS) },
        task_step: CARD_TASK_STEP,
    }
}

/// Lays out the list view of a tree whose title is `title_width` wide: the
/// title centred at the top, and the cards of the nodes one below the
/// other in the order of the nodes.
pub fn draw_skill_tree(tree: &GTree, screen_width: i64, title_width: i64) -> (list: ListView)
    ensures
        list.title_at == list_title_at(screen_width as int, title_width as int),
        list.cards@.len() == tree@.nodes.len(),
        forall|i: int|
            0 <= i < tree@.nodes.len() ==> #[trigger] list.cards@[i] == node_card(
                tree@.nodes[i],
                screen_width as int,
                saturate(card_top(i)) as int,
            ),
{
    let nodes = tree.nodes();
    let n = nodes.len();
    let title_x = saturate_i128(
        floor_div(screen_width as i128, 2) - floor_div(title_width as i128, 2),
    );
    let mut cards: Vec<NodeCard> = Vec::new();
    let mut i: usize = 0;
    while i < n
        invariant
            i <= n,
            n == nodes@.len(),
            views(nodes@) == tree@.nodes,
            cards@.len() == i,
            forall|j: int|
                0 <= j < i ==> #[trigger] cards@[j] == node_card(
                    tree@.nodes[j],
                    screen_width as int,
                    saturate(card_top(j)) as int,
                ),
        decreases n - i,
    {
        assert(views(nodes@)[i as int] == nodes@[i as int]@);
        let y = saturate_i128(LIST_TOP as i128 + LIST_TITLE_STEP as i128 + times(i, CARD_STEP));
        cards.push(draw_card(&nodes[i], screen_width, y));
        i = i + 1;
    }
    ListView { title_at: Point { x: title_x, y: LIST_TOP }, cards }
}

} // verus!
