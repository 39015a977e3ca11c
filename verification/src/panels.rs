//! The layout of the panels: the menu beside a hovered node, the detail
//! menu of a selected node, and the side menu with the progress bar.

use vstd::prelude::*;
use crate::camera::{Camera, CameraView};
use crate::fixed::{
    add_sat, clamp, floor_div, lemma_quotient_bound, lerp, mix, mul_div, saturate, saturate_i128,
    scale, times, UNIT,
};
use crate::geometry::{Point, Rect};
use crate::gtree::{compute_progress, GNode, GNodeView};

verus! {

/// The width of the menu beside a hovered node.
pub const HOVER_WIDTH: i64 = 260_000;

/// The margin inside the panels beside a node.
pub const HOVER_PADDING: i64 = 12_000;

/// The height of the title line of the menu beside a hovered node.
pub const HOVER_TITLE: i64 = 28_000;

/// The height of a line of description in the menu beside a hovered node.
pub const HOVER_LINE: i64 = 18_000;

/// The distance from a node's centre to the menu beside it.
pub const HOVER_GAP: i64 = 20_000;

/// The left edge of the detail menu.
pub const DETAIL_LEFT: i64 = 30_000;

/// The top edge of the detail menu.
pub const DETAIL_TOP: i64 = 40_000;

/// The width of the detail menu.
pub const DETAIL_WIDTH: i64 = 400_000;

/// The margin inside the detail menu.
pub const DETAIL_PADDING: i64 = 20_000;

/// The side of the close button of the detail menu.
pub const CLOSE_SIZE: i64 = 32_000;

/// The distance of the close button from the top and right edge.
pub const CLOSE_INSET: i64 = 10_000;

/// The step from one line of description to the next in the detail menu.
pub const DETAIL_LINE: i64 = 22_000;

/// The step from one task to the next in the detail menu.
pub const DETAIL_TASK: i64 = 24_000;

/// The width of the side menu.
pub const SIDE_WIDTH: i64 = 300_000;

/// The height of the side menu.
pub const SIDE_HEIGHT: i64 = 120_000;

/// The distance of the side menu from the top and right edge of the screen.
pub const SIDE_MARGIN: i64 = 40_000;

/// The distance of the progress bar from the left and right edge of the
/// side menu.
pub const BAR_INSET: i64 = 30_000;

/// The distance of the progress bar from the top edge of the side menu.
pub const BAR_TOP: i64 = 60_000;

/// The height of the progress bar.
pub const BAR_HEIGHT: i64 = 28_000;

/// A colour: red, green, blue and opacity, each from 0 to `UNIT`.
#[derive(Clone, Copy, Debug, PartialEq, Eq, Structural)]
pub struct Rgba {
    pub r: i64,
    pub g: i64,
    pub b: i64,
    pub a: i64,
}

/// The colour a part `t` of the way from `a` to `b`, channel by channel.
pub open spec fn mixed_color(a: Rgba, b: Rgba, t: int) -> Rgba {
    Rgba {
        r: saturate(mix(a.r as int, b.r as int, t)),
        g: saturate(mix(a.g as int, b.g as int, t)),
        b: saturate(mix(a.b as int, b.b as int, t)),
        a: saturate(mix(a.a as int, b.a as int, t)),
    }
}

/// The colour a part `t` of the way from `a` to `b`.
pub fn lerp_color(a: Rgba, b: Rgba, t: i64) -> (c: Rgba)
    ensures
        c == mixed_color(a, b, t as int),
{
    Rgba { r: lerp(a.r, b.r, t), g: lerp(a.g, b.g, t), b: lerp(a.b, b.b, t), a: lerp(a.a, b.a, t) }
}

/// A progress in hundredths, rounded to the nearest, halves up.
pub open spec fn percent_of(progress: int) -> int {
    (progress * 100 + UNIT / 2) / (UNIT as int)
}

/// The progress in hundredths, rounded to the nearest.
pub fn percent(progress: i64) -> (p: i64)
    ensures
        p == percent_of(progress as int),
{
    let q = floor_div(progress as i128 * 100 + 500, UNIT as i128);
    proof {
        lemma_quotient_bound(progress * 100 + 500, UNIT as int);
    }
    q as i64
}

/// The side menu: its frame, the progress bar and the filled part of it,
/// the colour of the filled part, the shown percentage and the place of
/// the text.
#[derive(Clone, Copy, Debug, PartialEq, Eq, Structural)]
pub struct SideMenu {
    pub frame: Rect,
    pub bar: Rect,
    pub fill: Rect,
    pub color: Rgba,
    pub percent: i64,
    pub text_at: Point,
}

/// The side menu on a screen of the given width, for a progress that is
/// first held to the interval from 0 to `UNIT`.
pub open spec fn side_menu(screen_width: int, progress: int, empty: Rgba, full: Rgba) -> SideMenu {
    let x = saturate(screen_width - SIDE_WIDTH - SIDE_MARGIN);
    let y = SIDE_MARGIN;
    let shown = clamp(progress, 0, UNIT as int);
    let bar_x = saturate(x + BAR_INSET);
    let bar_w = SIDE_WIDTH - 2 * BAR_INSET;
    SideMenu {
        frame: Rect { x, y, w: SIDE_WIDTH, h: SIDE_HEIGHT },
        bar: Rect { x: bar_x, y: (y + BAR_TOP) as i64, w: bar_w as i64, h: BAR_HEIGHT },
        fill: Rect {
            x: bar_x,
            y: (y + BAR_TOP) as i64,
            w: scale(bar_w, shown, UNIT as int) as i64,
            h: BAR_HEIGHT,
        },
        color: mixed_color(empty, full, shown),
        percent: percent_of(shown) as i64,
        text_at: Point { x: bar_x, y: (y + SIDE_MARGIN) as i64 },
    }
}

/// Lays out the side menu: a bar that fills with the progress, in a colour
/// that goes from `empty` to `full` with it.
pub fn draw_side_menu(screen_width: i64, progress: i64, empty: Rgba, full: Rgba) -> (menu: SideMenu)
    ensures
        menu == side_menu(screen_width as int, progress as int, empty, full),
{
    let x = saturate_i128(screen_width as i128 - SIDE_WIDTH as i128 - SIDE_MARGIN as i128);
    let y = SIDE_MARGIN;
    let shown: i64 = if progress < 0 {
        0
    } else if progress > UNIT {
        UNIT
    } else {
        progress
    };
    let bar_x = add_sat(x, BAR_INSET);
    let bar_w: i64 = SIDE_WIDTH - 2 * BAR_INSET;
    let fill_w = mul_div(bar_w, shown, UNIT);
    proof {
        assert(0 <= scale(bar_w as int, shown as int, UNIT as int) <= bar_w) by (nonlinear_arith)
            requires
                bar_w == 240_000,
                0 <= shown <= 1000,
                UNIT == 1000,
        ;
    }
    SideMenu {
        frame: Rect { x, y, w: SIDE_WIDTH, h: SIDE_HEIGHT },
        bar: Rect { x: bar_x, y: y + BAR_TOP, w: bar_w, h: BAR_HEIGHT },
        fill: Rect { x: bar_x, y: y + BAR_TOP, w: fill_w as i64, h: BAR_HEIGHT },
        color: lerp_color(empty, full, shown),
        percent: percent(shown),
        text_at: Point { x: bar_x, y: y + SIDE_MARGIN },
    }
}

/// The menu beside a hovered node: its frame, the place of the title, the
/// place of the first line of the description, and the step between lines.
#[derive(Clone, Copy, Debug, PartialEq, Eq, Structural)]
pub struct HoverMenu {
    pub frame: Rect,
    pub title_at: Point,
    pub text_at: Point,
    pub line_step: i64,
}

/// The menu beside a node whose description takes `lines` lines: right of
/// the node, centred on it vertically, as high as the lines need.
pub open spec fn hover_menu(cam: CameraView, node: GNodeView, lines: int) -> HoverMenu {
    let at = cam.world_to_screen(node.position);
    let h = saturate(40_000 + lines * HOVER_LINE + 2 * HOVER_PADDING);
    let x = saturate(at.x + HOVER_GAP);
    let y = saturate(at.y - h / 2);
    let title_y = saturate(y + HOVER_PADDING + HOVER_TITLE);
    HoverMenu {
        frame: Rect { x, y, w: HOVER_WIDTH, h },
        title_at: Point { x: saturate(x + HOVER_PADDING), y: title_y },
        text_at: Point { x: saturate(x + HOVER_PADDING), y: saturate(title_y + HOVER_GAP) },
        line_step: HOVER_LINE,
    }
}

/// Lays out the menu beside a hovered node whose description takes `lines`
/// lines.
pub fn draw_node_hover_menu(cam: &Camera, node: &GNode, lines: usize) -> (menu: HoverMenu)
    ensures
        menu == hover_menu(cam@, node@, lines as int),
{
    let at = cam.world_to_screen(Point { x: node.x, y: node.y });
    let h = saturate_i128(40_000 + times(lines, HOVER_LINE) + 2 * (HOVER_PADDING as i128));
    let x = add_sat(at.x, HOVER_GAP);
    let y = saturate_i128(at.y as i128 - floor_div(h as i128, 2));
    let title_y = add_sat(y, HOVER_PADDING + HOVER_TITLE);
    HoverMenu {
        frame: Rect { x, y, w: HOVER_WIDTH, h },
        title_at: Point { x: add_sat(x, HOVER_PADDING), y: title_y },
        text_at: Point { x: add_sat(x, HOVER_PADDING), y: add_sat(title_y, HOVER_GAP) },
        line_step: HOVER_LINE,
    }
}

/// The detail menu of a node: its frame, the close button and whether it
/// was clicked, and the places of the title, of the first line of the
/// description, of the progress, of the heading of the tasks, of the first
/// task and of the lit status.
#[derive(Clone, Copy, Debug, PartialEq, Eq, Structural)]
pub struct DetailMenu {
    pub frame: Rect,
    pub close: Rect,
    pub close_clicked: bool,
    pub title_at: Point,
    pub text_at: Point,
    pub line_step: i64,
    pub progress_at: Point,
    pub percent: i64,
    pub tasks_at: Point,
    pub first_task_at: Point,
    pub task_step: i64,
    pub lit_at: Point,
}

/// The close button of the detail menu.
pub open spec fn close_button() -> Rect {
    Rect {
        x: (DETAIL_LEFT + DETAIL_WIDTH - CLOSE_SIZE - CLOSE_INSET) as i64,
        y: (DETAIL_TOP + CLOSE_INSET) as i64,
        w: CLOSE_SIZE,
        h: CLOSE_SIZE,
    }
}

/// The detail menu of a node whose description takes `lines` lines, on a
/// screen of the given height. The parts follow one another downwards: the
/// description, the progress, the tasks, with one row for the remark that
/// there are none, and the lit status. The progress shown is the node's
/// progress in hundredths: the fraction of its tasks that are checked, or,
/// without tasks, the authored value.
pub open spec fn detail_menu(
    node: GNodeView,
    screen_height: int,
    lines: int,
    mouse: Point,
    pressed: bool,
) -> DetailMenu {
    let left = (DETAIL_LEFT + DETAIL_PADDING) as i64;
    let text_y = DETAIL_TOP + 90_000;
    let progress_y = saturate(saturate(text_y + lines * DETAIL_LINE) + 16_000);
    let tasks_y = saturate(progress_y + 36_000);
    let first_task_y = saturate(tasks_y + 28_000);
    let rows = if node.tasks.len() == 0 {
        1
    } else {
        node.tasks.len() as int
    };
    let lit_y = saturate(saturate(first_task_y + rows * DETAIL_TASK) + 16_000);
    DetailMenu {
        frame: Rect {
            x: DETAIL_LEFT,
            y: DETAIL_TOP,
            w: DETAIL_WIDTH,
            h: saturate(screen_height - 2 * DETAIL_TOP),
        },
        close: close_button(),
        close_clicked: pressed && close_button().holds(mouse),
        title_at: Point { x: left, y: (DETAIL_TOP + 48_000) as i64 },
        text_at: Point { x: left, y: text_y as i64 },
        line_step: DETAIL_LINE,
        progress_at: Point { x: left, y: progress_y },
        percent: saturate(percent_of(node.progress())),
        tasks_at: Point { x: left, y: tasks_y },
        first_task_at: Point { x: (left + 16_000) as i64, y: first_task_y },
        task_step: DETAIL_TASK,
        lit_at: Point { x: left, y: lit_y },
    }
}

/// Lays out the detail menu of `node`, whose description takes `lines`
/// lines, and tells whether a press of the primary button at `mouse` hit the
/// close button.
pub fn draw_gnode_detail_menu(
    node: &GNode,
    screen_height: i64,
    lines: usize,
    mouse: Point,
    pressed: bool,
) -> (menu: DetailMenu)
    ensures
        menu == detail_menu(node@, screen_height as int, lines as int, mouse, pressed),
{
    let left: i64 = DETAIL_LEFT + DETAIL_PADDING;
    let text_y: i64 = DETAIL_TOP + 90_000;
    let after_text = saturate_i128(text_y as i128 + times(lines, DETAIL_LINE));
    let progress_y = add_sat(after_text, 16_000);
    let tasks_y = add_sat(progress_y, 36_000);
    let first_task_y = add_sat(tasks_y, 28_000);
    let rows: usize = if node.tasks.len() == 0 {
        1
    } else {
        node.tasks.len()
    };
    let after_tasks = saturate_i128(first_task_y as i128 + times(rows, DETAIL_TASK));
    let lit_y = add_sat(after_tasks, 16_000);
    let close = Rect {
        x: DETAIL_LEFT + DETAIL_WIDTH - CLOSE_SIZE - CLOSE_INSET,
        y: DETAIL_TOP + CLOSE_INSET,
        w: CLOSE_SIZE,
        h: CLOSE_SIZE,
    };
    let shown = floor_div(compute_progress(node) as i128 * 100 + 500, UNIT as i128);
    DetailMenu {
        frame: Rect {
            x: DETAIL_LEFT,
            y: DETAIL_TOP,
            w: DETAIL_WIDTH,
            h: saturate_i128(screen_height as i128 - 2 * (DETAIL_TOP as i128)),
        },
        close,
        close_clicked: pressed && close.contains(mouse),
        title_at: Point { x: left, y: DETAIL_TOP + 48_000 },
        text_at: Point { x: left, y: text_y },
        line_step: DETAIL_LINE,
        progress_at: Point { x: left, y: progress_y },
        percent: saturate_i128(shown),
        tasks_at: Point { x: left, y: tasks_y },
        first_task_at: Point { x: left + 16_000, y: first_task_y },
        task_step: DETAIL_TASK,
        lit_at: Point { x: left, y: lit_y },
    }
}

/// How far the wrapping of a text has come: the index of the first word of
/// each line so far, and the width of the last line.
pub struct Wrapping {
    pub starts: Seq<int>,
    pub width: int,
}

/// The wrapping of the first `n` words. The first word opens the first
/// line. Each later word joins the last line, after a space, unless the line
/// would then be wider than `max_width`: then it opens a new line.
pub open spec fn wrapped(widths: Seq<i64>, space: int, max_width: int, n: nat) -> Wrapping
    decreases n,
{
    if n == 0 {
        Wrapping { starts: Seq::empty(), width: 0 }
    } else {
        let before = wrapped(widths, space, max_width, (n - 1) as nat);
        let word = widths[n - 1] as int;
        if before.starts.len() == 0 {
            Wrapping { starts: seq![0int], width: word }
        } else {
            let longer = saturate(saturate(before.width + space) + word) as int;
            if longer > max_width {
                Wrapping { starts: before.starts.push(n - 1), width: word }
            } else {
                Wrapping { starts: before.starts, width: longer }
            }
        }
    }
}

/// Wraps a text of words with the given widths into lines no wider than
/// `max_width`, as far as single words allow, and returns the index of the
/// first word of each line.
pub fn wrap_text(word_widths: &Vec<i64>, space_width: i64, max_width: i64) -> (starts: Vec<usize>)
    ensures
        starts@.len() == wrapped(
            word_widths@,
            space_width as int,
            max_width as int,
            word_widths@.len(),
        ).starts.len(),
        forall|k: int|
            0 <= k < starts@.len() ==> #[trigger] starts@[k] == wrapped(
                word_widths@,
                space_width as int,
                max_width as int,
                word_widths@.len(),
            ).starts[k],
{
    let n = word_widths.len();
    let mut starts: Vec<usize> = Vec::new();
    let mut width: i64 = 0;
    let mut i: usize = 0;
    while i < n
        invariant
            i <= n,
            n == word_widths@.len(),
            width == wrapped(word_widths@, space_width as int, max_width as int, i as nat).width
                || starts@.len() == 0,
            starts@.len() == wrapped(
                word_widths@,
                space_width as int,
                max_width as int,
                i as nat,
            ).starts.len(),
            forall|k: int|
                0 <= k < starts@.len() ==> #[trigger] starts@[k] == wrapped(
                    word_widths@,
                    space_width as int,
                    max_width as int,
                    i as nat,
                ).starts[k],
        decreases n - i,
    {
        let word = word_widths[i];
        if starts.len() == 0 {
            starts.push(i);
            width = word;
            assert(i == 0) by {
                if i > 0 {
                    lemma_wrapping_has_lines(
                        word_widths@,
                        space_width as int,
                        max_width as int,
                        i as nat,
                    );
                }
            }
        } else {
            let longer = add_sat(add_sat(width, space_width), word);
            if longer > max_width {
                starts.push(i);
                width = word;
            } else {
                width = longer;
            }
        }
        i = i + 1;
    }
    starts
}

/// The width of the line of the words from `from` up to, not including,
/// `to`, with a space between each two.
pub open spec fn line_width(widths: Seq<i64>, space: int, from: int, to: int) -> int
    decreases to - from,
{
    if to <= from + 1 {
        widths[from] as int
    } else {
        saturate(saturate(line_width(widths, space, from, to - 1) + space) + widths[to - 1]) as int
    }
}

/// What the wrapping of the first `n` words looks like. The lines start at
/// word 0 and follow one another. Every line but the last was closed because
/// the next word would have made it wider than `max_width`, and every line
/// of more than one word is no wider than `max_width`.
pub proof fn lemma_wrapping_is_greedy(widths: Seq<i64>, space: int, max_width: int, n: nat)
    requires
        0 < n <= widths.len(),
    ensures
        ({
            let w = wrapped(widths, space, max_width, n);
            let last = w.starts.len() - 1;
            &&& last >= 0
            &&& w.starts[0] == 0
            &&& w.starts[last] < n
            &&& w.width == line_width(widths, space, w.starts[last], n as int)
            &&& w.starts[last] == n - 1 || w.width <= max_width
            &&& forall|k: int| 0 <= k < last ==> (#[trigger] w.starts[k]) < w.starts[k + 1]
            &&& forall|k: int|
                0 <= k < last ==> line_width(
                    widths,
                    space,
                    #[trigger] w.starts[k],
                    w.starts[k + 1] + 1,
                ) > max_width
            &&& forall|k: int|
                0 <= k < last ==> w.starts[k + 1] == (#[trigger] w.starts[k]) + 1 || line_width(
                    widths,
                    space,
                    w.starts[k],
                    w.starts[k + 1],
                ) <= max_width
        }),
    decreases n,
{
    let w = wrapped(widths, space, max_width, n);
    if n == 1 {
        assert(wrapped(widths, space, max_width, 0).starts.len() == 0);
        assert(w.starts =~= seq![0int]);
    } else {
        let before = wrapped(widths, space, max_width, (n - 1) as nat);
        lemma_wrapping_is_greedy(widths, space, max_width, (n - 1) as nat);
        let old_last = before.starts.len() - 1;
        let from = before.starts[old_last];
        let longer = saturate(saturate(before.width + space) + widths[n - 1]) as int;
        assert(line_width(widths, space, from, n as int) == longer);
        if longer > max_width {
            assert(w.starts == before.starts.push(n - 1));
            let last = w.starts.len() - 1;
            assert forall|k: int| 0 <= k < last implies (#[trigger] w.starts[k]) < w.starts[k
                + 1] by {
                assert(w.starts[k] == before.starts[k]);
                if k + 1 < last {
                    assert(w.starts[k + 1] == before.starts[k + 1]);
                }
            }
            assert forall|k: int| 0 <= k < last implies line_width(
                widths,
                space,
                #[trigger] w.starts[k],
                w.starts[k + 1] + 1,
            ) > max_width by {
                assert(w.starts[k] == before.starts[k]);
                if k + 1 < last {
                    assert(w.starts[k + 1] == before.starts[k + 1]);
                }
            }
            assert forall|k: int| 0 <= k < last implies w.starts[k + 1] == (
            #[trigger] w.starts[k]) + 1 || line_width(widths, space, w.starts[k], w.starts[k + 1])
                <= max_width by {
                assert(w.starts[k] == before.starts[k]);
                if k + 1 < last {
                    assert(w.starts[k + 1] == before.starts[k + 1]);
                }
            }
        } else {
            assert(w.starts == before.starts);
        }
    }
}

/// Once a word is placed there is a line.
pub proof fn lemma_wrapping_has_lines(widths: Seq<i64>, space: int, max_width: int, n: nat)
    requires
        n > 0,
    ensures
        wrapped(widths, space, max_width, n).starts.len() > 0,
    decreases n,
{
    if n > 1 {
        lemma_wrapping_has_lines(widths, space, max_width, (n - 1) as nat);
    }
}

} // verus!
