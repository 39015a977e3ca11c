use grind_trees::camera::Camera;
use grind_trees::geometry::{Point, Rect};
use grind_trees::gtree::{GNode, GTree, Task};
use grind_trees::hit_test::{
    checkbox, clicked_checkbox, dialogue_holds, dialogue_rect, hovered_node, is_mouse_over_node,
    next_selection, step, Interaction, Mode,
};

fn disc_node(x: i64, y: i64, r: i64, tasks: usize) -> GNode {
    let mut list = Vec::new();
    for i in 0..tasks {
        list.push(Task { content: format!("task {}", i), checked: false });
    }
    GNode {
        title: "node".to_string(),
        description: String::new(),
        progress: 0,
        tasks: list,
        is_lit: false,
        x,
        y,
        r,
        parent: None,
    }
}

fn camera_seeing(zoom: i64, x: i64, y: i64) -> Camera {
    Camera::with_view(zoom, Point::new(x, y)).unwrap()
}

#[test]
fn disc_of_a_node_includes_its_border() {
    let cam = Camera::new();
    let n = disc_node(100_000, 100_000, 10_000, 0);
    assert!(is_mouse_over_node(&cam, &n, Point::new(100_000, 100_000)));
    assert!(is_mouse_over_node(&cam, &n, Point::new(110_000, 100_000)));
    assert!(!is_mouse_over_node(&cam, &n, Point::new(110_001, 100_000)));
    assert!(is_mouse_over_node(&cam, &n, Point::new(106_000, 108_000)));
    assert!(!is_mouse_over_node(&cam, &n, Point::new(106_001, 108_000)));
}

#[test]
fn disc_of_a_node_follows_pan_and_zoom() {
    let cam = camera_seeing(2000, 50_000, -50_000);
    let n = disc_node(100_000, 100_000, 10_000, 0);
    // centre at (250_000, 150_000), radius 20_000
    assert!(is_mouse_over_node(&cam, &n, Point::new(250_000, 150_000)));
    assert!(is_mouse_over_node(&cam, &n, Point::new(270_000, 150_000)));
    assert!(!is_mouse_over_node(&cam, &n, Point::new(270_001, 150_000)));
    assert!(!is_mouse_over_node(&cam, &n, Point::new(100_000, 100_000)));
}

#[test]
fn node_of_negative_radius_is_never_hovered() {
    let cam = Camera::new();
    let n = disc_node(0, 0, -1, 0);
    assert!(!is_mouse_over_node(&cam, &n, Point::new(0, 0)));
}

#[test]
fn later_node_wins_the_hover() {
    let cam = Camera::new();
    let nodes = vec![disc_node(0, 0, 10_000, 0), disc_node(0, 0, 10_000, 0)];
    assert_eq!(hovered_node(&cam, &nodes, Point::new(1_000, 1_000)), Some(1));
}

#[test]
fn hover_picks_the_highest_index_under_the_pointer() {
    let cam = Camera::new();
    let nodes = vec![
        disc_node(0, 0, 10_000, 0),
        disc_node(5_000, 0, 10_000, 0),
        disc_node(100_000, 0, 10_000, 0),
    ];
    assert_eq!(hovered_node(&cam, &nodes, Point::new(2_000, 0)), Some(1));
    assert_eq!(hovered_node(&cam, &nodes, Point::new(-8_000, 0)), Some(0));
    assert_eq!(hovered_node(&cam, &nodes, Point::new(100_000, 5_000)), Some(2));
    assert_eq!(hovered_node(&cam, &nodes, Point::new(50_000, 50_000)), None);
    assert_eq!(hovered_node(&cam, &Vec::new(), Point::new(0, 0)), None);
}

#[test]
fn dialogue_stands_beside_the_node_and_grows_with_its_tasks() {
    let cam = Camera::new();
    let bare = disc_node(100_000, 200_000, 10_000, 0);
    // height 40 + 2 * 12 = 64
    assert_eq!(dialogue_rect(&cam, &bare), Rect::new(120_000, 168_000, 260_000, 64_000));
    let three = disc_node(100_000, 200_000, 10_000, 3);
    // height 64 + 3 * 24 = 136
    assert_eq!(dialogue_rect(&cam, &three), Rect::new(120_000, 132_000, 260_000, 136_000));
    let zoomed = camera_seeing(2000, 1_000, 2_000);
    assert_eq!(dialogue_rect(&zoomed, &three), Rect::new(221_000, 334_000, 260_000, 136_000));
}

#[test]
fn checkboxes_are_stacked_below_the_header() {
    let bounds = Rect::new(120_000, 132_000, 260_000, 136_000);
    assert_eq!(checkbox(&bounds, 0), Rect::new(132_000, 184_000, 24_000, 24_000));
    assert_eq!(checkbox(&bounds, 1), Rect::new(132_000, 208_000, 24_000, 24_000));
    assert_eq!(checkbox(&bounds, 2), Rect::new(132_000, 232_000, 24_000, 24_000));
}

#[test]
fn click_finds_the_topmost_checkbox() {
    let bounds = Rect::new(120_000, 132_000, 260_000, 136_000);
    assert_eq!(clicked_checkbox(&bounds, 3, Point::new(140_000, 190_000)), Some(0));
    assert_eq!(clicked_checkbox(&bounds, 3, Point::new(140_000, 220_000)), Some(1));
    assert_eq!(clicked_checkbox(&bounds, 3, Point::new(140_000, 256_000)), Some(2));
    // on the edge that two rows share, the upper row wins
    assert_eq!(clicked_checkbox(&bounds, 3, Point::new(140_000, 208_000)), Some(0));
    assert_eq!(clicked_checkbox(&bounds, 3, Point::new(140_000, 232_000)), Some(1));
    // beside and below the boxes
    assert_eq!(clicked_checkbox(&bounds, 3, Point::new(160_000, 190_000)), None);
    assert_eq!(clicked_checkbox(&bounds, 3, Point::new(140_000, 256_001)), None);
    assert_eq!(clicked_checkbox(&bounds, 3, Point::new(140_000, 183_999)), None);
    // a row that the node does not have
    assert_eq!(clicked_checkbox(&bounds, 2, Point::new(140_000, 250_000)), None);
    assert_eq!(clicked_checkbox(&bounds, 0, Point::new(140_000, 190_000)), None);
}

#[test]
fn dialogue_stickiness_scenario() {
    let cam = Camera::new();
    // A at index 0, B at index 1, far apart; A's dialogue spans
    // x 120_000..380_000 and y 132_000..268_000
    let a = disc_node(100_000, 200_000, 10_000, 3);
    let b = disc_node(500_000, 200_000, 10_000, 0);
    let mut tree = GTree::from_nodes("t".to_string(), vec![a, b]).unwrap();
    let mut state = Interaction::NoSelection;

    // nothing under the pointer
    state = step(state, &cam, &mut tree, Point::new(0, 0), false, Mode::Edit);
    assert_eq!(state, Interaction::NoSelection);

    // the pointer enters A's disc
    state = step(state, &cam, &mut tree, Point::new(105_000, 200_000), false, Mode::Edit);
    assert_eq!(state, Interaction::HoveringNode(0));

    // click
    state = step(state, &cam, &mut tree, Point::new(105_000, 200_000), true, Mode::Edit);
    assert_eq!(state, Interaction::DialogueOpen(0));

    // outside A's disc, inside the dialogue
    state = step(state, &cam, &mut tree, Point::new(300_000, 150_000), false, Mode::Edit);
    assert_eq!(state, Interaction::DialogueOpen(0));

    // on the dialogue's border
    state = step(state, &cam, &mut tree, Point::new(380_000, 268_000), false, Mode::Edit);
    assert_eq!(state, Interaction::DialogueOpen(0));

    // outside the dialogue, over nothing
    state = step(state, &cam, &mut tree, Point::new(380_001, 268_000), false, Mode::Edit);
    assert_eq!(state, Interaction::NoSelection);
}

#[test]
fn leaving_the_dialogue_hovers_the_node_under_the_pointer_at_once() {
    let cam = Camera::new();
    let a = disc_node(100_000, 200_000, 10_000, 3);
    let b = disc_node(500_000, 200_000, 10_000, 0);
    let mut tree = GTree::from_nodes("t".to_string(), vec![a, b]).unwrap();
    let state = Interaction::DialogueOpen(0);
    let next = step(state, &cam, &mut tree, Point::new(500_000, 205_000), false, Mode::Edit);
    assert_eq!(next, Interaction::HoveringNode(1));
    // with a click in that frame, B's dialogue opens
    let next = step(state, &cam, &mut tree, Point::new(500_000, 205_000), true, Mode::Edit);
    assert_eq!(next, Interaction::DialogueOpen(1));
}

#[test]
fn open_dialogue_covers_the_nodes_behind_it() {
    let cam = Camera::new();
    let a = disc_node(100_000, 200_000, 10_000, 3);
    // B lies under A's dialogue
    let b = disc_node(200_000, 200_000, 10_000, 0);
    let mut tree = GTree::from_nodes("t".to_string(), vec![a, b]).unwrap();
    let state = Interaction::DialogueOpen(0);
    let next = step(state, &cam, &mut tree, Point::new(200_000, 200_000), true, Mode::Edit);
    assert_eq!(next, Interaction::DialogueOpen(0));
    // without the dialogue the same click opens B
    let next =
        step(Interaction::NoSelection, &cam, &mut tree, Point::new(200_000, 200_000), true, Mode::Edit);
    assert_eq!(next, Interaction::DialogueOpen(1));
}

#[test]
fn hovering_follows_the_pointer() {
    let cam = Camera::new();
    let a = disc_node(0, 0, 10_000, 0);
    let b = disc_node(100_000, 0, 10_000, 0);
    let mut tree = GTree::from_nodes("t".to_string(), vec![a, b]).unwrap();
    let mut state = Interaction::HoveringNode(0);
    state = step(state, &cam, &mut tree, Point::new(100_000, 0), false, Mode::Grind);
    assert_eq!(state, Interaction::HoveringNode(1));
    state = step(state, &cam, &mut tree, Point::new(50_000, 0), false, Mode::Grind);
    assert_eq!(state, Interaction::NoSelection);
    // a click on nothing selects nothing
    state = step(state, &cam, &mut tree, Point::new(50_000, 0), true, Mode::Grind);
    assert_eq!(state, Interaction::NoSelection);
}

#[test]
fn click_on_a_checkbox_toggles_the_task_in_edit_mode() {
    let cam = Camera::new();
    let a = disc_node(100_000, 200_000, 10_000, 3);
    let mut tree = GTree::from_nodes("t".to_string(), vec![a]).unwrap();
    let state = Interaction::DialogueOpen(0);
    // row 1 spans y 208_000..232_000, x 132_000..156_000
    let next = step(state, &cam, &mut tree, Point::new(140_000, 220_000), true, Mode::Edit);
    assert_eq!(next, Interaction::DialogueOpen(0));
    let node = tree.node(0).unwrap();
    assert!(!node.tasks[0].checked);
    assert!(node.tasks[1].checked);
    assert!(!node.tasks[2].checked);
    assert_eq!(node.progress, 333);

    // a second click unchecks it
    step(state, &cam, &mut tree, Point::new(140_000, 220_000), true, Mode::Edit);
    assert!(!tree.node(0).unwrap().tasks[1].checked);
    assert_eq!(tree.node(0).unwrap().progress, 0);
}

#[test]
fn click_on_a_checkbox_changes_nothing_in_grind_mode() {
    let cam = Camera::new();
    let a = disc_node(100_000, 200_000, 10_000, 3);
    let mut tree = GTree::from_nodes("t".to_string(), vec![a]).unwrap();
    let state = Interaction::DialogueOpen(0);
    let next = step(state, &cam, &mut tree, Point::new(140_000, 220_000), true, Mode::Grind);
    assert_eq!(next, Interaction::DialogueOpen(0));
    assert!(!tree.node(0).unwrap().tasks[1].checked);
}

#[test]
fn pointer_on_a_checkbox_without_a_click_changes_nothing() {
    let cam = Camera::new();
    let a = disc_node(100_000, 200_000, 10_000, 3);
    let mut tree = GTree::from_nodes("t".to_string(), vec![a]).unwrap();
    let state = Interaction::DialogueOpen(0);
    step(state, &cam, &mut tree, Point::new(140_000, 220_000), false, Mode::Edit);
    assert!(!tree.node(0).unwrap().tasks[1].checked);
    // a click in the dialogue beside the boxes
    step(state, &cam, &mut tree, Point::new(300_000, 220_000), true, Mode::Edit);
    assert!(!tree.node(0).unwrap().tasks[0].checked);
    assert!(!tree.node(0).unwrap().tasks[1].checked);
    assert!(!tree.node(0).unwrap().tasks[2].checked);
}

#[test]
fn dialogue_on_a_node_that_is_gone_closes() {
    let cam = Camera::new();
    let a = disc_node(100_000, 200_000, 10_000, 3);
    let mut tree = GTree::from_nodes("t".to_string(), vec![a]).unwrap();
    let state = Interaction::DialogueOpen(9);
    let next = step(state, &cam, &mut tree, Point::new(300_000, 150_000), false, Mode::Edit);
    assert_eq!(next, Interaction::NoSelection);
    let next = step(state, &cam, &mut tree, Point::new(100_000, 200_000), false, Mode::Edit);
    assert_eq!(next, Interaction::HoveringNode(0));
}

#[test]
fn selection_uses_the_camera_as_it_stands() {
    let a = disc_node(100_000, 100_000, 10_000, 0);
    let mut tree = GTree::from_nodes("t".to_string(), vec![a]).unwrap();
    let mut cam = Camera::new();
    let mouse = Point::new(205_000, 200_000);
    assert_eq!(
        step(Interaction::NoSelection, &cam, &mut tree, mouse, false, Mode::Edit),
        Interaction::NoSelection
    );
    cam.zoom_by(2000, Point::new(0, 0));
    assert_eq!(
        step(Interaction::NoSelection, &cam, &mut tree, mouse, false, Mode::Edit),
        Interaction::HoveringNode(0)
    );
}

#[test]
fn dialogue_holds_the_pointer_inside_its_bounds() {
    let cam = Camera::new();
    let nodes = vec![disc_node(100_000, 200_000, 10_000, 3)];
    let open = Interaction::DialogueOpen(0);
    assert!(dialogue_holds(open, &cam, &nodes, Point::new(300_000, 150_000)));
    assert!(dialogue_holds(open, &cam, &nodes, Point::new(120_000, 132_000)));
    assert!(!dialogue_holds(open, &cam, &nodes, Point::new(119_999, 132_000)));
    assert!(!dialogue_holds(Interaction::DialogueOpen(1), &cam, &nodes, Point::new(300_000, 150_000)));
    assert!(!dialogue_holds(Interaction::HoveringNode(0), &cam, &nodes, Point::new(300_000, 150_000)));
    assert!(!dialogue_holds(Interaction::NoSelection, &cam, &nodes, Point::new(300_000, 150_000)));
}

#[test]
fn next_selection_agrees_with_step() {
    let cam = Camera::new();
    let nodes = vec![disc_node(100_000, 200_000, 10_000, 3), disc_node(200_000, 200_000, 10_000, 0)];
    let points = [
        Point::new(0, 0),
        Point::new(100_000, 200_000),
        Point::new(200_000, 200_000),
        Point::new(300_000, 150_000),
        Point::new(140_000, 220_000),
    ];
    let states = [
        Interaction::NoSelection,
        Interaction::HoveringNode(0),
        Interaction::DialogueOpen(0),
        Interaction::DialogueOpen(1),
        Interaction::DialogueOpen(5),
    ];
    for state in states {
        for mouse in points {
            for clicked in [false, true] {
                let mut tree = GTree::from_nodes("t".to_string(), nodes.clone()).unwrap();
                let stepped = step(state, &cam, &mut tree, mouse, clicked, Mode::Edit);
                assert_eq!(next_selection(state, &cam, &nodes, mouse, clicked), stepped);
            }
        }
    }
    assert_eq!(
        next_selection(Interaction::DialogueOpen(0), &cam, &nodes, Point::new(200_000, 200_000), true),
        Interaction::DialogueOpen(0)
    );
    assert_eq!(
        next_selection(Interaction::NoSelection, &cam, &nodes, Point::new(200_000, 200_000), true),
        Interaction::DialogueOpen(1)
    );
}
