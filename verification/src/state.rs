//! The state of the application between frames, and what a frame of input,
//! a click on the menu, a finished load and a finished save make of it.

use vstd::prelude::*;
use crate::camera::{Camera, CameraView};
use crate::fixed::{add_sat, floor_div, saturate, saturate_i128, UNIT};
use crate::geometry::{Point, Rect};
use crate::gtree::{GTree, GTreeView, TreeError};
use crate::hit_test::{next_interaction, step, tree_after, Interaction, Mode};
use crate::input::{intents, keyboard_pan, zoom_speed, FrameInput};

verus! {

/// The width of the menu.
pub const MENU_WIDTH: i64 = 300_000;

/// The height of the menu.
pub const MENU_HEIGHT: i64 = 200_000;

/// The distance from the menu's left edge to its items.
pub const MENU_ITEM_INSET: i64 = 20_000;

/// The distance from the menu's top edge to its first item.
pub const MENU_ITEM_TOP: i64 = 25_000;

/// The distance from one menu item to the next.
pub const MENU_ITEM_STEP: i64 = 50_000;

/// The width of a menu item.
pub const MENU_ITEM_WIDTH: i64 = 100_000;

/// The height of a menu item.
pub const MENU_ITEM_HEIGHT: i64 = 40_000;

/// An item of the menu.
#[derive(Clone, Copy, Debug, PartialEq, Eq, Structural)]
pub enum MenuItem {
    Load,
    Save,
    Quit,
}

impl MenuItem {
    /// The place of the item in the menu, from the top.
    pub open spec fn row(self) -> int {
        match self {
            MenuItem::Load => 0,
            MenuItem::Save => 1,
            MenuItem::Quit => 2,
        }
    }
}

/// The corner of the menu on a screen of the given size: the menu is centred.
pub open spec fn menu_origin(screen_width: int, screen_height: int) -> Point {
    Point {
        x: saturate((screen_width - MENU_WIDTH) / 2),
        y: saturate((screen_height - MENU_HEIGHT) / 2),
    }
}

/// The screen rectangle in which a click chooses `item`.
pub open spec fn menu_item_rect(screen_width: int, screen_height: int, item: MenuItem) -> Rect {
    let origin = menu_origin(screen_width, screen_height);
    Rect {
        x: saturate(origin.x + MENU_ITEM_INSET),
        y: saturate(origin.y + MENU_ITEM_TOP + item.row() * MENU_ITEM_STEP),
        w: MENU_ITEM_WIDTH,
        h: MENU_ITEM_HEIGHT,
    }
}

/// The item that a click at `mouse` chooses.
pub open spec fn menu_choice(screen_width: int, screen_height: int, mouse: Point) -> Option<
    MenuItem,
> {
    if menu_item_rect(screen_width, screen_height, MenuItem::Load).holds(mouse) {
        Some(MenuItem::Load)
    } else if menu_item_rect(screen_width, screen_height, MenuItem::Save).holds(mouse) {
        Some(MenuItem::Save)
    } else if menu_item_rect(screen_width, screen_height, MenuItem::Quit).holds(mouse) {
        Some(MenuItem::Quit)
    } else {
        None
    }
}

/// The screen rectangle in which a click chooses `item`.
pub fn menu_item(screen_width: i64, screen_height: i64, item: MenuItem) -> (r: Rect)
    ensures
        r == menu_item_rect(screen_width as int, screen_height as int, item),
{
    let x = saturate_i128(floor_div(screen_width as i128 - MENU_WIDTH as i128, 2));
    let y = saturate_i128(floor_div(screen_height as i128 - MENU_HEIGHT as i128, 2));
    let top: i64 = match item {
        MenuItem::Load => MENU_ITEM_TOP,
        MenuItem::Save => MENU_ITEM_TOP + MENU_ITEM_STEP,
        MenuItem::Quit => MENU_ITEM_TOP + 2 * MENU_ITEM_STEP,
    };
    Rect {
        x: add_sat(x, MENU_ITEM_INSET),
        y: add_sat(y, top),
        w: MENU_ITEM_WIDTH,
        h: MENU_ITEM_HEIGHT,
    }
}

/// The item that a click at `mouse` chooses, on a screen of the given size.
pub fn chosen_item(screen_width: i64, screen_height: i64, mouse: Point) -> (choice: Option<
    MenuItem,
>)
    ensures
        choice == menu_choice(screen_width as int, screen_height as int, mouse),
{
    if menu_item(screen_width, screen_height, MenuItem::Load).contains(mouse) {
        Some(MenuItem::Load)
    } else if menu_item(screen_width, screen_height, MenuItem::Save).contains(mouse) {
        Some(MenuItem::Save)
    } else if menu_item(screen_width, screen_height, MenuItem::Quit).contains(mouse) {
        Some(MenuItem::Quit)
    } else {
        None
    }
}

/// Where a requested save is to go.
#[derive(Debug)]
pub enum SaveTarget {
    /// No save was requested.
    NoRequest,
    /// To the file that the tree was loaded from or last saved to.
    Known(String),
    /// To a file that the user has yet to name.
    AskUser,
}

/// Everything that lasts from one frame to the next.
#[derive(Debug)]
pub struct AppState {
    pub camera: Camera,
    pub mouse_pos: Point,
    pub interaction: Interaction,
    pub mode: Mode,
    pub menu_on: bool,
    pub panel_on: bool,
    pub load: bool,
    pub save: bool,
    pub save_as: bool,
    pub quit: bool,
    pub file: Option<String>,
    pub skill_tree: Option<GTree>,
}

/// What the application state is, to the contracts.
pub struct AppStateView {
    pub camera: CameraView,
    pub mouse_pos: Point,
    pub interaction: Interaction,
    pub mode: Mode,
    pub menu_on: bool,
    pub panel_on: bool,
    pub load: bool,
    pub save: bool,
    pub save_as: bool,
    pub quit: bool,
    pub file: Option<Seq<char>>,
    pub skill_tree: Option<GTreeView>,
}

impl View for AppState {
    type V = AppStateView;

    open spec fn view(&self) -> AppStateView {
        AppStateView {
            camera: self.camera@,
            mouse_pos: self.mouse_pos,
            interaction: self.interaction,
            mode: self.mode,
            menu_on: self.menu_on,
            panel_on: self.panel_on,
            load: self.load,
            save: self.save,
            save_as: self.save_as,
            quit: self.quit,
            file: match self.file {
                Some(path) => Some(path@),
                None => None,
            },
            skill_tree: match self.skill_tree {
                Some(tree) => Some(tree@),
                None => None,
            },
        }
    }
}

impl Mode {
    /// The other mode.
    pub open spec fn other(self) -> Mode {
        match self {
            Mode::Edit => Mode::Grind,
            Mode::Grind => Mode::Edit,
        }
    }
}

impl CameraView {
    /// The camera after the zoom keys' part of a frame: while control is
    /// held, the zoom-in key multiplies the zoom factor by one plus the zoom
    /// step, and the zoom-out key then by one minus it. The keys name no
    /// anchor: the offset stays as it is.
    pub open spec fn key_zoom(self, input: FrameInput) -> CameraView {
        let zoomed_in = if input.ctrl && input.zoom_in {
            self.rescale(UNIT + input.zoom_speed())
        } else {
            self
        };
        if input.ctrl && input.zoom_out {
            zoomed_in.rescale(UNIT - input.zoom_speed())
        } else {
            zoomed_in
        }
    }

    /// The camera after a frame of the application: the arrow keys pan by
    /// the pan step of the frame, then the pointer drags, then the wheel
    /// zooms about the pointer, then the zoom keys zoom.
    pub open spec fn frame(self, input: FrameInput) -> CameraView {
        self.pan(input.keyboard_pan()).mouse_pan(input).scroll_zoom(input).key_zoom(input)
    }
}

impl AppStateView {
    /// The state after one frame of input. The keys' intents come first,
    /// then the camera moves, and then the selection is taken against the
    /// camera as it then stands and may toggle a task.
    pub open spec fn handle_input(self, input: FrameInput) -> AppStateView {
        let asked = input.intents();
        let mode = if asked.toggle_mode {
            self.mode.other()
        } else {
            self.mode
        };
        let camera = self.camera.frame(input);
        AppStateView {
            camera,
            mouse_pos: input.pointer,
            mode,
            menu_on: self.menu_on != asked.toggle_menu,
            panel_on: self.panel_on != asked.toggle_panel,
            save: self.save || asked.request_save,
            save_as: self.save_as || asked.request_save_as,
            interaction: match self.skill_tree {
                Some(tree) => next_interaction(
                    self.interaction,
                    camera,
                    tree.nodes,
                    input.pointer,
                    input.primary_pressed,
                ),
                None => Interaction::NoSelection,
            },
            skill_tree: match self.skill_tree {
                Some(tree) => Some(
                    tree_after(
                        tree,
                        self.interaction,
                        camera,
                        input.pointer,
                        input.primary_pressed,
                        mode,
                    ),
                ),
                None => None,
            },
            ..self
        }
    }

    /// The state after a requested load has been taken up: the request is
    /// gone.
    pub open spec fn without_load(self) -> AppStateView {
        AppStateView { load: false, ..self }
    }

    /// The state after a load has ended. A tree that was loaded takes the
    /// place of the one held, with the file it came from, and nothing is
    /// selected in it yet. A failed load changes nothing.
    pub open spec fn finish_load(self, path: Seq<char>, loaded: Option<GTreeView>) -> AppStateView {
        match loaded {
            Some(tree) => AppStateView {
                skill_tree: Some(tree),
                file: Some(path),
                interaction: Interaction::NoSelection,
                ..self
            },
            None => self,
        }
    }

    /// The state after the requested saves have been taken up: the requests
    /// are gone.
    pub open spec fn without_save(self) -> AppStateView {
        AppStateView { save: false, save_as: false, ..self }
    }

    /// The state after a save has ended: a save that succeeded makes its
    /// file the current one, and a failed one changes nothing.
    pub open spec fn finish_save(self, path: Seq<char>, saved: bool) -> AppStateView {
        if saved {
            AppStateView { file: Some(path), ..self }
        } else {
            self
        }
    }

    /// The state after the detail menu has been shown: a click on its close
    /// button leaves nothing selected.
    pub open spec fn close_detail(self, close_clicked: bool) -> AppStateView {
        if close_clicked {
            AppStateView { interaction: Interaction::NoSelection, ..self }
        } else {
            self
        }
    }

    /// The state after a click on the menu: while the menu is shown, a press
    /// of the primary button on an item raises that item's request.
    pub open spec fn menu_click(
        self,
        input: FrameInput,
        screen_width: int,
        screen_height: int,
    ) -> AppStateView {
        if self.menu_on && input.primary_pressed {
            match menu_choice(screen_width, screen_height, input.pointer) {
                Some(MenuItem::Load) => AppStateView { load: true, ..self },
                Some(MenuItem::Save) => AppStateView { save: true, ..self },
                Some(MenuItem::Quit) => AppStateView { quit: true, ..self },
                None => self,
            }
        } else {
            self
        }
    }
}

/// The side panel after a frame: the panel key, with control held, shows a
/// hidden panel and hides a shown one.
pub fn handle_side_menu(show_side_menu: bool, input: &FrameInput) -> (shown: bool)
    ensures
        shown == (show_side_menu != input.intents().toggle_panel),
{
    if input.ctrl && input.panel_pressed {
        !show_side_menu
    } else {
        show_side_menu
    }
}

/// Raises the save requests that the keys of a frame ask for: control and
/// the save key ask for a save to the current file, and with shift held for
/// a save to a file that the user names.
pub fn handle_save_shortcuts(state: &mut AppState, input: &FrameInput)
    ensures
        final(state)@ == (AppStateView {
            save: old(state)@.save || input.intents().request_save,
            save_as: old(state)@.save_as || input.intents().request_save_as,
            ..old(state)@
        }),
{
    let asked = intents(input);
    if asked.request_save {
        state.save = true;
    }
    if asked.request_save_as {
        state.save_as = true;
    }
}

/// Applies one frame of input to the state. The keys' intents come first.
/// Then the camera moves: the arrow keys pan by the pan step of the frame,
/// right and up raising the offset and left and down lowering it, the
/// pointer drags, the wheel zooms about the pointer, and the zoom keys zoom
/// with the offset left as it is. Then the selection is taken against the
/// camera as it then stands, and may toggle a task.
pub fn handle_input(state: &mut AppState, input: &FrameInput)
    ensures
        final(state)@ == old(state)@.handle_input(*input),
{
    let asked = intents(input);
    state.mouse_pos = input.pointer;
    if asked.toggle_mode {
        state.mode = match state.mode {
            Mode::Edit => Mode::Grind,
            Mode::Grind => Mode::Edit,
        };
    }
    if asked.toggle_menu {
        state.menu_on = !state.menu_on;
    }
    state.panel_on = handle_side_menu(state.panel_on, input);
    handle_save_shortcuts(state, input);
    state.camera.pan(keyboard_pan(input));
    state.camera.mouse_pan(input);
    state.camera.scroll_zoom(input);
    if input.ctrl && input.zoom_in {
        state.camera.rescale(UNIT + zoom_speed(input));
    }
    if input.ctrl && input.zoom_out {
        state.camera.rescale(UNIT - zoom_speed(input));
    }
    let before = state.interaction;
    let mode = state.mode;
    let next = match &mut state.skill_tree {
        Some(tree) => step(before, &state.camera, tree, input.pointer, input.primary_pressed, mode),
        None => Interaction::NoSelection,
    };
    state.interaction = next;
}

/// Applies a click on the menu to the state, on a screen of the given size.
pub fn menu_click(state: &mut AppState, input: &FrameInput, screen_width: i64, screen_height: i64)
    ensures
        final(state)@ == old(state)@.menu_click(
            *input,
            screen_width as int,
            screen_height as int,
        ),
{
    if state.menu_on && input.primary_pressed {
        match chosen_item(screen_width, screen_height, input.pointer) {
            Some(MenuItem::Load) => {
                state.load = true;
            },
            Some(MenuItem::Save) => {
                state.save = true;
            },
            Some(MenuItem::Quit) => {
                state.quit = true;
            },
            None => {},
        }
    }
}

impl AppState {
    /// Ends the showing of the detail menu: where its close button was
    /// clicked, nothing is selected any more.
    pub fn close_detail(&mut self, close_clicked: bool)
        ensures
            final(self)@ == old(self)@.close_detail(close_clicked),
    {
        if close_clicked {
            self.interaction = Interaction::NoSelection;
        }
    }

    /// Takes up a requested load: tells whether one was requested, and
    /// clears the request.
    pub fn take_load_request(&mut self) -> (requested: bool)
        ensures
            requested == old(self)@.load,
            final(self)@ == old(self)@.without_load(),
    {
        let requested = self.load;
        self.load = false;
        requested
    }

    /// Ends a load from the file `path`. A loaded tree replaces the one held
    /// and `path` becomes the current file; after a failed load the state is
    /// what it was.
    pub fn finish_load(&mut self, path: String, loaded: Result<GTree, TreeError>)
        ensures
            final(self)@ == old(self)@.finish_load(
                path@,
                match loaded {
                    Ok(tree) => Some(tree@),
                    Err(_) => None,
                },
            ),
    {
        match loaded {
            Ok(tree) => {
                self.skill_tree = Some(tree);
                self.file = Some(path);
                self.interaction = Interaction::NoSelection;
            },
            Err(_) => {},
        }
    }

    /// Takes up the requested saves: tells where the save is to go, and
    /// clears the requests. A plain save goes to the current file, if there
    /// is one; a save under a new name, or without a current file, asks the
    /// user.
    pub fn take_save_request(&mut self) -> (target: SaveTarget)
        ensures
            final(self)@ == old(self)@.without_save(),
            match target {
                SaveTarget::NoRequest => !old(self)@.save && !old(self)@.save_as,
                SaveTarget::Known(path) => {
                    &&& old(self)@.save
                    &&& !old(self)@.save_as
                    &&& old(self)@.file == Some(path@)
                },
                SaveTarget::AskUser => old(self)@.save_as || (old(self)@.save && old(
                    self,
                )@.file.is_none()),
            },
    {
        let save = self.save;
        let save_as = self.save_as;
        self.save = false;
        self.save_as = false;
        if save_as {
            SaveTarget::AskUser
        } else if save {
            match &self.file {
                Some(path) => SaveTarget::Known(path.clone()),
                None => SaveTarget::AskUser,
            }
        } else {
            SaveTarget::NoRequest
        }
    }

    /// Ends a save to the file `path`: where a tree is held and the save
    /// succeeded, `path` becomes the current file. Without a tree there was
    /// nothing to save, and the current file stays.
    pub fn finish_save(&mut self, path: String, saved: bool)
        ensures
            final(self)@ == old(self)@.finish_save(
                path@,
                saved && old(self)@.skill_tree is Some,
            ),
    {
        if saved && self.skill_tree.is_some() {
            self.file = Some(path);
        }
    }

    /// The state at the start: a fresh camera, nothing selected, edit mode,
    /// no menu, no request, no file and no tree.
    pub fn new() -> (state: AppState)
        ensures
            state@ == (AppStateView {
                camera: CameraView {
                    zoom: UNIT as int,
                    offset: Point { x: 0, y: 0 },
                    dragging: false,
                    last_pointer: Point { x: 0, y: 0 },
                },
                mouse_pos: Point { x: 0, y: 0 },
                interaction: Interaction::NoSelection,
                mode: Mode::Edit,
                menu_on: false,
                panel_on: false,
                load: false,
                save: false,
                save_as: false,
                quit: false,
                file: None,
                skill_tree: None,
            }),
    {
        AppState {
            camera: Camera::new(),
            mouse_pos: Point { x: 0, y: 0 },
            interaction: Interaction::NoSelection,
            mode: Mode::Edit,
            menu_on: false,
            panel_on: false,
            load: false,
            save: false,
            save_as: false,
            quit: false,
            file: None,
            skill_tree: None,
        }
    }
}

} // verus!
