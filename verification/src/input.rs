//! One frame of raw input, and what it asks of the viewport and of the
//! application.

use vstd::prelude::*;
use crate::fixed::UNIT;
use crate::geometry::Point;

verus! {

/// The distance that a held arrow key pans in one frame.
pub const DEFAULT_PAN_SPEED: i64 = 2000;

/// The part of the zoom factor that one step of the zoom keys adds or takes
/// away.
pub const DEFAULT_ZOOM_SPEED: i64 = 50;

/// The part of the zoom factor that one step of the wheel adds or takes
/// away.
pub const WHEEL_ZOOM_SPEED: i64 = 100;

/// The distance by which the camera's own arrow keys pan in one frame.
pub const ARROW_PAN_STEP: i64 = 1000;

/// What the devices report for one frame. A field that ends in `_pressed`
/// or `_released` is an edge: true in the frame in which the button or key
/// went down or came up. The other flags tell what is held.
#[derive(Clone, Copy, Debug, PartialEq, Eq, Structural)]
pub struct FrameInput {
    pub pointer: Point,
    pub primary_pressed: bool,
    pub primary_released: bool,
    pub primary_down: bool,
    pub scroll: i64,
    pub up: bool,
    pub down: bool,
    pub left: bool,
    pub right: bool,
    pub shift: bool,
    pub ctrl: bool,
    pub zoom_in: bool,
    pub zoom_out: bool,
    pub menu_pressed: bool,
    pub mode_pressed: bool,
    pub save_pressed: bool,
    pub panel_pressed: bool,
}

/// A request to zoom by `factor` about the screen point `anchor`.
#[derive(Clone, Copy, Debug, PartialEq, Eq, Structural)]
pub struct ZoomRequest {
    pub factor: i64,
    pub anchor: Point,
}

/// What the keys ask of the application in one frame.
#[derive(Clone, Copy, Debug, PartialEq, Eq, Structural)]
pub struct Intents {
    pub toggle_menu: bool,
    pub toggle_mode: bool,
    pub toggle_panel: bool,
    pub request_save: bool,
    pub request_save_as: bool,
}

impl FrameInput {
    /// The pan step of this frame: doubled while shift is held.
    pub open spec fn pan_speed(self) -> int {
        if self.shift {
            2 * DEFAULT_PAN_SPEED
        } else {
            DEFAULT_PAN_SPEED as int
        }
    }

    /// The step of the zoom keys in this frame: doubled while shift is held.
    pub open spec fn zoom_speed(self) -> int {
        if self.shift {
            2 * DEFAULT_ZOOM_SPEED
        } else {
            DEFAULT_ZOOM_SPEED as int
        }
    }

    /// The step of the wheel in this frame: doubled while shift is held.
    pub open spec fn wheel_speed(self) -> int {
        if self.shift {
            2 * WHEEL_ZOOM_SPEED
        } else {
            WHEEL_ZOOM_SPEED as int
        }
    }

    /// The pan that the held arrow keys ask of the application, by the pan
    /// step of the frame: right raises the horizontal offset and left lowers
    /// it, up raises the vertical offset and down lowers it, and opposite
    /// keys cancel.
    pub open spec fn keyboard_pan(self) -> Point {
        let step = self.pan_speed();
        let x = (if self.right { step } else { 0 }) - (if self.left { step } else { 0 });
        let y = (if self.up { step } else { 0 }) - (if self.down { step } else { 0 });
        Point { x: x as i64, y: y as i64 }
    }

    /// The pan that the held arrow keys ask of a camera on its own, by
    /// `ARROW_PAN_STEP` whatever else is held: left raises the horizontal
    /// offset and right lowers it, up raises the vertical offset and down
    /// lowers it, and opposite keys cancel.
    pub open spec fn arrow_pan(self) -> Point {
        let x = (if self.left { ARROW_PAN_STEP as int } else { 0 }) - (if self.right {
            ARROW_PAN_STEP as int
        } else {
            0
        });
        let y = (if self.up { ARROW_PAN_STEP as int } else { 0 }) - (if self.down {
            ARROW_PAN_STEP as int
        } else {
            0
        });
        Point { x: x as i64, y: y as i64 }
    }

    /// The zoom that the wheel asks for: none while it rests, else one wheel
    /// step in or out about the pointer.
    pub open spec fn scroll_zoom(self) -> Option<ZoomRequest> {
        if self.scroll == 0 {
            None
        } else if self.scroll > 0 {
            Some(ZoomRequest { factor: (UNIT + self.wheel_speed()) as i64, anchor: self.pointer })
        } else {
            Some(ZoomRequest { factor: (UNIT - self.wheel_speed()) as i64, anchor: self.pointer })
        }
    }

    /// The intents of the frame.
    pub open spec fn intents(self) -> Intents {
        Intents {
            toggle_menu: self.menu_pressed,
            toggle_mode: self.mode_pressed,
            toggle_panel: self.ctrl && self.panel_pressed,
            request_save: self.ctrl && self.save_pressed && !self.shift,
            request_save_as: self.ctrl && self.save_pressed && self.shift,
        }
    }
}

/// A frame in which nothing is pressed, held or moved, with the pointer at
/// the origin.
pub fn idle_frame() -> (input: FrameInput)
    ensures
        input == (FrameInput {
            pointer: Point { x: 0, y: 0 },
            primary_pressed: false,
            primary_released: false,
            primary_down: false,
            scroll: 0,
            up: false,
            down: false,
            left: false,
            right: false,
            shift: false,
            ctrl: false,
            zoom_in: false,
            zoom_out: false,
            menu_pressed: false,
            mode_pressed: false,
            save_pressed: false,
            panel_pressed: false,
        }),
{
    FrameInput {
        pointer: Point { x: 0, y: 0 },
        primary_pressed: false,
        primary_released: false,
        primary_down: false,
        scroll: 0,
        up: false,
        down: false,
        left: false,
        right: false,
        shift: false,
        ctrl: false,
        zoom_in: false,
        zoom_out: false,
        menu_pressed: false,
        mode_pressed: false,
        save_pressed: false,
        panel_pressed: false,
    }
}

/// The pan step of the frame.
pub fn pan_speed(input: &FrameInput) -> (step: i64)
    ensures
        step == input.pan_speed(),
{
    if input.shift {
        2 * DEFAULT_PAN_SPEED
    } else {
        DEFAULT_PAN_SPEED
    }
}

/// The step of the zoom keys in the frame.
pub fn zoom_speed(input: &FrameInput) -> (step: i64)
    ensures
        step == input.zoom_speed(),
{
    if input.shift {
        2 * DEFAULT_ZOOM_SPEED
    } else {
        DEFAULT_ZOOM_SPEED
    }
}

/// The step of the wheel in the frame.
pub fn wheel_speed(input: &FrameInput) -> (step: i64)
    ensures
        step == input.wheel_speed(),
{
    if input.shift {
        2 * WHEEL_ZOOM_SPEED
    } else {
        WHEEL_ZOOM_SPEED
    }
}

/// The pan that the held arrow keys ask of the application: right and up
/// raise the offset, left and down lower it, by the pan step of the frame.
pub fn keyboard_pan(input: &FrameInput) -> (delta: Point)
    ensures
        delta == input.keyboard_pan(),
{
    let step = pan_speed(input);
    let mut x: i64 = 0;
    let mut y: i64 = 0;
    if input.right {
        x = x + step;
    }
    if input.left {
        x = x - step;
    }
    if input.up {
        y = y + step;
    }
    if input.down {
        y = y - step;
    }
    Point { x, y }
}

/// The pan that the held arrow keys ask of a camera on its own: left and up
/// raise the offset, right and down lower it, by `ARROW_PAN_STEP`.
pub fn arrow_pan(input: &FrameInput) -> (delta: Point)
    ensures
        delta == input.arrow_pan(),
{
    let mut x: i64 = 0;
    let mut y: i64 = 0;
    if input.left {
        x = x + ARROW_PAN_STEP;
    }
    if input.right {
        x = x - ARROW_PAN_STEP;
    }
    if input.up {
        y = y + ARROW_PAN_STEP;
    }
    if input.down {
        y = y - ARROW_PAN_STEP;
    }
    Point { x, y }
}

/// The zoom that the wheel asks for.
pub fn scroll_zoom(input: &FrameInput) -> (request: Option<ZoomRequest>)
    ensures
        request == input.scroll_zoom(),
{
    let step = wheel_speed(input);
    if input.scroll == 0 {
        None
    } else if input.scroll > 0 {
        Some(ZoomRequest { factor: UNIT + step, anchor: input.pointer })
    } else {
        Some(ZoomRequest { factor: UNIT - step, anchor: input.pointer })
    }
}

/// The intents of the frame.
pub fn intents(input: &FrameInput) -> (asked: Intents)
    ensures
        asked == input.intents(),
{
    Intents {
        toggle_menu: input.menu_pressed,
        toggle_mode: input.mode_pressed,
        toggle_panel: input.ctrl && input.panel_pressed,
        request_save: input.ctrl && input.save_pressed && !input.shift,
        request_save_as: input.ctrl && input.save_pressed && input.shift,
    }
}

} // verus!
