//! The viewport: pan offset and zoom, the two coordinate conversions, and
//! zooming about an anchor.

use vstd::prelude::*;
use crate::fixed::{
    clamp, floor_div, lemma_scale_there_and_back, mul_div, saturate, saturate_i128, scale, UNIT,
};
use crate::geometry::Point;
use crate::input::{arrow_pan, scroll_zoom, FrameInput};

verus! {

/// The smallest zoom factor: one tenth.
pub const ZOOM_MIN: i64 = 100;

/// The largest zoom factor: ten.
pub const ZOOM_MAX: i64 = 10_000;

/// The coordinates up to which conversions are exact: no intermediate
/// result of a conversion between points this close to the origin leaves the
/// range of `i64`.
pub const REACH: i64 = 0x1_0000_0000_0000;

/// The most by which a coordinate may come back smaller from a conversion to
/// the other space and back: a hundredth of a unit.
pub const TOLERANCE: i64 = 10;

/// Both coordinates of `p` lie within `REACH` of the origin.
pub open spec fn in_reach(p: Point) -> bool {
    &&& -REACH <= p.x <= REACH
    &&& -REACH <= p.y <= REACH
}

/// The world coordinate shown at screen coordinate `s`.
pub open spec fn to_world(s: int, zoom: int, offset: int) -> int {
    scale(s - offset, UNIT as int, zoom)
}

/// The screen coordinate at which world coordinate `w` is shown.
pub open spec fn to_screen(w: int, zoom: int, offset: int) -> int {
    scale(w, zoom, UNIT as int) + offset
}

/// The zoom factor that multiplying `zoom` by `factor` leads to.
pub open spec fn zoom_after(zoom: int, factor: int) -> int {
    clamp(scale(zoom, factor, UNIT as int), ZOOM_MIN as int, ZOOM_MAX as int)
}

/// The pan offset that keeps world coordinate `world` at screen coordinate
/// `anchor` under the zoom factor `zoom`.
pub open spec fn offset_for(anchor: int, world: int, zoom: int) -> int {
    anchor - scale(world, zoom, UNIT as int)
}

/// What a camera is, to its callers.
pub struct CameraView {
    pub zoom: int,
    pub offset: Point,
    pub dragging: bool,
    pub last_pointer: Point,
}

impl CameraView {
    /// The zoom factor lies between `ZOOM_MIN` and `ZOOM_MAX`.
    pub open spec fn wf(self) -> bool {
        ZOOM_MIN <= self.zoom <= ZOOM_MAX
    }

    /// The world point shown at the screen point `p`.
    pub open spec fn screen_to_world(self, p: Point) -> Point {
        Point {
            x: saturate(to_world(p.x as int, self.zoom, self.offset.x as int)),
            y: saturate(to_world(p.y as int, self.zoom, self.offset.y as int)),
        }
    }

    /// The screen point at which the world point `p` is shown.
    pub open spec fn world_to_screen(self, p: Point) -> Point {
        Point {
            x: saturate(to_screen(p.x as int, self.zoom, self.offset.x as int)),
            y: saturate(to_screen(p.y as int, self.zoom, self.offset.y as int)),
        }
    }

    /// The camera after its offset has moved by `delta`.
    pub open spec fn pan(self, delta: Point) -> CameraView {
        CameraView { offset: self.offset.moved(delta), ..self }
    }

    /// The camera after zooming by `factor` about the screen point `anchor`:
    /// the world point under the anchor is taken with the old zoom and offset,
    /// and the new offset is solved for it with the new zoom.
    pub open spec fn zoom_by(self, factor: int, anchor: Point) -> CameraView {
        let before = self.screen_to_world(anchor);
        let zoom = zoom_after(self.zoom, factor);
        CameraView {
            zoom,
            offset: Point {
                x: saturate(offset_for(anchor.x as int, before.x as int, zoom)),
                y: saturate(offset_for(anchor.y as int, before.y as int, zoom)),
            },
            ..self
        }
    }

    /// The camera after the pointer's part of a frame. A press of the primary
    /// button starts a drag at the pointer, and a release ends it: a frame
    /// with both leaves no drag. While dragging, the offset follows the
    /// pointer from where it was last seen.
    pub open spec fn mouse_pan(self, input: FrameInput) -> CameraView {
        let dragging = !input.primary_released && (input.primary_pressed || self.dragging);
        let last = if input.primary_pressed {
            input.pointer
        } else {
            self.last_pointer
        };
        if dragging {
            CameraView {
                dragging,
                last_pointer: input.pointer,
                offset: self.offset.moved(input.pointer.since(last)),
                ..self
            }
        } else {
            CameraView { dragging, last_pointer: last, ..self }
        }
    }

    /// The camera after the arrow keys' part of a frame: each held key pans
    /// by `ARROW_PAN_STEP`.
    pub open spec fn arrow_pan(self, input: FrameInput) -> CameraView {
        self.pan(input.arrow_pan())
    }

    /// The camera after its zoom factor has been multiplied by `factor` and
    /// held to the interval from `ZOOM_MIN` to `ZOOM_MAX`, with the offset
    /// left as it is.
    pub open spec fn rescale(self, factor: int) -> CameraView {
        CameraView { zoom: zoom_after(self.zoom, factor), ..self }
    }

    /// The camera after the wheel's part of a frame.
    pub open spec fn scroll_zoom(self, input: FrameInput) -> CameraView {
        match input.scroll_zoom() {
            Some(request) => self.zoom_by(request.factor as int, request.anchor),
            None => self,
        }
    }

    /// The camera after a frame: the arrow keys pan, then the pointer drags,
    /// then the wheel zooms.
    pub open spec fn update(self, input: FrameInput) -> CameraView {
        self.arrow_pan(input).mouse_pan(input).scroll_zoom(input)
    }
}

/// The viewport through which the tree is seen.
#[derive(Clone, Copy, Debug)]
pub struct Camera {
    zoom: i64,
    offset: Point,
    dragging: bool,
    last_mouse_pos: Point,
}

impl View for Camera {
    type V = CameraView;

    closed spec fn view(&self) -> CameraView {
        CameraView {
            zoom: self.zoom as int,
            offset: self.offset,
            dragging: self.dragging,
            last_pointer: self.last_mouse_pos,
        }
    }
}

/// The screen position of the world position `world` under a zoom factor
/// and a camera offset.
pub fn calc_pos(world: Point, zoom: i64, camera_offset: Point) -> (p: Point)
    ensures
        p.x == saturate(to_screen(world.x as int, zoom as int, camera_offset.x as int)),
        p.y == saturate(to_screen(world.y as int, zoom as int, camera_offset.y as int)),
{
    let x: i128 = mul_div(world.x, zoom, UNIT) + camera_offset.x as i128;
    let y: i128 = mul_div(world.y, zoom, UNIT) + camera_offset.y as i128;
    Point { x: saturate_i128(x), y: saturate_i128(y) }
}

/// The world coordinate shown at screen coordinate `s`.
fn coord_to_world(s: i64, zoom: i64, offset: i64) -> (w: i64)
    requires
        zoom > 0,
    ensures
        w == saturate(to_world(s as int, zoom as int, offset as int)),
{
    let d: i128 = s as i128 - offset as i128;
    let k: i128 = UNIT as i128;
    assert(-0x1_0000_0000_0000_0000 * 1000 <= d * k <= 0x1_0000_0000_0000_0000 * 1000)
        by (nonlinear_arith)
        requires
            -0x1_0000_0000_0000_0000 <= d <= 0x1_0000_0000_0000_0000,
            k == 1000,
    ;
    saturate_i128(floor_div(d * k, zoom as i128))
}

impl Camera {
    /// The zoom factor is never out of range.
    #[verifier::type_invariant]
    spec fn inv(self) -> bool {
        ZOOM_MIN <= self.zoom <= ZOOM_MAX
    }

    /// A camera at zoom factor 1 with no offset, not dragging.
    pub fn new() -> (cam: Camera)
        ensures
            cam@ == (CameraView {
                zoom: UNIT as int,
                offset: Point { x: 0, y: 0 },
                dragging: false,
                last_pointer: Point { x: 0, y: 0 },
            }),
            cam@.wf(),
    {
        Camera {
            zoom: UNIT,
            offset: Point { x: 0, y: 0 },
            dragging: false,
            last_mouse_pos: Point { x: 0, y: 0 },
        }
    }

    /// A camera with the given zoom factor and offset, or `None` where the
    /// zoom factor is out of range.
    pub fn with_view(zoom: i64, offset: Point) -> (cam: Option<Camera>)
        ensures
            cam.is_some() <==> ZOOM_MIN <= zoom <= ZOOM_MAX,
            cam.is_some() ==> cam.unwrap()@ == (CameraView {
                zoom: zoom as int,
                offset,
                dragging: false,
                last_pointer: Point { x: 0, y: 0 },
            }),
    {
        if zoom < ZOOM_MIN || zoom > ZOOM_MAX {
            None
        } else {
            Some(Camera { zoom, offset, dragging: false, last_mouse_pos: Point { x: 0, y: 0 } })
        }
    }

    /// The zoom factor, which lies between `ZOOM_MIN` and `ZOOM_MAX`.
    pub fn zoom(&self) -> (z: i64)
        ensures
            z == self@.zoom,
            self@.wf(),
    {
        proof {
            use_type_invariant(self);
        }
        self.zoom
    }

    /// The pan offset: the screen point at which the world's origin is shown.
    pub fn offset(&self) -> (o: Point)
        ensures
            o == self@.offset,
    {
        self.offset
    }

    /// Whether a drag is under way.
    pub fn is_dragging(&self) -> (d: bool)
        ensures
            d == self@.dragging,
    {
        self.dragging
    }

    /// Moves the pan offset by `delta`.
    pub fn pan(&mut self, delta: Point)
        ensures
            final(self)@ == old(self)@.pan(delta),
    {
        proof {
            use_type_invariant(&*self);
        }
        self.offset = self.offset.offset_by(delta);
    }

    /// The world point shown at the screen point `p`.
    pub fn screen_to_world(&self, p: Point) -> (w: Point)
        ensures
            w == self@.screen_to_world(p),
    {
        proof {
            use_type_invariant(self);
        }
        Point {
            x: coord_to_world(p.x, self.zoom, self.offset.x),
            y: coord_to_world(p.y, self.zoom, self.offset.y),
        }
    }

    /// The screen point at which the world point `p` is shown.
    pub fn world_to_screen(&self, p: Point) -> (s: Point)
        ensures
            s == self@.world_to_screen(p),
    {
        calc_pos(p, self.zoom, self.offset)
    }

    /// Multiplies the zoom factor by `factor`, holds it to the interval from
    /// `ZOOM_MIN` to `ZOOM_MAX`, and moves the offset so that the world point
    /// under `anchor` stays under it.
    pub fn zoom_by(&mut self, factor: i64, anchor: Point)
        ensures
            final(self)@ == old(self)@.zoom_by(factor as int, anchor),
            final(self)@.wf(),
    {
        proof {
            use_type_invariant(&*self);
        }
        let before = self.screen_to_world(anchor);
        let scaled: i128 = mul_div(self.zoom, factor, UNIT);
        let zoom: i64 = if scaled < ZOOM_MIN as i128 {
            ZOOM_MIN
        } else if scaled > ZOOM_MAX as i128 {
            ZOOM_MAX
        } else {
            scaled as i64
        };
        let x: i128 = anchor.x as i128 - mul_div(before.x, zoom, UNIT);
        let y: i128 = anchor.y as i128 - mul_div(before.y, zoom, UNIT);
        self.zoom = zoom;
        self.offset = Point { x: saturate_i128(x), y: saturate_i128(y) };
    }

    /// Multiplies the zoom factor by `factor` and holds it to the interval
    /// from `ZOOM_MIN` to `ZOOM_MAX`. The offset stays as it is.
    pub fn rescale(&mut self, factor: i64)
        ensures
            final(self)@ == old(self)@.rescale(factor as int),
            final(self)@.wf(),
    {
        proof {
            use_type_invariant(&*self);
        }
        let scaled: i128 = mul_div(self.zoom, factor, UNIT);
        let zoom: i64 = if scaled < ZOOM_MIN as i128 {
            ZOOM_MIN
        } else if scaled > ZOOM_MAX as i128 {
            ZOOM_MAX
        } else {
            scaled as i64
        };
        self.zoom = zoom;
    }

    /// Applies the arrow keys of one frame: each held key pans by
    /// `ARROW_PAN_STEP`, left and up forward, right and down back.
    pub fn arrow_pan(&mut self, input: &FrameInput)
        ensures
            final(self)@ == old(self)@.arrow_pan(*input),
    {
        self.pan(arrow_pan(input));
    }

    /// Applies the pointer of one frame: starts a drag on a press of the
    /// primary button, ends it on a release, and while it lasts moves the
    /// offset by the way the pointer has gone since the frame before.
    pub fn mouse_pan(&mut self, input: &FrameInput)
        ensures
            final(self)@ == old(self)@.mouse_pan(*input),
    {
        proof {
            use_type_invariant(&*self);
        }
        if input.primary_pressed {
            self.dragging = true;
            self.last_mouse_pos = input.pointer;
        }
        if input.primary_released {
            self.dragging = false;
        }
        if self.dragging {
            let delta = input.pointer.delta_from(self.last_mouse_pos);
            self.offset = self.offset.offset_by(delta);
            self.last_mouse_pos = input.pointer;
        }
    }

    /// Applies the wheel of one frame: a turn zooms one step in or out about
    /// the pointer.
    pub fn scroll_zoom(&mut self, input: &FrameInput)
        ensures
            final(self)@ == old(self)@.scroll_zoom(*input),
    {
        match scroll_zoom(input) {
            Some(request) => {
                self.zoom_by(request.factor, request.anchor);
            },
            None => {},
        }
    }

    /// Applies one frame of input: arrow keys, then pointer, then wheel.
    pub fn update(&mut self, input: &FrameInput)
        ensures
            final(self)@ == old(self)@.update(*input),
    {
        self.arrow_pan(input);
        self.mouse_pan(input);
        self.scroll_zoom(input);
    }
}

/// Within reach, a world coordinate is at most ten times as far out as the
/// screen distance it was taken from, and a screen distance at most ten times
/// as far out as the world coordinate.
proof fn lemma_scale_reach(x: int, num: int, den: int, bound: int)
    requires
        -bound <= x <= bound,
        0 < num <= 10 * den,
    ensures
        -10 * bound <= scale(x, num, den) <= 10 * bound,
{
    let q = scale(x, num, den);
    let m = (x * num) % den;
    assert(x * num == den * q + m && 0 <= m < den) by (nonlinear_arith)
        requires
            den > 0,
            q == (x * num) / den,
            m == (x * num) % den,
    ;
    assert(-10 * bound <= q <= 10 * bound) by (nonlinear_arith)
        requires
            x * num == den * q + m,
            0 <= m < den,
            -bound <= x <= bound,
            0 < num <= 10 * den,
    ;
}

/// Round trip of one coordinate: the screen coordinate `s` is taken to the
/// world, and the world coordinate back to the screen as `calc_pos` does it.
/// It comes back at most `TOLERANCE` smaller, and neither step leaves the
/// range of `i64`, for every `s` and offset within `REACH`.
pub proof fn lemma_coord_round_trip(s: int, zoom: int, offset: int)
    requires
        ZOOM_MIN <= zoom <= ZOOM_MAX,
        -REACH <= s <= REACH,
        -REACH <= offset <= REACH,
    ensures
        saturate(to_world(s, zoom, offset)) == to_world(s, zoom, offset),
        0 <= s - to_screen(to_world(s, zoom, offset), zoom, offset) <= TOLERANCE,
        saturate(to_screen(to_world(s, zoom, offset), zoom, offset)) == to_screen(
            to_world(s, zoom, offset),
            zoom,
            offset,
        ),
{
    let d = s - offset;
    let back = scale(scale(d, UNIT as int, zoom), zoom, UNIT as int);
    lemma_scale_reach(d, UNIT as int, zoom, 2 * REACH);
    lemma_scale_there_and_back(d, UNIT as int, zoom);
    assert(d - back <= TOLERANCE) by (nonlinear_arith)
        requires
            (d - back) * 1000 < zoom + 1000,
            zoom <= 10_000,
    ;
}

/// Zooming about an anchor, one coordinate.
proof fn lemma_coord_zoom(anchor: int, zoom: int, offset: int, next: int)
    requires
        ZOOM_MIN <= zoom <= ZOOM_MAX,
        ZOOM_MIN <= next <= ZOOM_MAX,
        -REACH <= anchor <= REACH,
        -REACH <= offset <= REACH,
    ensures
        ({
            let world = to_world(anchor, zoom, offset);
            let moved = offset_for(anchor, world, next);
            &&& saturate(world) == world
            &&& saturate(moved) == moved
            &&& to_screen(world, next, moved) == anchor
            &&& 0 <= world - to_world(anchor, next, moved) <= TOLERANCE
            &&& saturate(to_world(anchor, next, moved)) == to_world(anchor, next, moved)
        }),
{
    let world = to_world(anchor, zoom, offset);
    let shown = scale(world, next, UNIT as int);
    let moved = offset_for(anchor, world, next);
    let back = to_world(anchor, next, moved);
    lemma_scale_reach(anchor - offset, UNIT as int, zoom, 2 * REACH);
    lemma_scale_reach(world, next, UNIT as int, 20 * REACH);
    lemma_scale_there_and_back(world, next, UNIT as int);
    assert(anchor - moved == shown);
    assert(back == scale(shown, UNIT as int, next));
    assert(world - back <= TOLERANCE) by (nonlinear_arith)
        requires
            (world - back) * next < 1000 + next,
            next >= 100,
    ;
}

/// Converting a screen point to the world and back returns it, up to
/// `TOLERANCE` thousandths in each coordinate, whatever the zoom factor and
/// for every point and offset within `REACH`.
pub proof fn lemma_round_trip(cam: CameraView, p: Point)
    requires
        cam.wf(),
        in_reach(p),
        in_reach(cam.offset),
    ensures
        0 <= p.x - cam.world_to_screen(cam.screen_to_world(p)).x <= TOLERANCE,
        0 <= p.y - cam.world_to_screen(cam.screen_to_world(p)).y <= TOLERANCE,
{
    lemma_coord_round_trip(p.x as int, cam.zoom, cam.offset.x as int);
    lemma_coord_round_trip(p.y as int, cam.zoom, cam.offset.y as int);
}

/// At zoom factor 1 the conversion to the world and back returns the screen
/// point itself, for every point and offset within `REACH`.
pub proof fn lemma_round_trip_at_unit_zoom(cam: CameraView, p: Point)
    requires
        cam.zoom == UNIT,
        in_reach(p),
        in_reach(cam.offset),
    ensures
        cam.world_to_screen(cam.screen_to_world(p)) == p,
{
}

/// A turn of the wheel keeps the world point under the pointer: after it
/// that world point is shown exactly at the pointer, and the world point
/// found under the pointer is the one found there before, up to `TOLERANCE`
/// thousandths in each coordinate. This holds for every pointer and offset
/// within `REACH`.
pub proof fn lemma_scroll_zoom_keeps_pointer(cam: CameraView, input: FrameInput)
    requires
        cam.wf(),
        input.scroll != 0,
        in_reach(input.pointer),
        in_reach(cam.offset),
    ensures
        cam.scroll_zoom(input).wf(),
        cam.scroll_zoom(input).world_to_screen(cam.screen_to_world(input.pointer))
            == input.pointer,
        0 <= cam.screen_to_world(input.pointer).x - cam.scroll_zoom(input).screen_to_world(
            input.pointer,
        ).x <= TOLERANCE,
        0 <= cam.screen_to_world(input.pointer).y - cam.scroll_zoom(input).screen_to_world(
            input.pointer,
        ).y <= TOLERANCE,
{
    let request = input.scroll_zoom().unwrap();
    lemma_zoom_keeps_anchor(cam, request.factor as int, input.pointer);
}

/// A frame in which only the wheel turns keeps the world point under the
/// pointer: with no arrow key held, no drag under way and no press of the
/// primary button, `update` does what `scroll_zoom` does.
pub proof fn lemma_update_keeps_pointer(cam: CameraView, input: FrameInput)
    requires
        cam.wf(),
        input.scroll != 0,
        !input.up && !input.down && !input.left && !input.right,
        !cam.dragging && !input.primary_pressed,
        in_reach(input.pointer),
        in_reach(cam.offset),
    ensures
        cam.update(input) == cam.scroll_zoom(input),
        cam.update(input).world_to_screen(cam.screen_to_world(input.pointer)) == input.pointer,
        0 <= cam.screen_to_world(input.pointer).x - cam.update(input).screen_to_world(
            input.pointer,
        ).x <= TOLERANCE,
        0 <= cam.screen_to_world(input.pointer).y - cam.update(input).screen_to_world(
            input.pointer,
        ).y <= TOLERANCE,
{
    assert(cam.arrow_pan(input) == cam);
    assert(cam.arrow_pan(input).mouse_pan(input) == cam);
    lemma_scroll_zoom_keeps_pointer(cam, input);
}

/// Zooming keeps the world point under the anchor: after the zoom that world
/// point is shown exactly at the anchor, and the world point found under the
/// anchor is the one found there before, up to `TOLERANCE` thousandths in
/// each coordinate. This holds for every factor, and for every anchor and
/// offset within `REACH`.
pub proof fn lemma_zoom_keeps_anchor(cam: CameraView, factor: int, anchor: Point)
    requires
        cam.wf(),
        in_reach(anchor),
        in_reach(cam.offset),
    ensures
        cam.zoom_by(factor, anchor).wf(),
        cam.zoom_by(factor, anchor).world_to_screen(cam.screen_to_world(anchor)) == anchor,
        0 <= cam.screen_to_world(anchor).x - cam.zoom_by(factor, anchor).screen_to_world(anchor).x
            <= TOLERANCE,
        0 <= cam.screen_to_world(anchor).y - cam.zoom_by(factor, anchor).screen_to_world(anchor).y
            <= TOLERANCE,
{
    let next = zoom_after(cam.zoom, factor);
    lemma_coord_zoom(anchor.x as int, cam.zoom, cam.offset.x as int, next);
    lemma_coord_zoom(anchor.y as int, cam.zoom, cam.offset.y as int, next);
}

} // verus!
