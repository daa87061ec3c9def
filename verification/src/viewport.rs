//! The viewport state machine: pan offset, zoom scale, drag gestures and
//! easing toward a target, all in millionths of a pixel or of a unit scale.

use vstd::prelude::*;
use crate::config::{Config, ConfigModel};
use crate::fixed::{
    clamp, clamp_to, div_round, div_trunc, ease, ease_toward, lemma_ease_step, mul_div_round,
    round_div, saturate, saturate_coord, trunc_div, COORD_LIMIT, ONE, SCALE_LIMIT,
};

verus! {

/// Largest magnitude of a drag anchor: a cursor coordinate less a stored
/// coordinate.
pub const ANCHOR_LIMIT: i64 = 1_002_147_483_648_000_000;

/// The rectangle, in whole pixels, that the image is drawn into.
#[derive(Clone, Copy, Debug, PartialEq, Eq, Structural)]
pub struct DestRect {
    pub x: i32,
    pub y: i32,
    pub width: u32,
    pub height: u32,
}

/// The state of the view as mathematical values. Positions and the drag
/// anchor are in millionths of a pixel, scales in millionths, the cursor in
/// whole pixels.
pub struct ViewportModel {
    pub position_x: int,
    pub position_y: int,
    pub target_x: int,
    pub target_y: int,
    pub scale: int,
    pub target_scale: int,
    pub dragging: bool,
    pub anchor_x: int,
    pub anchor_y: int,
    pub cursor_x: int,
    pub cursor_y: int,
}

/// The scale after one zoom step, before it is held to the configured
/// bounds: multiplied by the factor for a positive direction, divided by it
/// for a negative one, unchanged for zero.
pub open spec fn stepped_scale(scale: int, factor: int, direction: int) -> int {
    if direction > 0 {
        round_div(scale * factor, ONE as int)
    } else if direction < 0 {
        round_div(scale * ONE, factor)
    } else {
        scale
    }
}

/// The image origin, along one axis, that keeps the image point under the
/// cursor in place while the scale goes from `old_scale` to `new_scale`.
/// The cursor is in whole pixels.
pub open spec fn pivoted(cursor: int, origin: int, old_scale: int, new_scale: int) -> int {
    saturate(pivot_point(cursor, origin, old_scale, new_scale))
}

/// `pivoted` before it is held to the range of stored coordinates. The
/// image point under the cursor lies `(cursor - origin) / old_scale` into
/// the image; at the new scale it lies that many times `new_scale` from the
/// new origin. The quotient is rounded once, after the product is taken.
pub open spec fn pivot_point(cursor: int, origin: int, old_scale: int, new_scale: int) -> int {
    cursor * ONE - round_div((cursor * ONE - origin) * new_scale, old_scale)
}

/// The on-screen centre, along one axis, of an image of `extent` pixels
/// drawn from `origin` at `scale`.
pub open spec fn center(origin: int, extent: int, scale: int) -> int {
    origin + round_div(extent * scale, 2)
}

/// The origin, along one axis, after the centring policy: an image whose
/// scaled extent is smaller than the viewport is centred in it, any other
/// stays where it is.
pub open spec fn fitted(origin: int, extent: int, scale: int, viewport: int) -> int {
    if extent * scale < viewport * ONE {
        round_div(viewport * ONE - extent * scale, 2)
    } else {
        origin
    }
}

impl ViewportModel {
    /// The state that a view starts in: at the origin, at scale one, at
    /// rest and not dragging.
    pub open spec fn initial() -> ViewportModel {
        ViewportModel {
            position_x: 0,
            position_y: 0,
            target_x: 0,
            target_y: 0,
            scale: ONE as int,
            target_scale: ONE as int,
            dragging: false,
            anchor_x: 0,
            anchor_y: 0,
            cursor_x: 0,
            cursor_y: 0,
        }
    }

    /// Every field is in the range that the engine stores, and both scales
    /// are positive.
    pub open spec fn wf(self) -> bool {
        &&& -COORD_LIMIT <= self.position_x <= COORD_LIMIT
        &&& -COORD_LIMIT <= self.position_y <= COORD_LIMIT
        &&& -COORD_LIMIT <= self.target_x <= COORD_LIMIT
        &&& -COORD_LIMIT <= self.target_y <= COORD_LIMIT
        &&& 0 < self.scale <= SCALE_LIMIT
        &&& 0 < self.target_scale <= SCALE_LIMIT
        &&& -ANCHOR_LIMIT <= self.anchor_x <= ANCHOR_LIMIT
        &&& -ANCHOR_LIMIT <= self.anchor_y <= ANCHOR_LIMIT
        &&& i32::MIN <= self.cursor_x <= i32::MAX
        &&& i32::MIN <= self.cursor_y <= i32::MAX
    }

    /// The view has arrived: position and scale equal their targets.
    pub open spec fn settled(self) -> bool {
        &&& self.position_x == self.target_x
        &&& self.position_y == self.target_y
        &&& self.scale == self.target_scale
    }

    /// A drag starts with the cursor at `(x, y)`: the anchor is the cursor
    /// less the current position.
    pub open spec fn begin_drag(self, x: int, y: int) -> ViewportModel {
        ViewportModel {
            dragging: true,
            anchor_x: x * ONE - self.position_x,
            anchor_y: y * ONE - self.position_y,
            ..self
        }
    }

    /// The drag ends.
    pub open spec fn end_drag(self) -> ViewportModel {
        ViewportModel { dragging: false, ..self }
    }

    /// The cursor moves to `(x, y)`; while dragging, the target position
    /// follows it at the anchor's distance.
    pub open spec fn on_motion(self, x: int, y: int) -> ViewportModel {
        if self.dragging {
            ViewportModel {
                cursor_x: x,
                cursor_y: y,
                target_x: saturate(x * ONE - self.anchor_x),
                target_y: saturate(y * ONE - self.anchor_y),
                ..self
            }
        } else {
            ViewportModel { cursor_x: x, cursor_y: y, ..self }
        }
    }

    /// The target scale after one zoom step in `direction`, held to the
    /// configured bounds.
    pub open spec fn zoomed_scale(self, cfg: ConfigModel, direction: int) -> int {
        clamp(
            stepped_scale(self.target_scale, cfg.zoom_factor, direction),
            cfg.scale_min,
            cfg.scale_max,
        )
    }

    /// One zoom step about the cursor, on the target values: the target
    /// scale is stepped and clamped, and the target position is moved so
    /// that the image point under the cursor stays under it.
    pub open spec fn on_zoom(self, cfg: ConfigModel, direction: int) -> ViewportModel {
        let scale = self.zoomed_scale(cfg, direction);
        ViewportModel {
            target_scale: scale,
            target_x: pivoted(self.cursor_x, self.target_x, self.target_scale, scale),
            target_y: pivoted(self.cursor_y, self.target_y, self.target_scale, scale),
            ..self
        }
    }

    /// The scale goes back to one while the centre of the image, as drawn
    /// now from the current position at the current scale, stays in place.
    pub open spec fn reset_scale(self, width: int, height: int) -> ViewportModel {
        ViewportModel {
            target_scale: ONE as int,
            target_x: saturate(
                center(self.position_x, width, self.scale) - round_div(width * ONE, 2),
            ),
            target_y: saturate(
                center(self.position_y, height, self.scale) - round_div(height * ONE, 2),
            ),
            ..self
        }
    }

    /// One frame of easing: scale and position each move toward their
    /// target by the share `factor / ONE` of the distance.
    pub open spec fn advance(self, factor: int) -> ViewportModel {
        ViewportModel {
            scale: ease(self.scale, self.target_scale, factor),
            position_x: ease(self.position_x, self.target_x, factor),
            position_y: ease(self.position_y, self.target_y, factor),
            ..self
        }
    }

    /// The centring policy for a viewport of the given size, applied to the
    /// current position only.
    pub open spec fn clamp_to_bounds(
        self,
        image_width: int,
        image_height: int,
        viewport_width: int,
        viewport_height: int,
    ) -> ViewportModel {
        ViewportModel {
            position_x: fitted(self.position_x, image_width, self.scale, viewport_width),
            position_y: fitted(self.position_y, image_height, self.scale, viewport_height),
            ..self
        }
    }

    /// The rectangle to draw an image of the given size into: the current
    /// position and the scaled size, each with its fraction dropped and held
    /// to the range of its type.
    pub open spec fn dest_rect(self, image_width: int, image_height: int) -> DestRect {
        DestRect {
            x: clamp(trunc_div(self.position_x, ONE as int), i32::MIN as int, i32::MAX as int) as i32,
            y: clamp(trunc_div(self.position_y, ONE as int), i32::MIN as int, i32::MAX as int) as i32,
            width: clamp(image_width * self.scale / (ONE as int), 0, u32::MAX as int) as u32,
            height: clamp(image_height * self.scale / (ONE as int), 0, u32::MAX as int) as u32,
        }
    }
}

/// The view of a displayed image: where it is drawn and at what scale, where
/// both are heading, and the drag in progress.
#[derive(Clone, Copy, Debug, PartialEq, Eq, Structural)]
pub struct ViewportState {
    position_x: i64,
    position_y: i64,
    target_x: i64,
    target_y: i64,
    scale: i64,
    target_scale: i64,
    dragging: bool,
    anchor_x: i64,
    anchor_y: i64,
    cursor_x: i32,
    cursor_y: i32,
}

impl View for ViewportState {
    type V = ViewportModel;

    closed spec fn view(&self) -> ViewportModel {
        ViewportModel {
            position_x: self.position_x as int,
            position_y: self.position_y as int,
            target_x: self.target_x as int,
            target_y: self.target_y as int,
            scale: self.scale as int,
            target_scale: self.target_scale as int,
            dragging: self.dragging,
            anchor_x: self.anchor_x as int,
            anchor_y: self.anchor_y as int,
            cursor_x: self.cursor_x as int,
            cursor_y: self.cursor_y as int,
        }
    }
}

/// Computes `pivoted`.
fn pivot(cursor: i32, origin: i64, old_scale: i64, new_scale: i64) -> (r: i64)
    requires
        -COORD_LIMIT <= origin <= COORD_LIMIT,
        0 < old_scale,
        0 < new_scale <= SCALE_LIMIT,
    ensures
        r == pivoted(cursor as int, origin as int, old_scale as int, new_scale as int),
        -COORD_LIMIT <= r <= COORD_LIMIT,
{
    let c: i64 = cursor as i64 * ONE;
    let d: i64 = c - origin;
    assert(-ANCHOR_LIMIT * SCALE_LIMIT <= d * new_scale <= ANCHOR_LIMIT * SCALE_LIMIT)
        by (nonlinear_arith)
        requires
            -ANCHOR_LIMIT <= d <= ANCHOR_LIMIT,
            0 < new_scale <= SCALE_LIMIT,
    ;
    let w: i128 = mul_div_round(d, new_scale, old_scale);
    saturate_coord(c as i128 - w)
}

/// The target origin, along one axis, that `reset_scale` chooses.
fn recentered(origin: i64, extent: u32, scale: i64) -> (r: i64)
    requires
        -COORD_LIMIT <= origin <= COORD_LIMIT,
        0 < scale <= SCALE_LIMIT,
    ensures
        r == saturate(
            center(origin as int, extent as int, scale as int) - round_div(extent * ONE, 2),
        ),
        -COORD_LIMIT <= r <= COORD_LIMIT,
{
    assert(0 <= extent * scale <= 0xffff_ffff * SCALE_LIMIT) by (nonlinear_arith)
        requires
            0 <= extent <= 0xffff_ffff,
            0 < scale <= SCALE_LIMIT,
    ;
    let half: i128 = mul_div_round(extent as i64, scale, 2);
    let full: i128 = mul_div_round(extent as i64, ONE, 2);
    saturate_coord(origin as i128 + half - full)
}

/// Computes `fitted`.
fn fit(origin: i64, extent: u32, scale: i64, viewport: u32) -> (r: i64)
    requires
        -COORD_LIMIT <= origin <= COORD_LIMIT,
        0 < scale <= SCALE_LIMIT,
    ensures
        r == fitted(origin as int, extent as int, scale as int, viewport as int),
        -COORD_LIMIT <= r <= COORD_LIMIT,
{
    assert(0 <= extent * scale <= 0xffff_ffff * SCALE_LIMIT) by (nonlinear_arith)
        requires
            0 <= extent <= 0xffff_ffff,
            0 < scale <= SCALE_LIMIT,
    ;
    let footprint: i128 = extent as i128 * scale as i128;
    let room: i128 = (viewport as i64 * ONE) as i128;
    if footprint < room {
        div_round(room - footprint, 2) as i64
    } else {
        origin
    }
}

/// A coordinate in whole pixels, its fraction dropped.
fn whole_pixels(v: i64) -> (r: i32)
    ensures
        r == clamp(trunc_div(v as int, ONE as int), i32::MIN as int, i32::MAX as int),
{
    let q: i128 = div_trunc(v as i128, ONE);
    if q < i32::MIN as i128 {
        i32::MIN
    } else if q > i32::MAX as i128 {
        i32::MAX
    } else {
        q as i32
    }
}

/// An extent in whole pixels at the given scale, its fraction dropped.
fn scaled_extent(extent: u32, scale: i64) -> (r: u32)
    requires
        0 < scale <= SCALE_LIMIT,
    ensures
        r == clamp(extent * scale / (ONE as int), 0, u32::MAX as int),
{
    assert(0 <= extent * scale <= 0xffff_ffff * SCALE_LIMIT) by (nonlinear_arith)
        requires
            0 <= extent <= 0xffff_ffff,
            0 < scale <= SCALE_LIMIT,
    ;
    let n: u128 = extent as u128 * scale as u128;
    let q: u128 = n / (ONE as u128);
    if q > u32::MAX as u128 {
        u32::MAX
    } else {
        q as u32
    }
}

impl ViewportState {
    #[verifier::type_invariant]
    spec fn valid(self) -> bool {
        self@.wf()
    }

    /// Two states with the same view are the same state, field for field:
    /// the view leaves nothing out. So a state that was reset equals a newly
    /// made one, both having the initial view.
    pub proof fn law_view_is_faithful(a: ViewportState, b: ViewportState)
        requires
            a@ == b@,
        ensures
            a == b,
    {
    }

    /// A view in its initial state.
    pub fn new() -> (s: ViewportState)
        ensures
            s@ == ViewportModel::initial(),
            s@.wf(),
    {
        ViewportState {
            position_x: 0,
            position_y: 0,
            target_x: 0,
            target_y: 0,
            scale: ONE,
            target_scale: ONE,
            dragging: false,
            anchor_x: 0,
            anchor_y: 0,
            cursor_x: 0,
            cursor_y: 0,
        }
    }

    /// Puts the view back into its initial state.
    pub fn reset(&mut self)
        ensures
            final(self)@ == ViewportModel::initial(),
            final(self)@.wf(),
    {
        *self = ViewportState::new();
    }

    /// Starts a drag with the cursor at `(x, y)`.
    pub fn begin_drag(&mut self, x: i32, y: i32)
        ensures
            final(self)@ == old(self)@.begin_drag(x as int, y as int),
            final(self)@.wf(),
    {
        proof {
            use_type_invariant(&*self);
        }
        self.dragging = true;
        self.anchor_x = x as i64 * ONE - self.position_x;
        self.anchor_y = y as i64 * ONE - self.position_y;
    }

    /// Ends the drag, if there is one.
    pub fn end_drag(&mut self)
        ensures
            final(self)@ == old(self)@.end_drag(),
            final(self)@.wf(),
    {
        proof {
            use_type_invariant(&*self);
        }
        self.dragging = false;
    }

    /// Records the cursor at `(x, y)` and, while dragging, moves the target
    /// position with it.
    pub fn on_motion(&mut self, x: i32, y: i32)
        ensures
            final(self)@ == old(self)@.on_motion(x as int, y as int),
            final(self)@.wf(),
    {
        proof {
            use_type_invariant(&*self);
        }
        self.cursor_x = x;
        self.cursor_y = y;
        if self.dragging {
            self.target_x = saturate_coord((x as i64 * ONE - self.anchor_x) as i128);
            self.target_y = saturate_coord((y as i64 * ONE - self.anchor_y) as i128);
        }
    }

    /// One zoom step about the last known cursor position: in for a
    /// positive `direction`, out for a negative one. The step works on the
    /// target values, so that steps in quick succession compose.
    pub fn on_zoom(&mut self, cfg: &Config, direction: i32)
        ensures
            final(self)@ == old(self)@.on_zoom(cfg@, direction as int),
            cfg@.scale_min <= final(self)@.target_scale <= cfg@.scale_max,
            final(self)@.wf(),
    {
        proof {
            use_type_invariant(&*self);
        }
        let old_scale: i64 = self.target_scale;
        let factor: i64 = cfg.zoom_factor();
        let stepped: i128 = if direction > 0 {
            mul_div_round(old_scale, factor, ONE)
        } else if direction < 0 {
            mul_div_round(old_scale, ONE, factor)
        } else {
            old_scale as i128
        };
        let new_scale: i64 = clamp_to(stepped, cfg.scale_min(), cfg.scale_max());
        self.target_x = pivot(self.cursor_x, self.target_x, old_scale, new_scale);
        self.target_y = pivot(self.cursor_y, self.target_y, old_scale, new_scale);
        self.target_scale = new_scale;
    }

    /// Sends the scale back to one, keeping in place the centre of an image
    /// of the given size as it is drawn now.
    pub fn reset_scale(&mut self, image_width: u32, image_height: u32)
        ensures
            final(self)@ == old(self)@.reset_scale(image_width as int, image_height as int),
            final(self)@.wf(),
    {
        proof {
            use_type_invariant(&*self);
        }
        self.target_x = recentered(self.position_x, image_width, self.scale);
        self.target_y = recentered(self.position_y, image_height, self.scale);
        self.target_scale = ONE;
    }

    /// One frame of easing toward the targets, for a smoothing factor above
    /// zero and at most `ONE`. With the factor `ONE` the view arrives at
    /// once.
    pub fn advance(&mut self, smoothing_factor: i64)
        requires
            0 < smoothing_factor <= ONE,
        ensures
            final(self)@ == old(self)@.advance(smoothing_factor as int),
            smoothing_factor == ONE ==> final(self)@.settled(),
            final(self)@.wf(),
    {
        proof {
            use_type_invariant(&*self);
            lemma_ease_step(self.target_scale - self.scale, smoothing_factor as int);
            lemma_ease_step(self.target_x - self.position_x, smoothing_factor as int);
            lemma_ease_step(self.target_y - self.position_y, smoothing_factor as int);
        }
        self.scale = ease_toward(self.scale, self.target_scale, smoothing_factor);
        self.position_x = ease_toward(self.position_x, self.target_x, smoothing_factor);
        self.position_y = ease_toward(self.position_y, self.target_y, smoothing_factor);
    }

    /// Centres the image along each axis on which it is drawn smaller than
    /// the viewport. Only the current position changes, never the target.
    pub fn clamp_to_bounds(
        &mut self,
        image_width: u32,
        image_height: u32,
        viewport_width: u32,
        viewport_height: u32,
    )
        ensures
            final(self)@ == old(self)@.clamp_to_bounds(
                image_width as int,
                image_height as int,
                viewport_width as int,
                viewport_height as int,
            ),
            final(self)@.wf(),
    {
        proof {
            use_type_invariant(&*self);
        }
        self.position_x = fit(self.position_x, image_width, self.scale, viewport_width);
        self.position_y = fit(self.position_y, image_height, self.scale, viewport_height);
    }

    /// The rectangle to draw an image of the given size into.
    pub fn dest_rect(&self, image_width: u32, image_height: u32) -> (r: DestRect)
        ensures
            r == self@.dest_rect(image_width as int, image_height as int),
    {
        proof {
            use_type_invariant(self);
        }
        DestRect {
            x: whole_pixels(self.position_x),
            y: whole_pixels(self.position_y),
            width: scaled_extent(image_width, self.scale),
            height: scaled_extent(image_height, self.scale),
        }
    }

    /// One frame: a step of easing with the configured smoothing factor,
    /// then, where the size of the viewport is known, the centring policy,
    /// and last the rectangle to draw the image into.
    pub fn next_frame(
        &mut self,
        cfg: &Config,
        image_width: u32,
        image_height: u32,
        viewport: Option<(u32, u32)>,
    ) -> (r: DestRect)
        ensures
            final(self)@ == match viewport {
                Some(size) => old(self)@.advance(cfg@.smoothing_factor).clamp_to_bounds(
                    image_width as int,
                    image_height as int,
                    size.0 as int,
                    size.1 as int,
                ),
                None => old(self)@.advance(cfg@.smoothing_factor),
            },
            r == final(self)@.dest_rect(image_width as int, image_height as int),
            final(self)@.wf(),
    {
        self.advance(cfg.smoothing_factor());
        match viewport {
            Some(size) => {
                self.clamp_to_bounds(image_width, image_height, size.0, size.1);
            },
            None => {},
        }
        self.dest_rect(image_width, image_height)
    }

    /// The current draw offset, in millionths of a pixel.
    pub fn position(&self) -> (r: (i64, i64))
        ensures
            r.0 == self@.position_x,
            r.1 == self@.position_y,
    {
        (self.position_x, self.position_y)
    }

    /// The draw offset that the view is easing toward.
    pub fn target_position(&self) -> (r: (i64, i64))
        ensures
            r.0 == self@.target_x,
            r.1 == self@.target_y,
    {
        (self.target_x, self.target_y)
    }

    /// The current scale, in millionths.
    pub fn scale(&self) -> (r: i64)
        ensures
            r == self@.scale,
    {
        self.scale
    }

    /// The scale that the view is easing toward.
    pub fn target_scale(&self) -> (r: i64)
        ensures
            r == self@.target_scale,
    {
        self.target_scale
    }

    /// Whether a drag is in progress.
    pub fn is_dragging(&self) -> (r: bool)
        ensures
            r == self@.dragging,
    {
        self.dragging
    }

    /// The cursor less the image position at the start of the last drag.
    pub fn drag_anchor(&self) -> (r: (i64, i64))
        ensures
            r.0 == self@.anchor_x,
            r.1 == self@.anchor_y,
    {
        (self.anchor_x, self.anchor_y)
    }

    /// The last known cursor position, in whole pixels.
    pub fn cursor(&self) -> (r: (i32, i32))
        ensures
            r.0 == self@.cursor_x,
            r.1 == self@.cursor_y,
    {
        (self.cursor_x, self.cursor_y)
    }
}

} // verus!
