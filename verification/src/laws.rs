//! What holds of the viewport engine over runs of operations, stated over
//! the model that the contracts of its functions speak of.

use vstd::prelude::*;
use crate::config::ConfigModel;
use crate::fixed::{
    ease, in_coord_range, lemma_ease_step, lemma_round_div_bounds, lemma_round_div_unique,
    magnitude, round_div, ONE,
};
use crate::dispatch::{applied, Command};
use crate::viewport::{center, fitted, pivot_point, pivoted, stepped_scale, ViewportModel};

verus! {

/// A product divided by one of its factors gives back the other, with
/// nothing to round.
pub proof fn lemma_round_div_exact(q: int, d: int)
    requires
        d > 0,
    ensures
        round_div(q * d, d) == q,
{
    assert(2 * (q * d) == 2 * d * q) by (nonlinear_arith);
    lemma_round_div_unique(q * d, d, q);
}

/// Stepping a positive scale up by a factor above one never lowers it, and
/// stepping the result down by the same factor gives back the scale exactly.
pub proof fn lemma_scale_round_trip(scale: int, factor: int)
    requires
        scale > 0,
        factor > ONE,
    ensures
        stepped_scale(scale, factor, 1) >= scale,
        stepped_scale(stepped_scale(scale, factor, 1), factor, -1) == scale,
{
    let up = round_div(scale * factor, ONE as int);
    lemma_round_div_bounds(scale * factor, ONE as int);
    assert(scale * factor >= scale * ONE) by (nonlinear_arith)
        requires
            scale > 0,
            factor > ONE,
    ;
    assert(2 * factor * scale == 2 * (scale * factor)) by (nonlinear_arith);
    lemma_round_div_unique(up * ONE, factor, scale);
}

/// Moving an origin for a scale change from `low` up to `high` about a
/// cursor, and then for the change back, returns the origin exactly, as
/// long as the point in between is not cut off by the coordinate range.
pub proof fn lemma_pivot_round_trip(cursor: int, origin: int, low: int, high: int)
    requires
        0 < low <= high,
        in_coord_range(origin),
        in_coord_range(pivot_point(cursor, origin, low, high)),
    ensures
        pivoted(cursor, pivoted(cursor, origin, low, high), high, low) == origin,
{
    let d = cursor * ONE - origin;
    let w = round_div(d * high, low);
    lemma_round_div_bounds(d * high, low);
    if low == high {
        lemma_round_div_exact(d, low);
    }
    assert(2 * high * d == 2 * (d * high)) by (nonlinear_arith);
    assert(2 * low * w == 2 * (w * low)) by (nonlinear_arith);
    lemma_round_div_unique(w * low, high, d);
}

impl ViewportModel {
    /// Whether a zoom step inward from this state is neither held back by
    /// the upper scale bound nor cut off by the coordinate range.
    pub open spec fn zoom_in_is_exact(self, cfg: ConfigModel) -> bool {
        let up = stepped_scale(self.target_scale, cfg.zoom_factor, 1);
        &&& cfg.scale_min <= self.target_scale
        &&& up <= cfg.scale_max
        &&& in_coord_range(pivot_point(self.cursor_x, self.target_x, self.target_scale, up))
        &&& in_coord_range(pivot_point(self.cursor_y, self.target_y, self.target_scale, up))
    }

    /// Whether the current and the target scale both lie within the
    /// configured bounds.
    pub open spec fn scales_within(self, cfg: ConfigModel) -> bool {
        &&& cfg.scale_min <= self.scale <= cfg.scale_max
        &&& cfg.scale_min <= self.target_scale <= cfg.scale_max
    }

    /// The sum of the distances that scale and position still have to go.
    pub open spec fn remaining(self) -> int {
        magnitude(self.target_scale - self.scale) + magnitude(self.target_x - self.position_x)
            + magnitude(self.target_y - self.position_y)
    }

    /// The state after `n` frames of easing with the same factor.
    pub open spec fn advance_times(self, factor: int, n: nat) -> ViewportModel
        decreases n,
    {
        if n == 0 {
            self
        } else {
            self.advance(factor).advance_times(factor, (n - 1) as nat)
        }
    }

    /// The state after one zoom step for each entry of `directions`, in
    /// order.
    pub open spec fn zoom_all(self, cfg: ConfigModel, directions: Seq<int>) -> ViewportModel
        decreases directions.len(),
    {
        if directions.len() == 0 {
            self
        } else {
            self.zoom_all(cfg, directions.drop_last()).on_zoom(cfg, directions.last())
        }
    }
}

/// `n` times the same direction.
pub open spec fn repeated(direction: int, n: nat) -> Seq<int> {
    Seq::new(n, |i: int| direction)
}

/// Zoom steps for a run of directions are the steps for its first part
/// followed by the steps for the rest.
pub proof fn lemma_zoom_all_split(
    s: ViewportModel,
    cfg: ConfigModel,
    first: Seq<int>,
    rest: Seq<int>,
)
    ensures
        s.zoom_all(cfg, first + rest) == s.zoom_all(cfg, first).zoom_all(cfg, rest),
    decreases rest.len(),
{
    if rest.len() == 0 {
        assert(first + rest =~= first);
    } else {
        assert((first + rest).drop_last() =~= first + rest.drop_last());
        assert((first + rest).last() == rest.last());
        lemma_zoom_all_split(s, cfg, first, rest.drop_last());
    }
}

/// A zoom step keeps a well-formed state well formed.
pub proof fn lemma_zoom_keeps_wf(s: ViewportModel, cfg: ConfigModel, direction: int)
    requires
        s.wf(),
        cfg.wf(),
    ensures
        s.on_zoom(cfg, direction).wf(),
{
}

/// A zoom step in followed by a zoom step out, with the cursor where it
/// was, restores the state: the target scale and the target position are
/// exactly what they were. This holds wherever the step in is neither held
/// back by the upper scale bound nor cut off by the coordinate range.
pub proof fn law_zoom_round_trip(s: ViewportModel, cfg: ConfigModel)
    requires
        s.wf(),
        cfg.wf(),
        s.zoom_in_is_exact(cfg),
    ensures
        s.on_zoom(cfg, 1).on_zoom(cfg, -1) == s,
{
    let up = stepped_scale(s.target_scale, cfg.zoom_factor, 1);
    lemma_scale_round_trip(s.target_scale, cfg.zoom_factor);
    lemma_pivot_round_trip(s.cursor_x, s.target_x, s.target_scale, up);
    lemma_pivot_round_trip(s.cursor_y, s.target_y, s.target_scale, up);
}

/// Any number of zoom steps in followed by as many steps out, with the
/// cursor where it was, restores the state, as long as none of the steps in
/// is held back by the upper scale bound or cut off by the coordinate range.
pub proof fn law_zoom_run_round_trip(s: ViewportModel, cfg: ConfigModel, n: nat)
    requires
        s.wf(),
        cfg.wf(),
        forall|k: nat| k < n ==> (#[trigger] s.zoom_all(cfg, repeated(1, k))).zoom_in_is_exact(cfg),
    ensures
        s.zoom_all(cfg, repeated(1, n)).wf(),
        s.zoom_all(cfg, repeated(1, n)).zoom_all(cfg, repeated(-1, n)) == s,
    decreases n,
{
    if n > 0 {
        let m = (n - 1) as nat;
        let before = s.zoom_all(cfg, repeated(1, m));
        law_zoom_run_round_trip(s, cfg, m);
        assert(repeated(1, n).drop_last() =~= repeated(1, m));
        lemma_zoom_keeps_wf(before, cfg, 1);
        law_zoom_round_trip(before, cfg);
        let single = seq![-1int];
        assert(repeated(-1, n) =~= single + repeated(-1, m));
        lemma_zoom_all_split(before.on_zoom(cfg, 1), cfg, single, repeated(-1, m));
        assert(single.drop_last() =~= Seq::<int>::empty());
        assert(before.on_zoom(cfg, 1).zoom_all(cfg, single) == before.on_zoom(cfg, 1).zoom_all(
            cfg,
            single.drop_last(),
        ).on_zoom(cfg, single.last()));
    }
}

/// With the smoothing factor one, a single frame of easing puts position
/// and scale on their targets.
pub proof fn law_full_smoothing_snaps(s: ViewportModel)
    ensures
        s.advance(ONE as int).settled(),
        s.advance(ONE as int).position_x == s.target_x,
        s.advance(ONE as int).position_y == s.target_y,
        s.advance(ONE as int).scale == s.target_scale,
{
    lemma_ease_step(s.target_scale - s.scale, ONE as int);
    lemma_ease_step(s.target_x - s.position_x, ONE as int);
    lemma_ease_step(s.target_y - s.position_y, ONE as int);
}

/// One easing step with a factor above zero and at most one brings a value
/// that has not arrived strictly closer to its target, never past it, and
/// leaves a value that has arrived in place.
pub proof fn law_ease_approaches(value: int, target: int, factor: int)
    requires
        0 < factor <= ONE,
    ensures
        value != target ==> magnitude(target - ease(value, target, factor)) < magnitude(
            target - value,
        ),
        value == target ==> ease(value, target, factor) == target,
        value <= target ==> value <= ease(value, target, factor) <= target,
        value >= target ==> value >= ease(value, target, factor) >= target,
{
    lemma_ease_step(target - value, factor);
}

/// A frame of easing leaves the targets alone and strictly shrinks the
/// distance that is left, unless the view has already arrived.
pub proof fn law_advance_approaches(s: ViewportModel, factor: int)
    requires
        0 < factor <= ONE,
    ensures
        s.advance(factor).target_x == s.target_x,
        s.advance(factor).target_y == s.target_y,
        s.advance(factor).target_scale == s.target_scale,
        !s.settled() ==> s.advance(factor).remaining() < s.remaining(),
        s.settled() ==> s.advance(factor) == s,
        s.wf() ==> s.advance(factor).wf(),
{
    law_ease_approaches(s.scale, s.target_scale, factor);
    law_ease_approaches(s.position_x, s.target_x, factor);
    law_ease_approaches(s.position_y, s.target_y, factor);
}

/// Easing converges: after as many frames as there are units of distance
/// left, the view has arrived.
pub proof fn law_advance_arrives(s: ViewportModel, factor: int, n: nat)
    requires
        0 < factor <= ONE,
        n >= s.remaining(),
    ensures
        s.advance_times(factor, n).settled(),
    decreases n,
{
    law_advance_approaches(s, factor);
    if n == 0 {
    } else {
        law_advance_arrives(s.advance(factor), factor, (n - 1) as nat);
    }
}

/// After any run of one or more zoom steps, whatever their directions, the
/// target scale lies within the configured bounds.
pub proof fn law_zoom_stays_in_bounds(s: ViewportModel, cfg: ConfigModel, directions: Seq<int>)
    requires
        cfg.scale_min <= cfg.scale_max,
        directions.len() > 0,
    ensures
        cfg.scale_min <= s.zoom_all(cfg, directions).target_scale <= cfg.scale_max,
{
}

/// Where the configured bounds admit the scale one, both scales stay within
/// them through every command, every frame of easing and every centring.
pub proof fn law_scales_stay_within(
    s: ViewportModel,
    cfg: ConfigModel,
    image_width: int,
    image_height: int,
    command: Command,
    factor: int,
)
    requires
        cfg.scale_min <= ONE <= cfg.scale_max,
        s.scales_within(cfg),
        0 < factor <= ONE,
    ensures
        ViewportModel::initial().scales_within(cfg),
        applied(s, cfg, image_width, image_height, command).scales_within(cfg),
        s.advance(factor).scales_within(cfg),
        forall|vw: int, vh: int| #[trigger]
            s.clamp_to_bounds(image_width, image_height, vw, vh).scales_within(cfg),
{
    law_ease_approaches(s.scale, s.target_scale, factor);
}

/// No command but a reset of the view touches the position or the scale
/// that the image is drawn at: they change by easing and by centring only.
pub proof fn law_commands_leave_the_drawn_view(
    s: ViewportModel,
    cfg: ConfigModel,
    image_width: int,
    image_height: int,
    command: Command,
)
    requires
        command != Command::ResetView,
    ensures
        applied(s, cfg, image_width, image_height, command).position_x == s.position_x,
        applied(s, cfg, image_width, image_height, command).position_y == s.position_y,
        applied(s, cfg, image_width, image_height, command).scale == s.scale,
{
}

/// Every command, every frame of easing and every centring keeps a
/// well-formed state well formed.
pub proof fn law_operations_keep_wf(
    s: ViewportModel,
    cfg: ConfigModel,
    image_width: int,
    image_height: int,
    command: Command,
    factor: int,
)
    requires
        s.wf(),
        cfg.wf(),
        0 <= image_width,
        0 <= image_height,
        0 < factor <= ONE,
    ensures
        ViewportModel::initial().wf(),
        applied(s, cfg, image_width, image_height, command).wf(),
        s.advance(factor).wf(),
        forall|vw: int, vh: int|
            0 <= vw <= u32::MAX && 0 <= vh <= u32::MAX ==> (#[trigger] s.clamp_to_bounds(
                image_width,
                image_height,
                vw,
                vh,
            )).wf(),
{
    law_advance_approaches(s, factor);
    assert forall|vw: int, vh: int| 0 <= vw <= u32::MAX && 0 <= vh <= u32::MAX implies (
    #[trigger] s.clamp_to_bounds(image_width, image_height, vw, vh)).wf() by {
        lemma_fitted_in_range(s.position_x, image_width, s.scale, vw);
        lemma_fitted_in_range(s.position_y, image_height, s.scale, vh);
    }
}

/// Centring leaves the origin within the coordinate range: where it moves
/// the origin, it puts it above zero and at most half the viewport in.
pub proof fn lemma_fitted_in_range(origin: int, extent: int, scale: int, viewport: int)
    requires
        in_coord_range(origin),
        0 <= extent,
        0 < scale,
        0 <= viewport <= u32::MAX,
    ensures
        in_coord_range(fitted(origin, extent, scale, viewport)),
        extent * scale < viewport * ONE ==> 0 < 2 * fitted(origin, extent, scale, viewport)
            <= viewport * ONE + 1,
{
    assert(extent * scale >= 0) by (nonlinear_arith)
        requires
            0 <= extent,
            0 < scale,
    ;
    if extent * scale < viewport * ONE {
        lemma_round_div_bounds(viewport * ONE - extent * scale, 2);
    }
}

/// Ending a drag twice is ending it once.
pub proof fn law_end_drag_is_idempotent(s: ViewportModel)
    ensures
        s.end_drag().end_drag() == s.end_drag(),
        !s.end_drag().dragging,
{
}

/// While a drag lasts, the target position is the position at which the
/// drag began, moved by as far as the cursor has travelled since. This
/// holds wherever that point lies within the coordinate range.
pub proof fn law_drag_follows_the_cursor(s: ViewportModel, x0: int, y0: int, x1: int, y1: int)
    requires
        in_coord_range(s.position_x + (x1 - x0) * ONE),
        in_coord_range(s.position_y + (y1 - y0) * ONE),
    ensures
        s.begin_drag(x0, y0).on_motion(x1, y1).target_x == s.position_x + (x1 - x0) * ONE,
        s.begin_drag(x0, y0).on_motion(x1, y1).target_y == s.position_y + (y1 - y0) * ONE,
        s.begin_drag(x0, y0).on_motion(x1, y1).position_x == s.position_x,
        s.begin_drag(x0, y0).on_motion(x1, y1).position_y == s.position_y,
{
}

/// A zoom step keeps the image point under the cursor in place: measured
/// from the new origin at the new scale, and from the old origin at the old
/// scale, the cursor lies over the same point of the image, to within half
/// a millionth of a screen pixel. This holds wherever the new origin is not
/// cut off by the coordinate range.
pub proof fn law_zoom_keeps_the_pivot(s: ViewportModel, cfg: ConfigModel, direction: int)
    requires
        s.wf(),
        cfg.wf(),
        in_coord_range(
            pivot_point(s.cursor_x, s.target_x, s.target_scale, s.zoomed_scale(cfg, direction)),
        ),
        in_coord_range(
            pivot_point(s.cursor_y, s.target_y, s.target_scale, s.zoomed_scale(cfg, direction)),
        ),
    ensures
        ({
            let r = s.on_zoom(cfg, direction);
            &&& 2 * magnitude(
                (s.cursor_x * ONE - r.target_x) * s.target_scale - (s.cursor_x * ONE - s.target_x)
                    * r.target_scale,
            ) <= s.target_scale
            &&& 2 * magnitude(
                (s.cursor_y * ONE - r.target_y) * s.target_scale - (s.cursor_y * ONE - s.target_y)
                    * r.target_scale,
            ) <= s.target_scale
        }),
{
    let scale = s.zoomed_scale(cfg, direction);
    lemma_pivot_error(s.cursor_x, s.target_x, s.target_scale, scale);
    lemma_pivot_error(s.cursor_y, s.target_y, s.target_scale, scale);
}

/// The rounding in `pivot_point` is at most half a unit of the old scale.
pub proof fn lemma_pivot_error(cursor: int, origin: int, old_scale: int, new_scale: int)
    requires
        old_scale > 0,
    ensures
        2 * magnitude(
            (cursor * ONE - pivot_point(cursor, origin, old_scale, new_scale)) * old_scale - (cursor
                * ONE - origin) * new_scale,
        ) <= old_scale,
{
    let d = cursor * ONE - origin;
    let w = round_div(d * new_scale, old_scale);
    lemma_round_div_bounds(d * new_scale, old_scale);
    assert(2 * old_scale * w == 2 * (w * old_scale)) by (nonlinear_arith);
}

/// Resetting the scale keeps the centre of the image where it is drawn: the
/// centre that the view heads for afterwards is the centre drawn before the
/// call, and for a view at rest also the centre it was heading for. This
/// holds wherever the new target position is not cut off by the coordinate
/// range.
pub proof fn law_reset_scale_keeps_center(s: ViewportModel, width: int, height: int)
    requires
        in_coord_range(center(s.position_x, width, s.scale) - round_div(width * ONE, 2)),
        in_coord_range(center(s.position_y, height, s.scale) - round_div(height * ONE, 2)),
    ensures
        ({
            let r = s.reset_scale(width, height);
            &&& center(r.target_x, width, r.target_scale) == center(s.position_x, width, s.scale)
            &&& center(r.target_y, height, r.target_scale) == center(
                s.position_y,
                height,
                s.scale,
            )
            &&& s.settled() ==> center(r.target_x, width, r.target_scale) == center(
                s.target_x,
                width,
                s.target_scale,
            )
            &&& s.settled() ==> center(r.target_y, height, r.target_scale) == center(
                s.target_y,
                height,
                s.target_scale,
            )
        }),
{
}

} // verus!
