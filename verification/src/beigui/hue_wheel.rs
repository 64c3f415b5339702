//! The zoom, shapes and proximity measures of a hue wheel.
use core::cmp::Ordering;
use vstd::prelude::*;
use vstd::std_specs::cmp::PartialOrdSpecImpl;

use crate::attributes::Value;
use crate::beigui::{
    diamond_corners, fdrn_product, line_requested, plus_sign_strokes, polygon_requested, pt, room_for,
    square_corners, DrawShapes, Point,
};
use crate::fdrn::{abs_int, scale, FDRNumber, Prop, UFDRNumber};
use crate::hcv::{grey_of_sum, spec_best_foreground, spec_hcv_chroma, HCV};
use crate::notation::chars_of;
use crate::text_order::{lemma_text_less_irreflexive, lemma_text_less_transitive, text_less, text_order};
use crate::{ColourBasics, ScalarAttribute};

verus! {

/// The magnification of a hue wheel: from one to ten, in steps of one fortieth.
#[derive(Debug)]
pub struct Zoom {
    scale: UFDRNumber,
}

/// The step by which the zoom changes.
pub open spec fn zoom_delta() -> int {
    scale() * 25 / 1000
}

impl View for Zoom {
    type V = int;

    closed spec fn view(&self) -> int {
        self.scale.0 as int
    }
}

impl Zoom {
    #[verifier::type_invariant]
    spec fn zoom_ok(self) -> bool {
        scale() <= self.scale.0 <= 10 * scale()
    }

    /// Zooms out one step, not below one.
    pub fn decr(&mut self)
        ensures
            final(self)@ == (if old(self)@ - zoom_delta() > scale() {
                old(self)@ - zoom_delta()
            } else {
                scale()
            }),
    {
        proof {
            use_type_invariant(&*self);
        }
        let delta = UFDRNumber(u64::MAX as u128 * 25 / 1000);
        let one = UFDRNumber::one();
        let lowered = self.scale.sub_ufdr(delta);
        self.scale = if lowered.0 > one.0 {
            lowered
        } else {
            one
        };
    }

    /// Zooms in one step, not above ten.
    pub fn incr(&mut self)
        ensures
            final(self)@ == (if old(self)@ + zoom_delta() < 10 * scale() {
                old(self)@ + zoom_delta()
            } else {
                10 * scale()
            }),
    {
        proof {
            use_type_invariant(&*self);
        }
        let delta = UFDRNumber(u64::MAX as u128 * 25 / 1000);
        let max = UFDRNumber(u64::MAX as u128 * 10);
        let raised = self.scale.add_ufdr(delta);
        self.scale = if raised.0 < max.0 {
            raised
        } else {
            max
        };
    }

    /// The magnification.
    pub fn scale(&self) -> (res: UFDRNumber)
        ensures
            res.0 == self@,
            scale() <= res.0 <= 10 * scale(),
    {
        proof {
            use_type_invariant(self);
        }
        self.scale
    }
}

impl Default for Zoom {
    /// No magnification.
    fn default() -> (res: Zoom)
        ensures
            res@ == scale(),
    {
        Zoom { scale: UFDRNumber::one() }
    }
}

/// The shapes that stand for colours on a hue wheel.
#[derive(Clone, Copy, Debug, PartialEq, Eq, Structural, PartialOrd, Ord)]
pub enum Shape {
    Circle,
    Diamond,
    Square,
    BackSight,
}

/// How near a point is to a shape: enclosed by it, or not, at a distance.
#[derive(Clone, Copy, Debug, PartialEq, Eq, Structural, Ord)]
pub enum Proximity {
    Enclosed(UFDRNumber),
    NotEnclosed(UFDRNumber),
}

/// The order of proximities: enclosed before not enclosed, then by distance.
pub open spec fn proximity_order(a: Proximity, b: Proximity) -> Ordering {
    match (a, b) {
        (Proximity::Enclosed(_), Proximity::NotEnclosed(_)) => Ordering::Less,
        (Proximity::NotEnclosed(_), Proximity::Enclosed(_)) => Ordering::Greater,
        (Proximity::Enclosed(x), Proximity::Enclosed(y)) | (
            Proximity::NotEnclosed(x),
            Proximity::NotEnclosed(y),
        ) => if x.0 < y.0 {
            Ordering::Less
        } else if x.0 > y.0 {
            Ordering::Greater
        } else {
            Ordering::Equal
        },
    }
}

/// The order of two distances.
fn distance_order(x: UFDRNumber, y: UFDRNumber) -> (res: Ordering)
    ensures
        res == (if x.0 < y.0 {
            Ordering::Less
        } else if x.0 > y.0 {
            Ordering::Greater
        } else {
            Ordering::Equal
        }),
{
    if x.0 < y.0 {
        Ordering::Less
    } else if x.0 > y.0 {
        Ordering::Greater
    } else {
        Ordering::Equal
    }
}

impl PartialOrd for Proximity {
    /// Enclosed before not enclosed, then by distance.
    fn partial_cmp(&self, other: &Self) -> (res: Option<Ordering>) {
        match (self, other) {
            (Proximity::Enclosed(_), Proximity::NotEnclosed(_)) => Some(Ordering::Less),
            (Proximity::NotEnclosed(_), Proximity::Enclosed(_)) => Some(Ordering::Greater),
            (Proximity::Enclosed(x), Proximity::Enclosed(y)) => Some(distance_order(*x, *y)),
            (Proximity::NotEnclosed(x), Proximity::NotEnclosed(y)) => Some(distance_order(*x, *y)),
        }
    }
}

impl PartialOrdSpecImpl for Proximity {
    open spec fn obeys_partial_cmp_spec() -> bool {
        true
    }

    open spec fn partial_cmp_spec(&self, other: &Self) -> Option<Ordering> {
        Some(proximity_order(*self, *other))
    }
}

/// The measures of the shapes drawn on a hue wheel.
pub trait ShapeConsts: Sized {
    fn sin_45() -> Self;

    fn shape_side() -> Self;

    fn shape_half_side() -> Self;

    fn shape_radius() -> Self;
}

impl ShapeConsts for UFDRNumber {
    /// Half the square root of two.
    fn sin_45() -> (res: UFDRNumber)
        ensures
            res.0 == 26087635650665564423int / 2,
    {
        UFDRNumber(UFDRNumber::sqrt_2().0 / 2)
    }

    /// Six hundredths.
    fn shape_side() -> (res: UFDRNumber)
        ensures
            res.0 == scale() * 6 / 100,
    {
        UFDRNumber(u64::MAX as u128 * 6 / 100)
    }

    /// Half the side.
    fn shape_half_side() -> (res: UFDRNumber)
        ensures
            res.0 == scale() * 6 / 100 / 2,
    {
        UFDRNumber(UFDRNumber::shape_side().0 / 2)
    }

    /// The half side.
    fn shape_radius() -> (res: UFDRNumber)
        ensures
            res.0 == scale() * 6 / 100 / 2,
    {
        UFDRNumber::shape_half_side()
    }
}

impl ShapeConsts for FDRNumber {
    /// Half the square root of two.
    fn sin_45() -> (res: FDRNumber)
        ensures
            res.0 == 26087635650665564423int / 2,
    {
        FDRNumber(FDRNumber::sqrt_2().0 / 2)
    }

    /// Six hundredths.
    fn shape_side() -> (res: FDRNumber)
        ensures
            res.0 == scale() * 6 / 100,
    {
        FDRNumber(u64::MAX as i128 * 6 / 100)
    }

    /// Half the side.
    fn shape_half_side() -> (res: FDRNumber)
        ensures
            res.0 == scale() * 6 / 100 / 2,
    {
        FDRNumber(FDRNumber::shape_side().0 / 2)
    }

    /// The half side.
    fn shape_radius() -> (res: FDRNumber)
        ensures
            res.0 == scale() * 6 / 100 / 2,
    {
        FDRNumber::shape_half_side()
    }
}

/// Where a shape stands on an unzoomed wheel before its scalar attribute scales it:
/// on the unit circle at its hue, or, for a grey, to the left of the wheel at a
/// height that its value gives.
#[derive(Clone, Copy, Debug, PartialEq, Eq, Structural)]
pub enum CachedPoint {
    Hued(Point),
    Grey(Point),
}

/// How far to the left of the wheel's centre greys stand: 1.05 units, as the
/// floating point conversion gives it.
pub open spec fn grey_x() -> int {
    -19369081277395030016
}

/// Whether a point lies within the unit square about the centre.
pub open spec fn within_unit(p: Point) -> bool {
    abs_int(p.x.0 as int) <= scale() && abs_int(p.y.0 as int) <= scale()
}

/// What a coloured shape holds.
pub struct ShapeView {
    pub id: Seq<char>,
    pub colour: HCV,
    pub cached_point: CachedPoint,
    pub tooltip_text: Seq<char>,
    pub shape: Shape,
}

/// A colour drawn on a hue wheel as a shape, known by its id.
#[derive(Debug)]
pub struct ColouredShape {
    id: String,
    colour: HCV,
    cached_point: CachedPoint,
    tooltip_text: String,
    shape: Shape,
}

impl View for ColouredShape {
    type V = ShapeView;

    closed spec fn view(&self) -> ShapeView {
        ShapeView {
            id: self.id@,
            colour: self.colour,
            cached_point: self.cached_point,
            tooltip_text: self.tooltip_text@,
            shape: self.shape,
        }
    }
}

/// The shape's position before zooming: its cached point, scaled by the scalar
/// attribute for a colour with a hue.
pub open spec fn unzoomed_xy(v: ShapeView, attr: ScalarAttribute) -> Point {
    match v.cached_point {
        CachedPoint::Hued(p) => {
            let f = HCV::spec_scalar_attribute(v.colour, attr).0 as int;
            pt(fdrn_product(p.x.0 as int, f), fdrn_product(p.y.0 as int, f))
        },
        CachedPoint::Grey(p) => p,
    }
}

/// The shape's position on a wheel zoomed by `zoom`.
pub open spec fn shape_xy(v: ShapeView, attr: ScalarAttribute, zoom: int) -> Point {
    let u = unzoomed_xy(v, attr);
    pt(fdrn_product(u.x.0 as int, zoom), fdrn_product(u.y.0 as int, zoom))
}

/// The radius of the circles drawn for shapes.
pub open spec fn shape_radius_len() -> UFDRNumber {
    UFDRNumber((scale() * 6 / 100 / 2) as u128)
}

/// The side of the diamonds, squares and plus signs drawn for shapes.
pub open spec fn shape_side_len() -> UFDRNumber {
    UFDRNumber((scale() * 6 / 100) as u128)
}

/// The line width of the outlines of shapes and of the rings: a hundredth, as the
/// floating point conversion gives it.
pub open spec fn outline_width() -> UFDRNumber {
    UFDRNumber(184467440737095520)
}

/// Whether the surface has been asked to draw the shape at the position: a filled
/// and an outlined circle, diamond or square, and for a back sight a plus sign over
/// the circles.
pub open spec fn shape_requested<D: DrawShapes + ?Sized>(drawer: &D, shape: Shape, xy: Point) -> bool {
    let half_side = shape_side_len().0 as int / 2;
    match shape {
        Shape::Circle => drawer.circle_drawn(xy, shape_radius_len(), true) && drawer.circle_drawn(
            xy,
            shape_radius_len(),
            false,
        ),
        Shape::Diamond => polygon_requested(drawer, diamond_corners(xy, half_side), true)
            && polygon_requested(drawer, diamond_corners(xy, half_side), false),
        Shape::Square => polygon_requested(drawer, square_corners(xy, half_side), true)
            && polygon_requested(drawer, square_corners(xy, half_side), false),
        Shape::BackSight => drawer.circle_drawn(xy, shape_radius_len(), true) && drawer.circle_drawn(
            xy,
            shape_radius_len(),
            false,
        ) && line_requested(drawer, plus_sign_strokes(xy, half_side).0) && line_requested(
            drawer,
            plus_sign_strokes(xy, half_side).1,
        ),
    }
}

/// The radius of ring `n` of `num_rings` on a wheel with the magnification `zoom`.
pub open spec fn ring_radius(n: int, num_rings: int, zoom: int) -> UFDRNumber {
    UFDRNumber((((scale() * n) / num_rings) * zoom / scale()) as u128)
}

/// The proximity of a point at the offset and distance from a shape's position:
/// enclosed where it lies inside the shape.
pub open spec fn proximity_of(shape: Shape, dx: int, dy: int, distance: UFDRNumber) -> Proximity {
    let half_side = scale() * 6 / 100 / 2;
    let sin_45 = 26087635650665564423int / 2;
    let enclosed = match shape {
        Shape::Circle | Shape::BackSight => distance.0 < half_side,
        Shape::Square => abs_int(dx) < half_side && abs_int(dy) < half_side,
        Shape::Diamond => abs_int(fdrn_product(dx - dy, sin_45)) < half_side && abs_int(
            fdrn_product(dx + dy, sin_45),
        ) < half_side,
    };
    if enclosed {
        Proximity::Enclosed(distance)
    } else {
        Proximity::NotEnclosed(distance)
    }
}

impl ColouredShape {
    #[verifier::type_invariant]
    spec fn shape_ok(self) -> bool {
        &&& self.colour.sum.0 <= 3 * scale()
        &&& match self.cached_point {
            CachedPoint::Hued(p) => within_unit(p),
            CachedPoint::Grey(p) => p.x.0 == grey_x() && abs_int(p.y.0 as int) <= scale(),
        }
    }

    /// A shape for the colour, with the point on the unit circle at its hue (which a
    /// grey does not use).
    pub fn new<C: ColourBasics>(colour: &C, id: &str, tooltip_text: &str, shape: Shape, hue_point: Point) -> (res: ColouredShape)
        requires
            colour.spec_hcv().sum.0 <= 3 * scale(),
            within_unit(hue_point),
        ensures
            res@.id == id@,
            res@.colour == colour.spec_hcv(),
            res@.tooltip_text == tooltip_text@,
            res@.shape == shape,
            res@.cached_point == (match colour.spec_hcv().hue {
                Some(_) => CachedPoint::Hued(hue_point),
                None => CachedPoint::Grey(
                    pt(grey_x(), scale() - 2 * (colour.spec_hcv().sum.0 / 3)),
                ),
            }),
    {
        let hcv = colour.hcv();
        let cached_point = match hcv.hue {
            Some(_) => CachedPoint::Hued(hue_point),
            None => {
                let value = hcv.value();
                let twice = FDRNumber(value.0 as i128).mul_i32(2);
                CachedPoint::Grey(
                    Point {
                        x: FDRNumber(-19369081277395030016),
                        y: FDRNumber::one().sub_fdrn(twice),
                    },
                )
            },
        };
        ColouredShape {
            id: id.to_owned(),
            colour: hcv,
            cached_point,
            tooltip_text: tooltip_text.to_owned(),
            shape,
        }
    }

    /// The shape's id.
    pub fn id(&self) -> (res: &str)
        ensures
            res@ == self@.id,
    {
        self.id.as_str()
    }

    /// The shape's tooltip.
    pub fn tooltip_text(&self) -> (res: &str)
        ensures
            res@ == self@.tooltip_text,
    {
        self.tooltip_text.as_str()
    }

    /// The shape's position on a wheel with the zoom.
    pub fn xy(&self, scalar_attribute: ScalarAttribute, zoom: &Zoom) -> (res: Point)
        ensures
            res == shape_xy(self@, scalar_attribute, zoom@),
            abs_int(res.x.0 as int) <= 20 * scale(),
            abs_int(res.y.0 as int) <= 20 * scale(),
    {
        proof {
            use_type_invariant(self);
        }
        let z = zoom.scale();
        let unzoomed = match self.cached_point {
            CachedPoint::Hued(point) => {
                let f = self.colour.scalar_attribute(scalar_attribute);
                proof {
                    lemma_product_bound(point.x.0 as int, scale(), f.0 as int, scale());
                    lemma_product_bound(point.y.0 as int, scale(), f.0 as int, scale());
                }
                point * UFDRNumber::from(f)
            },
            CachedPoint::Grey(point) => point,
        };
        proof {
            lemma_product_bound(unzoomed.x.0 as int, 2 * scale(), z.0 as int, 10 * scale());
            lemma_product_bound(unzoomed.y.0 as int, 2 * scale(), z.0 as int, 10 * scale());
        }
        unzoomed * z
    }

    /// The offset of the shape's position from a point on a wheel with the zoom.
    pub fn delta_from(&self, point: Point, scalar_attribute: ScalarAttribute, zoom: &Zoom) -> (res: Point)
        requires
            within_range(point),
        ensures
            res == ({
                let xy = shape_xy(self@, scalar_attribute, zoom@);
                pt(xy.x.0 - point.x.0, xy.y.0 - point.y.0)
            }),
            res.x.0 == shape_xy(self@, scalar_attribute, zoom@).x.0 - point.x.0,
            res.y.0 == shape_xy(self@, scalar_attribute, zoom@).y.0 - point.y.0,
            within_delta_range(res),
    {
        let xy = self.xy(scalar_attribute, zoom);
        xy - point
    }

    /// How near a point is to the shape, given its offset from the shape's position
    /// and the distance (the length of the offset).
    pub fn proximity_for(&self, delta: Point, distance: UFDRNumber) -> (res: Proximity)
        requires
            within_delta_range(delta),
        ensures
            res == proximity_of(self@.shape, delta.x.0 as int, delta.y.0 as int, distance),
    {
        let half_side = FDRNumber::shape_half_side();
        match self.shape {
            Shape::Circle | Shape::BackSight => {
                if distance.0 < UFDRNumber::shape_radius().0 {
                    Proximity::Enclosed(distance)
                } else {
                    Proximity::NotEnclosed(distance)
                }
            },
            Shape::Square => {
                let x = delta.x.abs();
                let y = delta.y.abs();
                if x.0 < half_side.0 && y.0 < half_side.0 {
                    Proximity::Enclosed(distance)
                } else {
                    Proximity::NotEnclosed(distance)
                }
            },
            Shape::Diamond => {
                let sin_45 = FDRNumber::sin_45();
                let diff = delta.x.sub_fdrn(delta.y);
                let sum = delta.x.add_fdrn(delta.y);
                proof {
                    lemma_product_bound(diff.0 as int, 2 * delta_bound(), sin_45.0 as int, scale());
                    lemma_product_bound(sum.0 as int, 2 * delta_bound(), sin_45.0 as int, scale());
                }
                let x = diff.mul_fdrn(sin_45).abs();
                let y = sum.mul_fdrn(sin_45).abs();
                if x.0 < half_side.0 && y.0 < half_side.0 {
                    Proximity::Enclosed(distance)
                } else {
                    Proximity::NotEnclosed(distance)
                }
            },
        }
    }

    /// Draws the shape in its colour, outlined in the colour that shows best on it,
    /// at its position on a wheel with the zoom.
    pub fn draw_shape<D: DrawShapes>(&self, scalar_attribute: ScalarAttribute, zoom: &Zoom, draw_shapes: &D)
        ensures
            draw_shapes.fill_colour_set(self@.colour),
            draw_shapes.line_colour_set(
                spec_best_foreground(
                    spec_hcv_chroma(self@.colour),
                    Value((self@.colour.sum.0 / 3) as u64),
                ),
            ),
            draw_shapes.line_width_set(outline_width()),
            shape_requested(draw_shapes, self@.shape, shape_xy(self@, scalar_attribute, zoom@)),
    {
        proof {
            use_type_invariant(self);
        }
        draw_shapes.set_fill_colour(&self.colour);
        draw_shapes.set_line_colour(&self.colour.best_foreground());
        draw_shapes.set_line_width(UFDRNumber(184467440737095520));
        let xy = self.xy(scalar_attribute, zoom);
        let radius = UFDRNumber::shape_radius();
        let side = UFDRNumber::shape_side();
        match self.shape {
            Shape::Circle => {
                draw_shapes.draw_circle(xy, radius, true);
                draw_shapes.draw_circle(xy, radius, false);
            },
            Shape::Diamond => {
                draw_shapes.draw_diamond(xy, side, true);
                draw_shapes.draw_diamond(xy, side, false);
            },
            Shape::Square => {
                draw_shapes.draw_square(xy, side, true);
                draw_shapes.draw_square(xy, side, false);
            },
            Shape::BackSight => {
                draw_shapes.draw_circle(xy, radius, true);
                draw_shapes.draw_circle(xy, radius, false);
                draw_shapes.draw_plus_sign(xy, side);
            },
        }
    }
}

/// The bound on the coordinates of points that a wheel measures from: the offsets
/// from its shapes, and their sums and differences, must fit the signed numbers.
pub open spec fn range_bound() -> int {
    0x4000_0000_0000_0000_0000_0000_0000_0000 - 21 * scale()
}

/// Whether both coordinates of a point are within the range that a wheel measures.
pub open spec fn within_range(p: Point) -> bool {
    abs_int(p.x.0 as int) <= range_bound() && abs_int(p.y.0 as int) <= range_bound()
}

/// The bound on the offsets of points from the shapes on a wheel.
pub open spec fn delta_bound() -> int {
    range_bound() + 20 * scale()
}

/// Whether both coordinates of an offset are within the bound.
pub open spec fn within_delta_range(p: Point) -> bool {
    abs_int(p.x.0 as int) <= delta_bound() && abs_int(p.y.0 as int) <= delta_bound()
}

/// A product of two bounded signed numbers, scaled, stays within the product of the
/// bounds, scaled.
proof fn lemma_product_bound(a: int, a_max: int, b: int, b_max: int)
    requires
        abs_int(a) <= a_max,
        abs_int(b) <= b_max,
    ensures
        abs_int(a) * abs_int(b) / scale() <= a_max * b_max / scale(),
        abs_int(fdrn_product(a, b)) <= a_max * b_max / scale(),
{
    vstd::arithmetic::mul::lemma_mul_upper_bound(abs_int(a), a_max, abs_int(b), b_max);
    vstd::arithmetic::mul::lemma_mul_nonnegative(abs_int(a), abs_int(b));
    vstd::arithmetic::div_mod::lemma_div_is_ordered(abs_int(a) * abs_int(b), a_max * b_max, scale());
}

/// Something that can be drawn on a hue wheel as a coloured shape.
pub trait MakeColouredShape {
    fn coloured_shape(&self) -> ColouredShape;
}

/// Whether the shapes' ids are in strictly increasing order.
pub open spec fn ids_sorted(shapes: Seq<ShapeView>) -> bool {
    forall|i: int, j: int| 0 <= i < j < shapes.len() ==> text_less(#[trigger] shapes[i].id, #[trigger] shapes[j].id)
}

/// What a hue wheel holds.
pub struct HueWheelView {
    pub shapes: Seq<ShapeView>,
    pub target: Option<ShapeView>,
    pub zoom: int,
}

/// A hue wheel: coloured shapes kept in the order of their ids, a target colour,
/// and a zoom.
pub struct HueWheel {
    shapes: Vec<ColouredShape>,
    target: Option<ColouredShape>,
    zoom: Zoom,
}

/// The views of shapes.
pub open spec fn shape_views(shapes: Seq<ColouredShape>) -> Seq<ShapeView> {
    shapes.map_values(|s: ColouredShape| s@)
}

impl View for HueWheel {
    type V = HueWheelView;

    closed spec fn view(&self) -> HueWheelView {
        HueWheelView {
            shapes: shape_views(self.shapes@),
            target: match self.target {
                Some(t) => Some(t@),
                None => None,
            },
            zoom: self.zoom@,
        }
    }
}

/// The proximity of a point to the `k`th shape of a wheel, given the distance.
pub open spec fn proximity_at(
    w: HueWheelView,
    point: Point,
    attr: ScalarAttribute,
    distance: UFDRNumber,
    k: int,
) -> Proximity {
    let xy = shape_xy(w.shapes[k], attr, w.zoom);
    proximity_of(w.shapes[k].shape, xy.x.0 - point.x.0, xy.y.0 - point.y.0, distance)
}

/// Whether `a` is nearer than `b`.
pub open spec fn nearer(a: Proximity, b: Proximity) -> bool {
    proximity_order(a, b) == Ordering::Less
}

/// Whether the `i`th proximity is the first of the nearest: none is nearer, and it is
/// nearer than all before it.
pub open spec fn first_nearest(ps: Seq<Proximity>, i: int) -> bool {
    &&& 0 <= i < ps.len()
    &&& forall|k: int| 0 <= k < ps.len() ==> !nearer(#[trigger] ps[k], ps[i])
    &&& forall|k: int| 0 <= k < i ==> nearer(ps[i], #[trigger] ps[k])
}

/// The proximities of a point to the shapes of a wheel, given the distances.
pub open spec fn proximities(
    w: HueWheelView,
    point: Point,
    attr: ScalarAttribute,
    distances: Seq<UFDRNumber>,
) -> Seq<Proximity> {
    Seq::new(w.shapes.len(), |k: int| proximity_at(w, point, attr, distances[k], k))
}

impl HueWheel {
    #[verifier::type_invariant]
    spec fn wheel_ok(self) -> bool {
        ids_sorted(shape_views(self.shapes@))
    }

    /// An empty wheel without a target at no magnification.
    pub fn new() -> (res: HueWheel)
        ensures
            res@.shapes.len() == 0,
            res@.target is None,
            res@.zoom == scale(),
    {
        HueWheel { shapes: Vec::new(), target: None, zoom: Zoom::default() }
    }

    /// Zooms out one step.
    pub fn decr_zoom(&mut self)
        ensures
            final(self)@.shapes == old(self)@.shapes,
            final(self)@.target == old(self)@.target,
            final(self)@.zoom == (if old(self)@.zoom - zoom_delta() > scale() {
                old(self)@.zoom - zoom_delta()
            } else {
                scale()
            }),
    {
        proof {
            use_type_invariant(&*self);
        }
        let mut zoom = Zoom::default();
        core::mem::swap(&mut zoom, &mut self.zoom);
        zoom.decr();
        self.zoom = zoom;
    }

    /// Zooms in one step.
    pub fn incr_zoom(&mut self)
        ensures
            final(self)@.shapes == old(self)@.shapes,
            final(self)@.target == old(self)@.target,
            final(self)@.zoom == (if old(self)@.zoom + zoom_delta() < 10 * scale() {
                old(self)@.zoom + zoom_delta()
            } else {
                10 * scale()
            }),
    {
        proof {
            use_type_invariant(&*self);
        }
        let mut zoom = Zoom::default();
        core::mem::swap(&mut zoom, &mut self.zoom);
        zoom.incr();
        self.zoom = zoom;
    }

    /// The zoom.
    pub fn zoom(&self) -> (res: &Zoom)
        ensures
            res@ == self@.zoom,
    {
        &self.zoom
    }

    /// The shapes, in the order of their ids.
    pub fn shapes(&self) -> (res: &[ColouredShape])
        ensures
            shape_views(res@) == self@.shapes,
    {
        self.shapes.as_slice()
    }

    /// The target, if any.
    pub fn target(&self) -> (res: Option<&ColouredShape>)
        ensures
            match res {
                Some(t) => self@.target == Some(t@),
                None => self@.target is None,
            },
    {
        match &self.target {
            Some(t) => Some(t),
            None => None,
        }
    }

    /// Where the shape with the id is, or where it would go.
    fn search(&self, key: &Vec<char>) -> (res: Result<usize, usize>)
        ensures
            match res {
                Ok(i) => i < self@.shapes.len() && self@.shapes[i as int].id == key@,
                Err(i) => i <= self@.shapes.len() && (forall|k: int|
                    0 <= k < i ==> text_less(#[trigger] self@.shapes[k].id, key@)) && (forall|k: int|
                    i <= k < self@.shapes.len() ==> text_less(key@, #[trigger] self@.shapes[k].id)),
            },
    {
        proof {
            use_type_invariant(self);
        }
        let ghost ids = self@.shapes;
        let mut lo: usize = 0;
        let mut hi: usize = self.shapes.len();
        while lo < hi
            invariant
                lo <= hi <= self.shapes.len(),
                ids == shape_views(self.shapes@),
                ids_sorted(ids),
                forall|k: int| 0 <= k < lo ==> text_less(#[trigger] ids[k].id, key@),
                forall|k: int| hi <= k < ids.len() ==> text_less(key@, #[trigger] ids[k].id),
            decreases hi - lo,
        {
            let mid = lo + (hi - lo) / 2;
            let mid_id = chars_of(self.shapes[mid].id());
            let order = text_order(&mid_id, key);
            if order == 0 {
                return Ok(mid);
            } else if order < 0 {
                proof {
                    assert forall|k: int| 0 <= k <= mid implies text_less(#[trigger] ids[k].id, key@) by {
                        if k < mid {
                            lemma_text_less_transitive(ids[k].id, ids[mid as int].id, key@);
                        }
                    }
                }
                lo = mid + 1;
            } else {
                proof {
                    assert forall|k: int| mid <= k < ids.len() implies text_less(key@, #[trigger] ids[k].id) by {
                        if k > mid {
                            lemma_text_less_transitive(key@, ids[mid as int].id, ids[k].id);
                        }
                    }
                }
                hi = mid;
            }
        }
        Err(lo)
    }

    /// Adds a shape in the order of the ids; a shape with the same id is replaced
    /// and given back.
    pub fn add_item(&mut self, coloured_item: ColouredShape) -> (res: Option<ColouredShape>)
        ensures
            final(self)@.target == old(self)@.target,
            final(self)@.zoom == old(self)@.zoom,
            ids_sorted(final(self)@.shapes),
            match res {
                Some(replaced) => exists|i: int|
                    0 <= i < old(self)@.shapes.len() && #[trigger] old(self)@.shapes[i] == replaced@
                        && replaced@.id == coloured_item@.id && final(self)@.shapes
                        == old(self)@.shapes.update(i, coloured_item@),
                None => (forall|k: int|
                    0 <= k < old(self)@.shapes.len() ==> #[trigger] old(self)@.shapes[k].id
                        != coloured_item@.id) && exists|i: int|
                    0 <= i <= old(self)@.shapes.len() && final(self)@.shapes
                        == #[trigger] old(self)@.shapes.insert(i, coloured_item@),
            },
    {
        proof {
            use_type_invariant(&*self);
        }
        let key = chars_of(coloured_item.id());
        match self.search(&key) {
            Ok(index) => {
                let ghost before = self.shapes@;
                let mut shapes = Vec::new();
                core::mem::swap(&mut shapes, &mut self.shapes);
                shapes.push(coloured_item);
                let old_item = shapes.swap_remove(index);
                proof {
                    assert(shape_views(shapes@) =~= shape_views(before).update(index as int, coloured_item@));
                    let v = shape_views(shapes@);
                    assert forall|i: int, j: int| 0 <= i < j < v.len() implies text_less(#[trigger] v[i].id, #[trigger] v[j].id) by {
                        assert(v[i].id == shape_views(before)[i].id);
                        assert(v[j].id == shape_views(before)[j].id);
                    }
                }
                self.shapes = shapes;
                Some(old_item)
            },
            Err(index) => {
                let ghost before = self.shapes@;
                let mut shapes = Vec::new();
                core::mem::swap(&mut shapes, &mut self.shapes);
                shapes.insert(index, coloured_item);
                proof {
                    let old_v = shape_views(before);
                    assert(shape_views(shapes@) =~= old_v.insert(index as int, coloured_item@));
                    let v = shape_views(shapes@);
                    assert forall|i: int, j: int| 0 <= i < j < v.len() implies text_less(#[trigger] v[i].id, #[trigger] v[j].id) by {
                        if j < index {
                        } else if i < index && j == index {
                        } else if i < index && j > index {
                            assert(v[j] == old_v[j - 1]);
                        } else if i == index {
                            assert(v[j] == old_v[j - 1]);
                        } else {
                            assert(v[i] == old_v[i - 1]);
                            assert(v[j] == old_v[j - 1]);
                        }
                    }
                    assert forall|k: int| 0 <= k < old_v.len() implies #[trigger] old_v[k].id != coloured_item@.id by {
                        lemma_text_less_irreflexive(old_v[k].id);
                    }
                }
                self.shapes = shapes;
                None
            },
        }
    }

    /// Removes the shape with the id, which the wheel must hold, and gives it back.
    pub fn remove_item(&mut self, id: &str) -> (res: ColouredShape)
        requires
            exists|k: int| 0 <= k < old(self)@.shapes.len() && #[trigger] old(self)@.shapes[k].id == id@,
        ensures
            final(self)@.target == old(self)@.target,
            final(self)@.zoom == old(self)@.zoom,
            res@.id == id@,
            exists|i: int|
                0 <= i < old(self)@.shapes.len() && #[trigger] old(self)@.shapes[i] == res@
                    && final(self)@.shapes == old(self)@.shapes.remove(i),
    {
        proof {
            use_type_invariant(&*self);
        }
        let key = chars_of(id);
        let found = self.search(&key);
        proof {
            if let Err(index) = found {
                let k = choose|k: int| 0 <= k < self@.shapes.len() && #[trigger] self@.shapes[k].id == id@;
                lemma_text_less_irreflexive(id@);
            }
        }
        let index = match found {
            Ok(index) => index,
            Err(_) => 0,
        };
        let ghost before = self.shapes@;
        let mut shapes = Vec::new();
        core::mem::swap(&mut shapes, &mut self.shapes);
        let removed = shapes.remove(index);
        proof {
            let old_v = shape_views(before);
            assert(shape_views(shapes@) =~= old_v.remove(index as int));
            let v = shape_views(shapes@);
            assert forall|i: int, j: int| 0 <= i < j < v.len() implies text_less(#[trigger] v[i].id, #[trigger] v[j].id) by {
                if i >= index {
                    assert(v[i] == old_v[i + 1]);
                }
                if j >= index {
                    assert(v[j] == old_v[j + 1]);
                }
            }
        }
        self.shapes = shapes;
        removed
    }

    /// Removes all shapes.
    pub fn remove_all(&mut self)
        ensures
            final(self)@.shapes.len() == 0,
            final(self)@.target == old(self)@.target,
            final(self)@.zoom == old(self)@.zoom,
    {
        let mut shapes = Vec::new();
        core::mem::swap(&mut shapes, &mut self.shapes);
        shapes.clear();
        self.shapes = shapes;
    }

    /// Sets the target to a back sight in the colour, with the point on the unit
    /// circle at its hue, or to none.
    pub fn set_target_colour<C: ColourBasics>(&mut self, colour: Option<&C>, hue_point: Point)
        requires
            colour matches Some(c) ==> c.spec_hcv().sum.0 <= 3 * scale(),
            within_unit(hue_point),
        ensures
            final(self)@.shapes == old(self)@.shapes,
            final(self)@.zoom == old(self)@.zoom,
            match colour {
                Some(c) => final(self)@.target matches Some(t) && t.id == "###target###"@
                    && t.tooltip_text == "Target Colour"@ && t.shape == Shape::BackSight
                    && t.colour == c.spec_hcv(),
                None => final(self)@.target is None,
            },
    {
        proof {
            use_type_invariant(&*self);
        }
        match colour {
            Some(colour) => {
                let target = ColouredShape::new(colour, "###target###", "Target Colour", Shape::BackSight, hue_point);
                self.target = Some(target);
            },
            None => {
                self.target = None;
            },
        }
    }

    /// The offsets of each shape's position from a point.
    pub fn deltas_from(&self, point: Point, scalar_attribute: ScalarAttribute) -> (res: Vec<Point>)
        requires
            within_range(point),
        ensures
            res.len() == self@.shapes.len(),
            forall|k: int|
                0 <= k < res.len() ==> #[trigger] res@[k] == ({
                    let xy = shape_xy(self@.shapes[k], scalar_attribute, self@.zoom);
                    pt(xy.x.0 - point.x.0, xy.y.0 - point.y.0)
                }) && within_delta_range(res@[k]),
    {
        let mut res: Vec<Point> = Vec::new();
        let mut k: usize = 0;
        while k < self.shapes.len()
            invariant
                k <= self.shapes.len(),
                res.len() == k,
                within_range(point),
                forall|j: int|
                    0 <= j < k ==> #[trigger] res@[j] == ({
                        let xy = shape_xy(self@.shapes[j], scalar_attribute, self@.zoom);
                        pt(xy.x.0 - point.x.0, xy.y.0 - point.y.0)
                    }) && within_delta_range(res@[j]),
            decreases self.shapes.len() - k,
        {
            res.push(self.shapes[k].delta_from(point, scalar_attribute, &self.zoom));
            k += 1;
        }
        res
    }

    /// The first of the shapes nearest to a point, given the distances of the point
    /// from the shapes' positions, with its proximity.
    fn nearest_to(&self, point: Point, scalar_attribute: ScalarAttribute, distances: &Vec<UFDRNumber>) -> (res: Option<(usize, Proximity)>)
        requires
            within_range(point),
            distances.len() == self@.shapes.len(),
        ensures
            match res {
                Some((i, p)) => first_nearest(proximities(self@, point, scalar_attribute, distances@), i as int)
                    && p == proximities(self@, point, scalar_attribute, distances@)[i as int],
                None => self@.shapes.len() == 0,
            },
    {
        let ghost ps = proximities(self@, point, scalar_attribute, distances@);
        let mut nearest: Option<(usize, Proximity)> = None;
        let mut k: usize = 0;
        while k < self.shapes.len()
            invariant
                k <= self.shapes.len(),
                distances.len() == self.shapes.len(),
                within_range(point),
                ps == proximities(self@, point, scalar_attribute, distances@),
                ps.len() == self.shapes.len(),
                k == 0 <==> nearest is None,
                nearest matches Some((i, p)) ==> i < k && p == ps[i as int]
                    && (forall|j: int| 0 <= j < k ==> !nearer(#[trigger] ps[j], ps[i as int]))
                    && (forall|j: int| 0 <= j < i ==> nearer(ps[i as int], #[trigger] ps[j])),
            decreases self.shapes.len() - k,
        {
            let shape = &self.shapes[k];
            let delta = shape.delta_from(point, scalar_attribute, &self.zoom);
            let proximity = shape.proximity_for(delta, distances[k]);
            assert(self@.shapes[k as int] == self.shapes@[k as int]@);
            assert(proximity == ps[k as int]);
            match nearest {
                Some((i, so_far)) => {
                    if proximity < so_far {
                        proof {
                            assert forall|j: int| 0 <= j < k implies nearer(ps[k as int], #[trigger] ps[j]) by {
                                lemma_nearer_transitive(ps[k as int], so_far, ps[j]);
                            }
                            lemma_nearer_irreflexive(ps[k as int]);
                        }
                        nearest = Some((k, proximity));
                    } else {
                    }
                },
                None => {
                    proof {
                        lemma_nearer_irreflexive(ps[0]);
                    }
                    nearest = Some((k, proximity));
                },
            }
            k += 1;
        }
        nearest
    }

    /// The shape that encloses a point, if the nearest one does, given the distances
    /// of the point from the shapes' positions.
    pub fn item_at_point(&self, point: Point, scalar_attribute: ScalarAttribute, distances: &Vec<UFDRNumber>) -> (res: Option<&ColouredShape>)
        requires
            within_range(point),
            distances.len() == self@.shapes.len(),
        ensures
            ({
                let ps = proximities(self@, point, scalar_attribute, distances@);
                match res {
                    Some(shape) => exists|i: int|
                        first_nearest(ps, i) && #[trigger] ps[i] is Enclosed && self@.shapes[i] == shape@,
                    None => forall|i: int| first_nearest(ps, i) ==> !(#[trigger] ps[i] is Enclosed),
                }
            }),
    {
        match self.nearest_to(point, scalar_attribute, distances) {
            Some((i, Proximity::Enclosed(_))) => Some(&self.shapes[i]),
            _ => {
                proof {
                    let ps = proximities(self@, point, scalar_attribute, distances@);
                    assert forall|i: int| first_nearest(ps, i) implies !(#[trigger] ps[i] is Enclosed) by {
                        lemma_first_nearest_unique(ps, i);
                    }
                }
                None
            },
        }
    }

    /// The tooltip of the nearest shape to a point, given the distances of the point
    /// from the shapes' positions.
    pub fn tooltip_for_point(&self, point: Point, scalar_attribute: ScalarAttribute, distances: &Vec<UFDRNumber>) -> (res: Option<String>)
        requires
            within_range(point),
            distances.len() == self@.shapes.len(),
        ensures
            ({
                let ps = proximities(self@, point, scalar_attribute, distances@);
                match res {
                    Some(text) => exists|i: int|
                        first_nearest(ps, i) && #[trigger] self@.shapes[i].tooltip_text == text@,
                    None => self@.shapes.len() == 0,
                }
            }),
    {
        match self.nearest_to(point, scalar_attribute, distances) {
            Some((i, _)) => Some(self.shapes[i].tooltip_text().to_owned()),
            None => None,
        }
    }
}

impl Default for HueWheel {
    fn default() -> (res: HueWheel)
        ensures
            res@.shapes.len() == 0,
            res@.target is None,
            res@.zoom == scale(),
    {
        HueWheel::new()
    }
}

/// Nothing is nearer than itself.
proof fn lemma_nearer_irreflexive(a: Proximity)
    ensures
        !nearer(a, a),
{
}

/// Nearness is transitive through a proximity that is not farther.
proof fn lemma_nearer_transitive(a: Proximity, b: Proximity, c: Proximity)
    requires
        nearer(a, b),
        !nearer(c, b),
    ensures
        nearer(a, c),
{
}

/// At most one proximity is the first of the nearest.
proof fn lemma_first_nearest_unique(ps: Seq<Proximity>, i: int)
    requires
        first_nearest(ps, i),
    ensures
        forall|j: int| #[trigger] first_nearest(ps, j) ==> j == i,
{
    assert forall|j: int| #[trigger] first_nearest(ps, j) implies j == i by {
        if j < i {
            assert(nearer(ps[i], ps[j]));
        } else if j > i {
            assert(nearer(ps[j], ps[i]));
        }
    }
}

/// The rings and spokes drawn behind the shapes of a hue wheel.
pub trait Graticule {
    /// Draws `num_rings` white circles about the centre, evenly spaced out to the
    /// unit circle, on a wheel with the zoom.
    fn draw_rings<D: DrawShapes>(num_rings: u8, zoom: &Zoom, draw_shapes: &D)
        ensures
            draw_shapes.line_width_set(outline_width()),
            draw_shapes.line_colour_set(grey_of_sum(UFDRNumber((3 * scale()) as u128))),
            forall|n: int|
                1 <= n <= num_rings ==> #[trigger] draw_shapes.circle_drawn(
                    pt(0, 0),
                    ring_radius(n, num_rings as int, zoom@),
                    false,
                ),
    {
        draw_shapes.set_line_width(UFDRNumber(184467440737095520));
        draw_shapes.set_line_colour(&HCV::white());
        let centre = Point { x: FDRNumber(0), y: FDRNumber(0) };
        let z = zoom.scale();
        let mut num: u16 = 1;
        while num <= num_rings as u16
            invariant
                1 <= num,
                num <= num_rings as int + 1,
                scale() <= z.0 <= 10 * scale(),
                z.0 == zoom@,
                centre == pt(0, 0),
                forall|n: int|
                    1 <= n < num ==> #[trigger] draw_shapes.circle_drawn(
                        pt(0, 0),
                        ring_radius(n, num_rings as int, zoom@),
                        false,
                    ),
            decreases num_rings as int + 1 - num,
        {
            let radius = UFDRNumber::one().mul_i32(num as i32).div_i32(num_rings as i32);
            proof {
                vstd::arithmetic::div_mod::lemma_div_is_ordered(scale() * num, scale() * num_rings, num_rings as int);
                vstd::arithmetic::mul::lemma_mul_is_commutative(scale(), num_rings as int);
                vstd::arithmetic::div_mod::lemma_div_multiples_vanish(scale(), num_rings as int);
                vstd::arithmetic::mul::lemma_mul_upper_bound(radius.0 as int, scale(), z.0 as int, 10 * scale());
                vstd::arithmetic::div_mod::lemma_div_is_ordered(radius.0 * z.0, scale() * (10 * scale()), scale());
                assert(scale() * (10 * scale()) / scale() == 10 * scale()) by (nonlinear_arith);
            }
            draw_shapes.draw_circle(centre, radius.mul_ufdr(z), false);
            num += 1;
        }
    }
}

impl Graticule for HueWheel {}

/// Round trip: where a shape was added under a new id, removing the shape with that
/// id takes out the one added and leaves the shapes as they were.
pub proof fn lemma_add_then_remove(old: Seq<ShapeView>, item: ShapeView, i: int, j: int)
    requires
        0 <= i <= old.len(),
        ids_sorted(old.insert(i, item)),
        0 <= j <= old.len(),
        old.insert(i, item)[j].id == item.id,
    ensures
        j == i,
        old.insert(i, item).remove(j) == old,
{
    let s = old.insert(i, item);
    assert(s[i] == item);
    if j < i {
        assert(text_less(s[j].id, s[i].id));
        lemma_text_less_irreflexive(item.id);
    }
    if j > i {
        assert(text_less(s[i].id, s[j].id));
        lemma_text_less_irreflexive(item.id);
    }
    assert(s.remove(i) =~= old);
}

} // verus!
