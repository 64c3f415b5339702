//! Points, sizes and the shapes drawn for colours, in fixed point coordinates, and
//! the drawing surface that a user of the library provides.
use vstd::prelude::*;

use crate::fdrn::{abs_int, scale, signed_by, FDRNumber, Prop, UFDRNumber};
use crate::hcv::HCV;
use crate::ColourBasics;

pub mod attr_display;
pub mod hue_wheel;

verus! {

/// A point in the plane.
#[derive(Clone, Copy, Debug, PartialEq, Eq, Structural, Default)]
pub struct Point {
    pub x: FDRNumber,
    pub y: FDRNumber,
}

/// The point with the given raw coordinates.
pub open spec fn pt(x: int, y: int) -> Point {
    Point { x: FDRNumber(x as i128), y: FDRNumber(y as i128) }
}

/// Whether an integer fits in an `i128`.
pub open spec fn fits_i128(v: int) -> bool {
    i128::MIN <= v <= i128::MAX
}

/// The product of two signed fixed point numbers, as `mul_fdrn` computes it.
pub open spec fn fdrn_product(a: int, b: int) -> int {
    signed_by(a, b, (abs_int(a) * abs_int(b)) / scale())
}

/// Where `mul_fdrn` can multiply the two numbers.
pub open spec fn fdrn_product_ok(a: int, b: int) -> bool {
    a != i128::MIN && b != i128::MIN && (abs_int(a) * abs_int(b)) / scale() <= i128::MAX
}

impl core::ops::Add for Point {
    type Output = Point;

    fn add(self, rhs: Point) -> (res: Point)
        ensures
            res == pt(self.x.0 + rhs.x.0, self.y.0 + rhs.y.0),
    {
        Point { x: self.x.add_fdrn(rhs.x), y: self.y.add_fdrn(rhs.y) }
    }
}

impl vstd::std_specs::ops::AddSpecImpl for Point {
    open spec fn obeys_add_spec() -> bool {
        true
    }

    open spec fn add_req(self, rhs: Point) -> bool {
        fits_i128(self.x.0 + rhs.x.0) && fits_i128(self.y.0 + rhs.y.0)
    }

    open spec fn add_spec(self, rhs: Point) -> Point {
        pt(self.x.0 + rhs.x.0, self.y.0 + rhs.y.0)
    }
}

impl core::ops::Sub for Point {
    type Output = Point;

    fn sub(self, rhs: Point) -> (res: Point)
        ensures
            res == pt(self.x.0 - rhs.x.0, self.y.0 - rhs.y.0),
    {
        Point { x: self.x.sub_fdrn(rhs.x), y: self.y.sub_fdrn(rhs.y) }
    }
}

impl vstd::std_specs::ops::SubSpecImpl for Point {
    open spec fn obeys_sub_spec() -> bool {
        true
    }

    open spec fn sub_req(self, rhs: Point) -> bool {
        fits_i128(self.x.0 - rhs.x.0) && fits_i128(self.y.0 - rhs.y.0)
    }

    open spec fn sub_spec(self, rhs: Point) -> Point {
        pt(self.x.0 - rhs.x.0, self.y.0 - rhs.y.0)
    }
}

impl core::ops::Mul<UFDRNumber> for Point {
    type Output = Point;

    /// The point scaled by the factor, taken as signed (raw values beyond `i128::MAX`
    /// wrap, as a cast does).
    fn mul(self, factor: UFDRNumber) -> (res: Point)
        ensures
            res == pt(
                fdrn_product(self.x.0 as int, factor.0 as i128 as int),
                fdrn_product(self.y.0 as int, factor.0 as i128 as int),
            ),
    {
        let f = FDRNumber(factor.0 as i128);
        Point { x: self.x.mul_fdrn(f), y: self.y.mul_fdrn(f) }
    }
}

impl vstd::std_specs::ops::MulSpecImpl<UFDRNumber> for Point {
    open spec fn obeys_mul_spec() -> bool {
        true
    }

    open spec fn mul_req(self, factor: UFDRNumber) -> bool {
        fdrn_product_ok(self.x.0 as int, factor.0 as i128 as int) && fdrn_product_ok(
            self.y.0 as int,
            factor.0 as i128 as int,
        )
    }

    open spec fn mul_spec(self, factor: UFDRNumber) -> Point {
        pt(
            fdrn_product(self.x.0 as int, factor.0 as i128 as int),
            fdrn_product(self.y.0 as int, factor.0 as i128 as int),
        )
    }
}

impl From<[FDRNumber; 2]> for Point {
    fn from(array: [FDRNumber; 2]) -> (res: Point)
        ensures
            res == (Point { x: array[0], y: array[1] }),
    {
        Point { x: array[0], y: array[1] }
    }
}

impl vstd::std_specs::convert::FromSpecImpl<[FDRNumber; 2]> for Point {
    open spec fn obeys_from_spec() -> bool {
        true
    }

    open spec fn from_spec(array: [FDRNumber; 2]) -> Point {
        Point { x: array[0], y: array[1] }
    }
}

impl Point {
    /// The point at the radius in the direction whose cosine and sine are given.
    pub fn on_circle(radius: UFDRNumber, cos: FDRNumber, sin: FDRNumber) -> (res: Point)
        requires
            radius.0 <= i128::MAX,
            fdrn_product_ok(radius.0 as int, cos.0 as int),
            fdrn_product_ok(radius.0 as int, sin.0 as int),
        ensures
            res == pt(fdrn_product(radius.0 as int, cos.0 as int), fdrn_product(radius.0 as int, sin.0 as int)),
    {
        let r = FDRNumber(radius.0 as i128);
        Point { x: r.mul_fdrn(cos), y: r.mul_fdrn(sin) }
    }
}

/// The size of a drawing area.
#[derive(Clone, Copy, Debug, PartialEq, Eq, Structural, Default)]
pub struct Size {
    pub width: UFDRNumber,
    pub height: UFDRNumber,
}

impl Size {
    /// The centre of the area.
    pub fn centre(&self) -> (res: Point)
        ensures
            res == pt(self.width.0 as int / 2, self.height.0 as int / 2),
    {
        Point {
            x: FDRNumber(self.width.div_i32(2).0 as i128),
            y: FDRNumber(self.height.div_i32(2).0 as i128),
        }
    }
}

impl From<[UFDRNumber; 2]> for Size {
    fn from(array: [UFDRNumber; 2]) -> (res: Size)
        ensures
            res == (Size { width: array[0], height: array[1] }),
    {
        Size { width: array[0], height: array[1] }
    }
}

impl vstd::std_specs::convert::FromSpecImpl<[UFDRNumber; 2]> for Size {
    open spec fn obeys_from_spec() -> bool {
        true
    }

    open spec fn from_spec(array: [UFDRNumber; 2]) -> Size {
        Size { width: array[0], height: array[1] }
    }
}

/// The direction in which to draw an isosceles triangle.
#[derive(Clone, Copy, Debug, PartialEq, Eq, Structural)]
pub enum Dirn {
    Down,
    Up,
    Right,
    Left,
}

/// Where a text goes relative to a point.
#[derive(Clone, Copy, Debug, PartialEq, Eq, Structural)]
pub enum TextPosn {
    TopLeftCorner(Point),
    TopRightCorner(Point),
    BottomLeftCorner(Point),
    BottomRightCorner(Point),
    Centre(Point),
}

/// Whether both coordinates of a point can move by `d` either way.
pub open spec fn room_for(c: Point, d: int) -> bool {
    fits_i128(c.x.0 - d) && fits_i128(c.x.0 + d) && fits_i128(c.y.0 - d) && fits_i128(c.y.0 + d)
}

/// The corners of a triangle about a centre, pointing in the direction, with the
/// given half base and half height.
pub open spec fn triangle_corners(c: Point, dirn: Dirn, hb: int, hh: int) -> Seq<Point> {
    let (x, y) = (c.x.0 as int, c.y.0 as int);
    match dirn {
        Dirn::Up => seq![pt(x - hb, y - hh), pt(x, y + hh), pt(x + hb, y - hh)],
        Dirn::Down => seq![pt(x - hb, y + hh), pt(x, y - hh), pt(x + hb, y + hh)],
        Dirn::Right => seq![pt(x - hh, y - hb), pt(x - hh, y + hb), pt(x + hh, y)],
        Dirn::Left => seq![pt(x + hh, y - hb), pt(x + hh, y + hb), pt(x - hh, y)],
    }
}

/// The corners of a triangle about a centre, pointing in the direction.
pub fn triangle_points(centre: Point, dirn: Dirn, half_base: FDRNumber, half_height: FDRNumber) -> (res: Vec<Point>)
    requires
        room_for(centre, half_base.0 as int),
        room_for(centre, half_height.0 as int),
        half_base.0 >= 0,
        half_height.0 >= 0,
    ensures
        res@ == triangle_corners(centre, dirn, half_base.0 as int, half_height.0 as int),
{
    let (x, y) = (centre.x, centre.y);
    let (hb, hh) = (half_base, half_height);
    let res = match dirn {
        Dirn::Up => vec![
            Point { x: x.sub_fdrn(hb), y: y.sub_fdrn(hh) },
            Point { x, y: y.add_fdrn(hh) },
            Point { x: x.add_fdrn(hb), y: y.sub_fdrn(hh) },
        ],
        Dirn::Down => vec![
            Point { x: x.sub_fdrn(hb), y: y.add_fdrn(hh) },
            Point { x, y: y.sub_fdrn(hh) },
            Point { x: x.add_fdrn(hb), y: y.add_fdrn(hh) },
        ],
        Dirn::Right => vec![
            Point { x: x.sub_fdrn(hh), y: y.sub_fdrn(hb) },
            Point { x: x.sub_fdrn(hh), y: y.add_fdrn(hb) },
            Point { x: x.add_fdrn(hh), y },
        ],
        Dirn::Left => vec![
            Point { x: x.add_fdrn(hh), y: y.sub_fdrn(hb) },
            Point { x: x.add_fdrn(hh), y: y.add_fdrn(hb) },
            Point { x: x.sub_fdrn(hh), y },
        ],
    };
    assert(res@ =~= triangle_corners(centre, dirn, hb.0 as int, hh.0 as int));
    res
}

/// The corners of a diamond about a centre, `d` from it: top, right, bottom, left.
pub open spec fn diamond_corners(c: Point, d: int) -> Seq<Point> {
    let (x, y) = (c.x.0 as int, c.y.0 as int);
    seq![pt(x, y + d), pt(x + d, y), pt(x, y - d), pt(x - d, y)]
}

/// The corners of a diamond about a centre whose half diagonal is `dist`.
pub fn diamond_points(centre: Point, dist: FDRNumber) -> (res: Vec<Point>)
    requires
        room_for(centre, dist.0 as int),
        dist.0 >= 0,
    ensures
        res@ == diamond_corners(centre, dist.0 as int),
{
    let (x, y) = (centre.x, centre.y);
    let res = vec![
        Point { x, y: y.add_fdrn(dist) },
        Point { x: x.add_fdrn(dist), y },
        Point { x, y: y.sub_fdrn(dist) },
        Point { x: x.sub_fdrn(dist), y },
    ];
    assert(res@ =~= diamond_corners(centre, dist.0 as int));
    res
}

/// The corners of a square about a centre with half side `h`.
pub open spec fn square_corners(c: Point, h: int) -> Seq<Point> {
    let (x, y) = (c.x.0 as int, c.y.0 as int);
    seq![pt(x - h, y - h), pt(x - h, y + h), pt(x + h, y + h), pt(x + h, y - h)]
}

/// The corners of a square about a centre whose half side is `half_side`.
pub fn square_points(centre: Point, half_side: FDRNumber) -> (res: Vec<Point>)
    requires
        room_for(centre, half_side.0 as int),
        half_side.0 >= 0,
    ensures
        res@ == square_corners(centre, half_side.0 as int),
{
    let (x, y) = (centre.x, centre.y);
    let h = half_side;
    let res = vec![
        Point { x: x.sub_fdrn(h), y: y.sub_fdrn(h) },
        Point { x: x.sub_fdrn(h), y: y.add_fdrn(h) },
        Point { x: x.add_fdrn(h), y: y.add_fdrn(h) },
        Point { x: x.add_fdrn(h), y: y.sub_fdrn(h) },
    ];
    assert(res@ =~= square_corners(centre, half_side.0 as int));
    res
}

/// The two strokes of a plus sign about a centre with arms of length `h`: the
/// vertical one, then the horizontal one.
pub open spec fn plus_sign_strokes(c: Point, h: int) -> (Seq<Point>, Seq<Point>) {
    let (x, y) = (c.x.0 as int, c.y.0 as int);
    (seq![pt(x, y - h), pt(x, y + h)], seq![pt(x - h, y), pt(x + h, y)])
}

/// The strokes of a plus sign about a centre whose arms are `half_side` long.
pub fn plus_sign_lines(centre: Point, half_side: FDRNumber) -> (res: (Vec<Point>, Vec<Point>))
    requires
        room_for(centre, half_side.0 as int),
        half_side.0 >= 0,
    ensures
        res.0@ == plus_sign_strokes(centre, half_side.0 as int).0,
        res.1@ == plus_sign_strokes(centre, half_side.0 as int).1,
{
    let (x, y) = (centre.x, centre.y);
    let h = half_side;
    let vertical = vec![Point { x, y: y.sub_fdrn(h) }, Point { x, y: y.add_fdrn(h) }];
    let horizontal = vec![Point { x: x.sub_fdrn(h), y }, Point { x: x.add_fdrn(h), y }];
    assert(vertical@ =~= plus_sign_strokes(centre, h.0 as int).0);
    assert(horizontal@ =~= plus_sign_strokes(centre, h.0 as int).1);
    (vertical, horizontal)
}

/// Half of a length, as a signed number.
pub fn half_of(length: UFDRNumber) -> (res: FDRNumber)
    ensures
        res.0 == length.0 as int / 2,
{
    FDRNumber(length.div_i32(2).0 as i128)
}

/// Half the height of an equilateral triangle with the given side: the side times
/// the library's square root of three, divided by four.
pub open spec fn equilateral_half_height(side: int) -> int {
    (side * 50397442043594580091) / scale() / 4
}

/// Whether the surface has been asked to draw a polygon with the given corners.
pub open spec fn polygon_requested<D: Draw + ?Sized>(drawer: &D, corners: Seq<Point>, fill: bool) -> bool {
    exists|polygon: &[Point]| polygon@ == corners && #[trigger] drawer.polygon_drawn(polygon, fill)
}

/// Whether the surface has been asked to draw a line through the given points.
pub open spec fn line_requested<D: Draw + ?Sized>(drawer: &D, points: Seq<Point>) -> bool {
    exists|line: &[Point]| line@ == points && #[trigger] drawer.line_drawn(line)
}

/// Whether the surface has been asked to draw the isosceles triangle with
/// `triangle_corners` of half the base and half the height.
pub open spec fn isosceles_requested<D: Draw + ?Sized>(
    drawer: &D,
    centre: Point,
    dirn: Dirn,
    base: UFDRNumber,
    height: UFDRNumber,
    fill: bool,
) -> bool {
    polygon_requested(drawer, triangle_corners(centre, dirn, base.0 as int / 2, height.0 as int / 2), fill)
}

/// A drawing surface, which the user of the library provides. Each request to it is
/// recorded: its spec functions say which requests it has been given.
pub trait Draw {
    /// The size of the surface.
    spec fn surface_size(&self) -> Size;

    /// Whether the surface has been asked to draw the polygon, filled or outlined.
    spec fn polygon_drawn(&self, polygon: &[Point], fill: bool) -> bool;

    /// Whether the surface has been asked to fill in the colour.
    spec fn fill_colour_set(&self, colour: HCV) -> bool;

    /// Whether the surface has been asked to draw lines in the colour.
    spec fn line_colour_set(&self, colour: HCV) -> bool;

    /// Whether the surface has been asked to write text in the colour.
    spec fn text_colour_set(&self, colour: HCV) -> bool;

    /// Whether the surface has been asked to draw lines of the width.
    spec fn line_width_set(&self, width: UFDRNumber) -> bool;

    /// Whether the surface has been asked to draw the line.
    spec fn line_drawn(&self, line: &[Point]) -> bool;

    /// Whether the surface has been asked to write the text.
    spec fn text_drawn(&self, text: &str, posn: TextPosn, font_size: UFDRNumber) -> bool;

    /// Whether the surface has been asked to paint the gradient.
    spec fn gradient_painted(&self, posn: Point, size: Size, colour_stops: &[(HCV, Prop)]) -> bool;

    fn size(&self) -> (res: Size)
        ensures
            res == self.surface_size(),
    ;

    fn draw_polygon(&self, polygon: &[Point], fill: bool)
        ensures
            self.polygon_drawn(polygon, fill),
    ;

    fn set_fill_colour<C: ColourBasics>(&self, colour: &C)
        ensures
            self.fill_colour_set(colour.spec_hcv()),
    ;

    fn set_line_colour<C: ColourBasics>(&self, colour: &C)
        ensures
            self.line_colour_set(colour.spec_hcv()),
    ;

    fn set_text_colour<C: ColourBasics>(&self, colour: &C)
        ensures
            self.text_colour_set(colour.spec_hcv()),
    ;

    fn set_line_width(&self, width: UFDRNumber)
        ensures
            self.line_width_set(width),
    ;

    fn draw_line(&self, line: &[Point])
        ensures
            self.line_drawn(line),
    ;

    fn draw_text(&self, text: &str, posn: TextPosn, font_size: UFDRNumber)
        ensures
            self.text_drawn(text, posn, font_size),
    ;

    fn paint_linear_gradient(&self, posn: Point, size: Size, colour_stops: &[(HCV, Prop)])
        ensures
            self.gradient_painted(posn, size, colour_stops),
    ;
}

/// Drawing isosceles triangles.
pub trait DrawIsosceles: Draw {
    /// Draws the triangle with `triangle_points` of half the base and half the
    /// height.
    fn draw_isosceles(&self, centre: Point, dirn: Dirn, base: UFDRNumber, height: UFDRNumber, fill: bool)
        requires
            room_for(centre, base.0 as int / 2),
            room_for(centre, height.0 as int / 2),
        ensures
            isosceles_requested(self, centre, dirn, base, height, fill),
    {
        let points = triangle_points(centre, dirn, half_of(base), half_of(height));
        let polygon = points.as_slice();
        self.draw_polygon(polygon, fill);
        assert(self.polygon_drawn(polygon, fill));
    }
}

/// Drawing the shapes that mark colours.
pub trait DrawShapes: DrawIsosceles {
    /// Whether the surface has been asked to paint its background in the colour.
    spec fn background_colour_set(&self, colour: HCV) -> bool;

    /// Whether the surface has been asked to draw the circle, filled or outlined.
    spec fn circle_drawn(&self, centre: Point, radius: UFDRNumber, fill: bool) -> bool;

    fn set_background_colour<C: ColourBasics>(&self, colour: &C)
        ensures
            self.background_colour_set(colour.spec_hcv()),
    ;

    fn draw_circle(&self, centre: Point, radius: UFDRNumber, fill: bool)
        ensures
            self.circle_drawn(centre, radius, fill),
    ;

    /// Draws the diamond with `diamond_points` of half the side length.
    fn draw_diamond(&self, centre: Point, side_length: UFDRNumber, fill: bool)
        requires
            room_for(centre, side_length.0 as int / 2),
        ensures
            polygon_requested(self, diamond_corners(centre, side_length.0 as int / 2), fill),
    {
        let points = diamond_points(centre, half_of(side_length));
        let polygon = points.as_slice();
        self.draw_polygon(polygon, fill);
        assert(self.polygon_drawn(polygon, fill));
    }

    /// Draws the square with `square_points` of half the side length.
    fn draw_square(&self, centre: Point, side_length: UFDRNumber, fill: bool)
        requires
            room_for(centre, side_length.0 as int / 2),
        ensures
            polygon_requested(self, square_corners(centre, side_length.0 as int / 2), fill),
    {
        let points = square_points(centre, half_of(side_length));
        let polygon = points.as_slice();
        self.draw_polygon(polygon, fill);
        assert(self.polygon_drawn(polygon, fill));
    }

    /// Draws the equilateral triangle with `triangle_points` of half the side and
    /// `equilateral_half_height` of the side.
    fn draw_equilateral(&self, centre: Point, dirn: Dirn, side_length: UFDRNumber, fill: bool)
        requires
            (side_length.0 * 50397442043594580091) / scale() <= u128::MAX,
            room_for(centre, side_length.0 as int / 2),
            room_for(centre, equilateral_half_height(side_length.0 as int)),
        ensures
            polygon_requested(
                self,
                triangle_corners(
                    centre,
                    dirn,
                    side_length.0 as int / 2,
                    equilateral_half_height(side_length.0 as int),
                ),
                fill,
            ),
    {
        let sqrt_3 = UFDRNumber::sqrt_3();
        let half_height = FDRNumber(side_length.mul_ufdr(sqrt_3).div_i32(4).0 as i128);
        let points = triangle_points(centre, dirn, half_of(side_length), half_height);
        let polygon = points.as_slice();
        self.draw_polygon(polygon, fill);
        assert(self.polygon_drawn(polygon, fill));
    }

    /// Draws the plus sign with `plus_sign_lines` of half the side length.
    fn draw_plus_sign(&self, centre: Point, side_length: UFDRNumber)
        requires
            room_for(centre, side_length.0 as int / 2),
        ensures
            line_requested(self, plus_sign_strokes(centre, side_length.0 as int / 2).0),
            line_requested(self, plus_sign_strokes(centre, side_length.0 as int / 2).1),
    {
        let (vertical, horizontal) = plus_sign_lines(centre, half_of(side_length));
        let vertical_line = vertical.as_slice();
        self.draw_line(vertical_line);
        assert(self.line_drawn(vertical_line));
        let horizontal_line = horizontal.as_slice();
        self.draw_line(horizontal_line);
        assert(self.line_drawn(horizontal_line));
    }
}

} // verus!
