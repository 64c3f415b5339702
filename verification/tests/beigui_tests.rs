use std::cell::RefCell;

use colour_math::beigui::hue_wheel::{
    ColouredShape, Graticule, HueWheel, Proximity, Shape, Zoom,
};
use colour_math::beigui::{
    diamond_points, plus_sign_lines, square_points, triangle_points, Dirn, Draw, DrawIsosceles,
    DrawShapes, Point, Size, TextPosn,
};
use colour_math::fdrn::{FDRNumber, Prop, UFDRNumber};
use colour_math::hcv::HCV;
use colour_math::ColourBasics;
use colour_math::ScalarAttribute;

fn p(x: i128, y: i128) -> Point {
    Point { x: FDRNumber(x), y: FDRNumber(y) }
}

/// A drawing surface that records what it is asked to draw.
#[derive(Default)]
struct Recorder {
    polygons: RefCell<Vec<(Vec<Point>, bool)>>,
    lines: RefCell<Vec<Vec<Point>>>,
    circles: RefCell<Vec<(Point, UFDRNumber, bool)>>,
    line_widths: RefCell<Vec<UFDRNumber>>,
}

impl Draw for Recorder {
    fn surface_size(&self) -> Size {
        self.size()
    }

    fn polygon_drawn(&self, polygon: &[Point], fill: bool) -> bool {
        self.polygons.borrow().contains(&(polygon.to_vec(), fill))
    }

    fn fill_colour_set(&self, _colour: HCV) -> bool {
        false
    }

    fn line_colour_set(&self, _colour: HCV) -> bool {
        false
    }

    fn text_colour_set(&self, _colour: HCV) -> bool {
        false
    }

    fn line_width_set(&self, width: UFDRNumber) -> bool {
        self.line_widths.borrow().contains(&width)
    }

    fn line_drawn(&self, line: &[Point]) -> bool {
        self.lines.borrow().contains(&line.to_vec())
    }

    fn text_drawn(&self, _text: &str, _posn: TextPosn, _font_size: UFDRNumber) -> bool {
        false
    }

    fn gradient_painted(&self, _posn: Point, _size: Size, _colour_stops: &[(HCV, Prop)]) -> bool {
        false
    }

    fn size(&self) -> Size {
        Size { width: UFDRNumber(200), height: UFDRNumber(100) }
    }

    fn draw_polygon(&self, polygon: &[Point], fill: bool) {
        self.polygons.borrow_mut().push((polygon.to_vec(), fill));
    }

    fn set_fill_colour<C: ColourBasics>(&self, _colour: &C) {}

    fn set_line_colour<C: ColourBasics>(&self, _colour: &C) {}

    fn set_text_colour<C: ColourBasics>(&self, _colour: &C) {}

    fn set_line_width(&self, width: UFDRNumber) {
        self.line_widths.borrow_mut().push(width);
    }

    fn draw_line(&self, line: &[Point]) {
        self.lines.borrow_mut().push(line.to_vec());
    }

    fn draw_text(&self, _text: &str, _posn: TextPosn, _font_size: UFDRNumber) {}

    fn paint_linear_gradient(&self, _posn: Point, _size: Size, _colour_stops: &[(HCV, Prop)]) {}
}

impl DrawIsosceles for Recorder {}

impl DrawShapes for Recorder {
    fn background_colour_set(&self, _colour: HCV) -> bool {
        false
    }

    fn circle_drawn(&self, centre: Point, radius: UFDRNumber, fill: bool) -> bool {
        self.circles.borrow().contains(&(centre, radius, fill))
    }

    fn set_background_colour<C: ColourBasics>(&self, _colour: &C) {}

    fn draw_circle(&self, centre: Point, radius: UFDRNumber, fill: bool) {
        self.circles.borrow_mut().push((centre, radius, fill));
    }
}

#[test]
fn point_arithmetic() {
    assert_eq!(p(3, 4) + p(10, -20), p(13, -16));
    assert_eq!(p(3, 4) - p(10, -20), p(-7, 24));
    let one = u64::MAX as i128;
    assert_eq!(p(one, -one) * UFDRNumber(u64::MAX as u128 / 2), p(one / 2, -(one / 2)));
    assert_eq!(Point::from([FDRNumber(1), FDRNumber(2)]), p(1, 2));
    assert_eq!(Size { width: UFDRNumber(7), height: UFDRNumber(10) }.centre(), p(3, 5));
    assert_eq!(
        Size::from([UFDRNumber(1), UFDRNumber(2)]),
        Size { width: UFDRNumber(1), height: UFDRNumber(2) }
    );
    let half = FDRNumber(one / 2);
    assert_eq!(Point::on_circle(UFDRNumber(u64::MAX as u128), half, FDRNumber(-one)), p(one / 2, -one));
}

#[test]
fn shape_corners() {
    let c = p(100, 200);
    assert_eq!(
        triangle_points(c, Dirn::Up, FDRNumber(10), FDRNumber(5)),
        vec![p(90, 195), p(100, 205), p(110, 195)]
    );
    assert_eq!(
        triangle_points(c, Dirn::Down, FDRNumber(10), FDRNumber(5)),
        vec![p(90, 205), p(100, 195), p(110, 205)]
    );
    assert_eq!(
        triangle_points(c, Dirn::Right, FDRNumber(10), FDRNumber(5)),
        vec![p(95, 190), p(95, 210), p(105, 200)]
    );
    assert_eq!(
        triangle_points(c, Dirn::Left, FDRNumber(10), FDRNumber(5)),
        vec![p(105, 190), p(105, 210), p(95, 200)]
    );
    assert_eq!(diamond_points(c, FDRNumber(3)), vec![p(100, 203), p(103, 200), p(100, 197), p(97, 200)]);
    assert_eq!(square_points(c, FDRNumber(3)), vec![p(97, 197), p(97, 203), p(103, 203), p(103, 197)]);
    assert_eq!(
        plus_sign_lines(c, FDRNumber(3)),
        (vec![p(100, 197), p(100, 203)], vec![p(97, 200), p(103, 200)])
    );
}

#[test]
fn drawing_shapes() {
    let recorder = Recorder::default();
    recorder.draw_isosceles(p(0, 0), Dirn::Up, UFDRNumber(20), UFDRNumber(10), true);
    recorder.draw_square(p(0, 0), UFDRNumber(6), false);
    recorder.draw_diamond(p(0, 0), UFDRNumber(6), true);
    recorder.draw_plus_sign(p(0, 0), UFDRNumber(6));
    {
        let polygons = recorder.polygons.borrow();
        assert_eq!(polygons[0], (vec![p(-10, -5), p(0, 5), p(10, -5)], true));
        assert_eq!(polygons[1], (vec![p(-3, -3), p(-3, 3), p(3, 3), p(3, -3)], false));
        assert_eq!(polygons[2], (vec![p(0, 3), p(3, 0), p(0, -3), p(-3, 0)], true));
    }
    assert_eq!(recorder.lines.borrow().len(), 2);
    // The half height of an equilateral triangle of side 2: 2 * 2.732... / 4.
    recorder.draw_equilateral(p(0, 0), Dirn::Down, UFDRNumber(2 * u64::MAX as u128), false);
    let half_height = 50397442043594580091_i128 / 2;
    let one = u64::MAX as i128;
    assert_eq!(
        recorder.polygons.borrow()[3],
        (vec![p(-one, half_height), p(0, -half_height), p(one, half_height)], false)
    );
}

#[test]
fn large_equilateral_triangles() {
    let recorder = Recorder::default();
    let one = u64::MAX as i128;
    // A side of forty units: half the height is 40 * 2.732... / 4.
    recorder.draw_equilateral(p(0, 0), Dirn::Up, UFDRNumber(40 * u64::MAX as u128), true);
    let half_height = 10 * 50397442043594580091_i128;
    assert_eq!(
        recorder.polygons.borrow()[0],
        (vec![p(-20 * one, -half_height), p(0, half_height), p(20 * one, -half_height)], true)
    );
    assert!(recorder.polygon_drawn(&recorder.polygons.borrow()[0].0, true));
}

#[test]
fn graticule_rings() {
    let recorder = Recorder::default();
    <HueWheel as Graticule>::draw_rings(4, &Zoom::default(), &recorder);
    let circles = recorder.circles.borrow();
    assert_eq!(circles.len(), 4);
    assert_eq!(circles[0].1, UFDRNumber(u64::MAX as u128 / 4));
    assert_eq!(circles[3].1, UFDRNumber::one());
    assert_eq!(recorder.line_widths.borrow()[0], UFDRNumber(184467440737095520));
}

fn shape(id: &str, colour: &HCV, shape: Shape) -> ColouredShape {
    ColouredShape::new(colour, id, &format!("tip {}", id), shape, p(u64::MAX as i128, 0))
}

fn ids(wheel: &HueWheel) -> Vec<String> {
    wheel.shapes().iter().map(|s| s.id().to_string()).collect()
}

#[test]
fn wheel_keeps_shapes_in_id_order() {
    let mut wheel = HueWheel::new();
    assert!(wheel.add_item(shape("m", &HCV::red(), Shape::Circle)).is_none());
    assert!(wheel.add_item(shape("b", &HCV::green(), Shape::Square)).is_none());
    assert!(wheel.add_item(shape("x", &HCV::blue(), Shape::Diamond)).is_none());
    assert!(wheel.add_item(shape("ba", &HCV::cyan(), Shape::Circle)).is_none());
    assert_eq!(ids(&wheel), vec!["b", "ba", "m", "x"]);
    let replaced = wheel.add_item(shape("m", &HCV::yellow(), Shape::Square)).unwrap();
    assert_eq!(replaced.id(), "m");
    assert_eq!(ids(&wheel), vec!["b", "ba", "m", "x"]);
    let removed = wheel.remove_item("ba");
    assert_eq!(removed.id(), "ba");
    assert_eq!(ids(&wheel), vec!["b", "m", "x"]);
    wheel.remove_all();
    assert!(wheel.shapes().is_empty());
}

#[test]
fn wheel_zoom_and_target() {
    let mut wheel = HueWheel::default();
    wheel.incr_zoom();
    assert_eq!(wheel.zoom().scale(), UFDRNumber(u64::MAX as u128 + u64::MAX as u128 * 25 / 1000));
    wheel.decr_zoom();
    wheel.decr_zoom();
    assert_eq!(wheel.zoom().scale(), UFDRNumber::one());
    wheel.set_target_colour(Some(&HCV::red()), p(u64::MAX as i128, 0));
    assert_eq!(wheel.target().unwrap().id(), "###target###");
    wheel.set_target_colour::<HCV>(None, p(0, 0));
    assert!(wheel.target().is_none());
}

#[test]
fn shape_positions_and_proximity() {
    let one = u64::MAX as i128;
    let red = shape("red", &HCV::red(), Shape::Circle);
    // Full chroma at the hue point (1, 0).
    assert_eq!(red.xy(ScalarAttribute::Chroma, &Zoom::default()), p(one, 0));
    // A grey stands to the left of the wheel.
    let grey = shape("grey", &HCV::black(), Shape::Square);
    assert_eq!(grey.xy(ScalarAttribute::Value, &Zoom::default()), p(-19369081277395030016, one));
    let half_side = one * 6 / 100 / 2;
    assert_eq!(
        red.proximity_for(p(0, 0), UFDRNumber(10)),
        Proximity::Enclosed(UFDRNumber(10))
    );
    assert_eq!(
        red.proximity_for(p(half_side, 0), UFDRNumber(half_side as u128)),
        Proximity::NotEnclosed(UFDRNumber(half_side as u128))
    );
    assert_eq!(
        grey.proximity_for(p(half_side - 1, -(half_side - 1)), UFDRNumber(7)),
        Proximity::Enclosed(UFDRNumber(7))
    );
    assert_eq!(
        grey.proximity_for(p(half_side, 0), UFDRNumber(7)),
        Proximity::NotEnclosed(UFDRNumber(7))
    );
    let diamond = shape("d", &HCV::blue(), Shape::Diamond);
    assert_eq!(
        diamond.proximity_for(p(half_side, half_side), UFDRNumber(9)),
        Proximity::NotEnclosed(UFDRNumber(9))
    );
    assert_eq!(
        diamond.proximity_for(p(half_side / 2, 0), UFDRNumber(9)),
        Proximity::Enclosed(UFDRNumber(9))
    );
}

#[test]
fn nearest_shape_to_a_point() {
    let one = u64::MAX as i128;
    let mut wheel = HueWheel::new();
    wheel.add_item(shape("a", &HCV::red(), Shape::Circle));
    wheel.add_item(shape("b", &HCV::red(), Shape::Circle));
    let point = p(one, 0);
    let deltas = wheel.deltas_from(point, ScalarAttribute::Chroma);
    assert_eq!(deltas, vec![p(0, 0), p(0, 0)]);
    // Equal distances: the first shape is the nearest.
    let distances = vec![UFDRNumber(5), UFDRNumber(5)];
    assert_eq!(wheel.item_at_point(point, ScalarAttribute::Chroma, &distances).unwrap().id(), "a");
    assert_eq!(wheel.tooltip_for_point(point, ScalarAttribute::Chroma, &distances), Some("tip a".to_string()));
    let distances = vec![UFDRNumber(5), UFDRNumber(4)];
    assert_eq!(wheel.item_at_point(point, ScalarAttribute::Chroma, &distances).unwrap().id(), "b");
    let far = UFDRNumber(one as u128);
    let distances = vec![far, far];
    assert!(wheel.item_at_point(point, ScalarAttribute::Chroma, &distances).is_none());
    assert_eq!(wheel.tooltip_for_point(point, ScalarAttribute::Chroma, &distances), Some("tip a".to_string()));
    assert!(HueWheel::new().tooltip_for_point(point, ScalarAttribute::Chroma, &vec![]).is_none());
}

#[test]
fn removing_a_new_shape_restores_the_wheel() {
    let mut wheel = HueWheel::new();
    wheel.add_item(shape("k", &HCV::red(), Shape::Circle));
    wheel.add_item(shape("c", &HCV::green(), Shape::Circle));
    let before = ids(&wheel);
    assert!(wheel.add_item(shape("f", &HCV::blue(), Shape::Square)).is_none());
    assert_eq!(ids(&wheel), vec!["c", "f", "k"]);
    let removed = wheel.remove_item("f");
    assert_eq!(removed.id(), "f");
    assert_eq!(ids(&wheel), before);
}
