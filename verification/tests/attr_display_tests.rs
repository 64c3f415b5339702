use std::cell::RefCell;

use colour_math::attributes::{Chroma, Value};
use colour_math::beigui::attr_display::{
    target_mark_ends, value_mark_centres, ChromaCAD, ColourAttributeDisplayIfce, GreynessCAD,
    ValueCAD, WarmthCAD,
};
use colour_math::beigui::{Dirn, Draw, DrawIsosceles, Point, Size, TextPosn};
use colour_math::fdrn::{FDRNumber, Prop, UFDRNumber};
use colour_math::hcv::HCV;
use colour_math::ColourBasics;

fn p(x: i128, y: i128) -> Point {
    Point { x: FDRNumber(x), y: FDRNumber(y) }
}

const ONE: i128 = u64::MAX as i128;

/// A drawing surface that records what it is asked to draw.
struct Recorder {
    size: Size,
    polygons: RefCell<Vec<Vec<Point>>>,
    lines: RefCell<Vec<Vec<Point>>>,
    texts: RefCell<Vec<(String, TextPosn)>>,
    gradients: RefCell<Vec<Vec<(HCV, Prop)>>>,
}

impl Recorder {
    fn new(width: i128, height: i128) -> Recorder {
        Recorder {
            size: Size { width: UFDRNumber((width * ONE) as u128), height: UFDRNumber((height * ONE) as u128) },
            polygons: RefCell::new(vec![]),
            lines: RefCell::new(vec![]),
            texts: RefCell::new(vec![]),
            gradients: RefCell::new(vec![]),
        }
    }
}

impl Draw for Recorder {
    fn surface_size(&self) -> Size {
        self.size
    }

    fn polygon_drawn(&self, polygon: &[Point], _fill: bool) -> bool {
        self.polygons.borrow().contains(&polygon.to_vec())
    }

    fn fill_colour_set(&self, _colour: HCV) -> bool {
        false
    }

    fn line_colour_set(&self, _colour: HCV) -> bool {
        false
    }

    fn text_colour_set(&self, _colour: HCV) -> bool {
        false
    }

    fn line_width_set(&self, _width: UFDRNumber) -> bool {
        false
    }

    fn line_drawn(&self, line: &[Point]) -> bool {
        self.lines.borrow().contains(&line.to_vec())
    }

    fn text_drawn(&self, text: &str, posn: TextPosn, _font_size: UFDRNumber) -> bool {
        self.texts.borrow().contains(&(text.to_string(), posn))
    }

    fn gradient_painted(&self, _posn: Point, _size: Size, colour_stops: &[(HCV, Prop)]) -> bool {
        self.gradients.borrow().contains(&colour_stops.to_vec())
    }

    fn size(&self) -> Size {
        self.size
    }

    fn draw_polygon(&self, polygon: &[Point], _fill: bool) {
        self.polygons.borrow_mut().push(polygon.to_vec());
    }

    fn set_fill_colour<C: ColourBasics>(&self, _colour: &C) {}

    fn set_line_colour<C: ColourBasics>(&self, _colour: &C) {}

    fn set_text_colour<C: ColourBasics>(&self, _colour: &C) {}

    fn set_line_width(&self, _width: UFDRNumber) {}

    fn draw_line(&self, line: &[Point]) {
        self.lines.borrow_mut().push(line.to_vec());
    }

    fn draw_text(&self, text: &str, posn: TextPosn, _font_size: UFDRNumber) {
        self.texts.borrow_mut().push((text.to_string(), posn));
    }

    fn paint_linear_gradient(&self, _posn: Point, _size: Size, colour_stops: &[(HCV, Prop)]) {
        self.gradients.borrow_mut().push(colour_stops.to_vec());
    }
}

impl DrawIsosceles for Recorder {}

#[test]
fn marks_across_a_display() {
    let size = Size { width: UFDRNumber(100 * ONE as u128), height: UFDRNumber(20 * ONE as u128) };
    let (bottom, top) = value_mark_centres(size, Prop::half());
    let x = 100 * (u64::MAX / 2) as i128;
    assert_eq!(bottom, p(x, 3 * ONE));
    assert_eq!(top, p(x, 17 * ONE));
    assert_eq!(target_mark_ends(size, Prop::one()), (p(100 * ONE, ONE), p(100 * ONE, 19 * ONE)));
}

#[test]
fn chroma_display() {
    let mut cad = ChromaCAD::new();
    assert_eq!(cad.attr_value(), None);
    assert_eq!(ChromaCAD::label(), "Chroma");
    let grey = HCV::new_grey(Value::one().div_i32(2));
    assert_eq!(cad.colour_stops(), vec![(grey, Prop::zero()), (grey, Prop::one())]);
    cad.set_colour(Some(&HCV::red()));
    assert_eq!(cad.attr_value(), Some(Prop::one()));
    assert_eq!(cad.attr_value_fg_colour(), HCV::red().best_foreground());
    assert_eq!(cad.colour_stops(), vec![(HCV::red().monochrome_hcv(), Prop::zero()), (HCV::red(), Prop::one())]);
    assert_eq!(cad.label_colour(), HCV::white());
    // A target that is not grey sets the gradient to its own.
    cad.set_target_colour(Some(&HCV::blue()));
    assert_eq!(cad.attr_target_value(), Some(Prop::one()));
    assert_eq!(cad.colour_stops(), vec![(HCV::blue().monochrome_hcv(), Prop::zero()), (HCV::blue(), Prop::one())]);
    // With a chromatic target, a new colour keeps the target's gradient.
    cad.set_colour(Some(&HCV::green()));
    assert_eq!(cad.colour_stops()[1].0, HCV::blue());
    cad.set_colour::<HCV>(None);
    assert_eq!(cad.attr_value(), None);
    assert_eq!(cad.attr_value_fg_colour(), HCV::black());
    cad.set_target_colour::<HCV>(None);
    assert_eq!(cad.attr_target_value(), None);
    // A grey colour gives a flat gradient of itself.
    cad.set_colour(Some(&grey));
    assert_eq!(cad.attr_value(), Some(Chroma::zero().prop()));
    assert_eq!(cad.colour_stops(), vec![(grey, Prop::zero()), (grey, Prop::one())]);
}

#[test]
fn greyness_display() {
    let mut cad = GreynessCAD::new();
    assert_eq!(GreynessCAD::label(), "Greyness");
    cad.set_colour(Some(&HCV::cyan()));
    assert_eq!(cad.attr_value(), Some(Prop::zero()));
    assert_eq!(cad.colour_stops(), vec![(HCV::cyan(), Prop::zero()), (HCV::cyan().monochrome_hcv(), Prop::one())]);
    cad.set_target_colour(Some(&HCV::black()));
    assert_eq!(cad.attr_target_value(), Some(Prop::one()));
    assert_eq!(cad.attr_target_value_fg_colour(), HCV::white());
}

#[test]
fn value_and_warmth_displays() {
    let mut value = ValueCAD::new();
    assert_eq!(ValueCAD::label(), "Value");
    value.set_colour(Some(&HCV::white()));
    assert_eq!(value.attr_value(), Some(Prop::one()));
    assert_eq!(value.attr_value_fg_colour(), HCV::black());
    value.set_target_colour(Some(&HCV::black()));
    assert_eq!(value.attr_target_value(), Some(Prop::zero()));
    assert_eq!(value.attr_target_value_fg_colour(), HCV::white());
    assert_eq!(value.colour_stops(), vec![(HCV::black(), Prop::zero()), (HCV::white(), Prop::one())]);

    let mut warmth = WarmthCAD::new();
    assert_eq!(WarmthCAD::label(), "Warmth");
    warmth.set_colour(Some(&HCV::red()));
    assert_eq!(warmth.attr_value(), Some(Prop(HCV::red().warmth().0)));
    assert_eq!(warmth.colour_stops().len(), 4);
    assert_eq!(warmth.colour_stops()[3], (HCV::red(), Prop::one()));
    warmth.set_colour::<HCV>(None);
    assert_eq!(warmth.attr_value(), None);
}

#[test]
fn drawing_a_display() {
    let recorder = Recorder::new(100, 20);
    let mut cad = ValueCAD::new();
    cad.set_colour(Some(&HCV::white()));
    cad.set_target_colour(Some(&HCV::black()));
    cad.draw_all(&recorder);
    assert_eq!(recorder.gradients.borrow().len(), 1);
    let lines = recorder.lines.borrow();
    assert_eq!(lines[0], vec![p(0, ONE), p(0, 19 * ONE)]);
    let polygons = recorder.polygons.borrow();
    assert_eq!(polygons.len(), 2);
    // The triangle at the bottom points up from three units up, eight wide, six high.
    assert_eq!(polygons[0], vec![p(96 * ONE, 0), p(100 * ONE, 6 * ONE), p(104 * ONE, 0)]);
    let texts = recorder.texts.borrow();
    assert_eq!(texts[0].0, "Value");
    assert_eq!(texts[0].1, TextPosn::Centre(p(50 * ONE, 10 * ONE)));
    let _ = Dirn::Up;
}

/// A display that keeps whatever it is given, to exercise the default methods.
struct PlainDisplay {
    value: Option<Prop>,
    target: Option<Prop>,
}

impl ColourAttributeDisplayIfce for PlainDisplay {
    fn label_text() -> &'static str {
        "Plain"
    }

    fn label() -> &'static str {
        "Plain"
    }

    fn new() -> Self {
        PlainDisplay { value: None, target: None }
    }

    fn set_colour<C: ColourBasics>(&mut self, colour: Option<&C>) {
        self.value = colour.map(|c| Prop(c.hcv().c_prop.0));
    }

    fn spec_attr_value(&self) -> Option<Prop> {
        self.value
    }

    fn spec_attr_value_fg_colour(&self) -> HCV {
        HCV::red()
    }

    fn spec_attr_target_value(&self) -> Option<Prop> {
        self.target
    }

    fn spec_attr_target_value_fg_colour(&self) -> HCV {
        HCV::blue()
    }

    fn attr_value(&self) -> Option<Prop> {
        self.value
    }

    fn attr_value_fg_colour(&self) -> HCV {
        HCV::red()
    }

    fn set_target_colour<C: ColourBasics>(&mut self, colour: Option<&C>) {
        self.target = colour.map(|c| Prop(c.hcv().c_prop.0));
    }

    fn attr_target_value(&self) -> Option<Prop> {
        self.target
    }

    fn attr_target_value_fg_colour(&self) -> HCV {
        HCV::blue()
    }
}

#[test]
fn default_label_colour_follows_the_marks() {
    let mut display = PlainDisplay::new();
    assert_eq!(display.label_colour(), HCV::red());
    display.set_target_colour(Some(&HCV::green()));
    assert_eq!(display.label_colour(), HCV::blue());
    display.set_colour(Some(&HCV::yellow()));
    assert_eq!(display.label_colour(), HCV::red());
    assert_eq!(display.colour_stops(), vec![(HCV::black(), Prop::zero()), (HCV::white(), Prop::one())]);
}
