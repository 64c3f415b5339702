//! Displays of one scalar attribute of a colour and of a target colour: the
//! attribute's value as a pair of triangles on a gradient, the target's as a line.
use vstd::prelude::*;

use crate::attributes::{greyness_of, Chroma, Greyness, Value, Warmth};
use crate::beigui::{isosceles_requested, line_requested, pt, room_for, Draw, DrawIsosceles, Point, Size, TextPosn, Dirn};
use crate::fdrn::{scale, FDRNumber, Prop, UFDRNumber};
use crate::hcv::{grey_of_sum, spec_best_foreground, spec_hcv_chroma, HCV};
use crate::hue::spec_sum_for_max_chroma;
use crate::ColourBasics;

verus! {

/// Black.
pub open spec fn black() -> HCV {
    grey_of_sum(UFDRNumber(0))
}

/// White.
pub open spec fn white() -> HCV {
    grey_of_sum(UFDRNumber((3 * scale()) as u128))
}

/// The grey halfway between black and white.
pub open spec fn mid_grey() -> HCV {
    grey_of_sum(UFDRNumber(((u64::MAX / 2) * 3) as u128))
}

/// The grey of a colour's value.
pub open spec fn monochrome_of(h: HCV) -> HCV {
    grey_of_sum(UFDRNumber((((h.sum.0 / 3) as u64) * 3) as u128))
}

/// The most chromatic colour of a colour's hue, if it has one.
pub open spec fn hue_hcv_of(h: HCV) -> Option<HCV> {
    match h.hue {
        Some(hue) => Some(
            HCV {
                hue: Some(hue),
                c_prop: Prop(u64::MAX),
                sum: UFDRNumber(spec_sum_for_max_chroma(hue) as u128),
            },
        ),
        None => None,
    }
}

/// The colour that shows best on a colour.
pub open spec fn foreground_of(h: HCV) -> HCV {
    spec_best_foreground(spec_hcv_chroma(h), Value((h.sum.0 / 3) as u64))
}

/// The stops of a gradient from black to white.
pub open spec fn black_to_white() -> Seq<(HCV, Prop)> {
    seq![(black(), Prop(0)), (white(), Prop(u64::MAX))]
}

/// A gradient of one colour.
pub open spec fn flat(h: HCV) -> Seq<(HCV, Prop)> {
    seq![(h, Prop(0)), (h, Prop(u64::MAX))]
}

/// The bound on the sizes of displays that are drawn.
pub open spec fn draw_bound() -> int {
    0x1000_0000_0000_0000_0000_0000_0000_0000
}

/// Where a display of the size is drawn: no side beyond the bound.
pub open spec fn drawable(size: Size) -> bool {
    size.width.0 <= draw_bound() && size.height.0 <= draw_bound()
}

/// The centres of the triangles that mark a value across a display: a triangle
/// pointing up at the bottom and one pointing down at the top, each six units high.
pub open spec fn value_marks(size: Size, value: Prop) -> (Point, Point) {
    let x = size.width.0 * value.0 / scale();
    (pt(x, 3 * scale()), pt(x, size.height.0 - 3 * scale()))
}

/// The line that marks a target value across a display, one unit from each edge.
pub open spec fn target_mark(size: Size, value: Prop) -> (Point, Point) {
    let x = size.width.0 * value.0 / scale();
    (pt(x, scale()), pt(x, size.height.0 - scale()))
}

/// The centres of the triangles that mark a value across a display.
pub fn value_mark_centres(size: Size, value: Prop) -> (res: (Point, Point))
    requires
        drawable(size),
    ensures
        res == value_marks(size, value),
        room_for(res.0, 4 * scale()),
        room_for(res.1, 4 * scale()),
{
    let x = size.width.mul_prop(value);
    proof {
        vstd::arithmetic::mul::lemma_mul_upper_bound(size.width.0 as int, draw_bound(), value.0 as int, scale());
        vstd::arithmetic::div_mod::lemma_div_is_ordered(size.width.0 * value.0, draw_bound() * scale(), scale());
        vstd::arithmetic::div_mod::lemma_div_multiples_vanish(draw_bound(), scale());
    }
    let three = 3 * u64::MAX as i128;
    (
        Point { x: FDRNumber(x.0 as i128), y: FDRNumber(three) },
        Point { x: FDRNumber(x.0 as i128), y: FDRNumber(size.height.0 as i128 - three) },
    )
}

/// The ends of the line that marks a target value across a display.
pub fn target_mark_ends(size: Size, value: Prop) -> (res: (Point, Point))
    requires
        drawable(size),
    ensures
        res == target_mark(size, value),
{
    let x = size.width.mul_prop(value);
    proof {
        vstd::arithmetic::mul::lemma_mul_upper_bound(size.width.0 as int, draw_bound(), value.0 as int, scale());
        vstd::arithmetic::div_mod::lemma_div_is_ordered(size.width.0 * value.0, draw_bound() * scale(), scale());
        vstd::arithmetic::div_mod::lemma_div_multiples_vanish(draw_bound(), scale());
    }
    let one = u64::MAX as i128;
    (
        Point { x: FDRNumber(x.0 as i128), y: FDRNumber(one) },
        Point { x: FDRNumber(x.0 as i128), y: FDRNumber(size.height.0 as i128 - one) },
    )
}

/// A display of one scalar attribute of a colour and of a target colour.
pub trait ColourAttributeDisplayIfce: Sized {
    /// The text of the display's label.
    spec fn label_text() -> &'static str;

    /// The display's label.
    fn label() -> (res: &'static str)
        ensures
            res == Self::label_text(),
    ;

    fn new() -> Self;

    fn set_colour<C: ColourBasics>(&mut self, colour: Option<&C>)
        requires
            colour matches Some(c) ==> c.spec_hcv().sum.0 <= 3 * scale(),
    ;

    /// The value of the attribute for the colour that the display holds, if any.
    spec fn spec_attr_value(&self) -> Option<Prop>;

    /// The colour in which the display marks the value.
    spec fn spec_attr_value_fg_colour(&self) -> HCV;

    /// The value of the attribute for the target colour that the display holds, if
    /// any.
    spec fn spec_attr_target_value(&self) -> Option<Prop>;

    /// The colour in which the display marks the target value.
    spec fn spec_attr_target_value_fg_colour(&self) -> HCV;

    /// The value of the attribute for the colour, if any.
    fn attr_value(&self) -> (res: Option<Prop>)
        ensures
            res == self.spec_attr_value(),
    ;

    /// The colour in which the value is marked.
    fn attr_value_fg_colour(&self) -> (res: HCV)
        ensures
            res == self.spec_attr_value_fg_colour(),
    ;

    fn set_target_colour<C: ColourBasics>(&mut self, colour: Option<&C>)
        requires
            colour matches Some(c) ==> c.spec_hcv().sum.0 <= 3 * scale(),
    ;

    /// The value of the attribute for the target colour, if any.
    fn attr_target_value(&self) -> (res: Option<Prop>)
        ensures
            res == self.spec_attr_target_value(),
    ;

    /// The colour in which the target value is marked.
    fn attr_target_value_fg_colour(&self) -> (res: HCV)
        ensures
            res == self.spec_attr_target_value_fg_colour(),
    ;

    /// The colour of the label: that of the value's mark where there is a value,
    /// else that of the target's where there is one.
    fn label_colour(&self) -> (res: HCV)
        default_ensures
            res == (match self.spec_attr_value() {
                Some(_) => self.spec_attr_value_fg_colour(),
                None => match self.spec_attr_target_value() {
                    Some(_) => self.spec_attr_target_value_fg_colour(),
                    None => self.spec_attr_value_fg_colour(),
                },
            }),
    {
        match self.attr_value() {
            Some(_) => self.attr_value_fg_colour(),
            None => match self.attr_target_value() {
                Some(_) => self.attr_target_value_fg_colour(),
                None => self.attr_value_fg_colour(),
            },
        }
    }

    /// The gradient behind the marks: black to white.
    fn colour_stops(&self) -> (res: Vec<(HCV, Prop)>)
        default_ensures
            res@ == black_to_white(),
    {
        let res = vec![(HCV::black(), Prop::zero()), (HCV::white(), Prop::one())];
        assert(res@ =~= black_to_white());
        res
    }

    /// Marks the value, if any, with a triangle eight units wide at the bottom
    /// pointing up and one at the top pointing down (see `value_mark_centres`).
    fn draw_attr_value_indicator<D: DrawIsosceles>(&self, drawer: &D)
        ensures
            self.spec_attr_value() matches Some(v) ==> drawable(drawer.surface_size()) ==> {
                let (bottom, top) = value_marks(drawer.surface_size(), v);
                let base = UFDRNumber((8 * scale()) as u128);
                let height = UFDRNumber((6 * scale()) as u128);
                &&& drawer.fill_colour_set(self.spec_attr_value_fg_colour())
                &&& drawer.line_colour_set(self.spec_attr_value_fg_colour())
                &&& isosceles_requested(drawer, bottom, Dirn::Up, base, height, true)
                &&& isosceles_requested(drawer, top, Dirn::Down, base, height, true)
            },
    {
        if let Some(attr_value) = self.attr_value() {
            let size = drawer.size();
            if size.width.0 <= 0x1000_0000_0000_0000_0000_0000_0000_0000 && size.height.0
                <= 0x1000_0000_0000_0000_0000_0000_0000_0000 {
                let (bottom, top) = value_mark_centres(size, attr_value);
                drawer.set_fill_colour(&self.attr_value_fg_colour());
                drawer.set_line_colour(&self.attr_value_fg_colour());
                let base = UFDRNumber(8 * u64::MAX as u128);
                let height = UFDRNumber(6 * u64::MAX as u128);
                drawer.draw_isosceles(bottom, Dirn::Up, base, height, true);
                drawer.draw_isosceles(top, Dirn::Down, base, height, true);
            }
        }
    }

    /// Marks the target value, if any, with a line two units wide (see
    /// `target_mark_ends`).
    fn draw_target_attr_value_indicator<D: Draw>(&self, drawer: &D)
        ensures
            self.spec_attr_target_value() matches Some(v) ==> drawable(drawer.surface_size()) ==> {
                let (start, end) = target_mark(drawer.surface_size(), v);
                &&& drawer.line_width_set(UFDRNumber((2 * scale()) as u128))
                &&& drawer.line_colour_set(self.spec_attr_target_value_fg_colour())
                &&& line_requested(drawer, seq![start, end])
            },
    {
        if let Some(attr_value) = self.attr_target_value() {
            let size = drawer.size();
            if size.width.0 <= 0x1000_0000_0000_0000_0000_0000_0000_0000 && size.height.0
                <= 0x1000_0000_0000_0000_0000_0000_0000_0000 {
                let (start, end) = target_mark_ends(size, attr_value);
                drawer.set_line_width(UFDRNumber(2 * u64::MAX as u128));
                drawer.set_line_colour(&self.attr_target_value_fg_colour());
                let line = vec![start, end];
                let line_points = line.as_slice();
                drawer.draw_line(line_points);
                assert(line_points@ == seq![start, end]);
                assert(drawer.line_drawn(line_points));
            }
        }
    }

    /// Writes the label, if any, at the centre in fifteen unit text.
    fn draw_label<D: Draw>(&self, drawer: &D)
        ensures
            Self::label_text()@.len() > 0 ==> drawer.text_drawn(
                Self::label_text(),
                TextPosn::Centre(
                    pt(drawer.surface_size().width.0 as int / 2, drawer.surface_size().height.0 as int / 2),
                ),
                UFDRNumber((15 * scale()) as u128),
            ),
    {
        let label = Self::label();
        if !label.is_empty() {
            let posn = TextPosn::Centre(drawer.size().centre());
            drawer.set_text_colour(&self.label_colour());
            drawer.draw_text(label, posn, UFDRNumber(15 * u64::MAX as u128));
        }
    }

    /// Paints the gradient over the whole display.
    fn draw_background<D: Draw>(&self, drawer: &D)
        ensures
            exists|stops: &[(HCV, Prop)]| #[trigger]
                drawer.gradient_painted(pt(0, 0), drawer.surface_size(), stops),
    {
        let posn = Point { x: FDRNumber(0), y: FDRNumber(0) };
        let size = drawer.size();
        let stops = self.colour_stops();
        let stop_slice = stops.as_slice();
        drawer.paint_linear_gradient(posn, size, stop_slice);
        assert(drawer.gradient_painted(pt(0, 0), drawer.surface_size(), stop_slice));
    }

    /// Draws the background, the target's mark, the value's mark and the label.
    fn draw_all<D: DrawIsosceles>(&self, drawer: &D)
        ensures
            exists|stops: &[(HCV, Prop)]| #[trigger]
                drawer.gradient_painted(pt(0, 0), drawer.surface_size(), stops),
            self.spec_attr_target_value() matches Some(v) ==> drawable(drawer.surface_size()) ==> {
                let (start, end) = target_mark(drawer.surface_size(), v);
                &&& drawer.line_width_set(UFDRNumber((2 * scale()) as u128))
                &&& drawer.line_colour_set(self.spec_attr_target_value_fg_colour())
                &&& line_requested(drawer, seq![start, end])
            },
            self.spec_attr_value() matches Some(v) ==> drawable(drawer.surface_size()) ==> {
                let (bottom, top) = value_marks(drawer.surface_size(), v);
                let base = UFDRNumber((8 * scale()) as u128);
                let height = UFDRNumber((6 * scale()) as u128);
                &&& drawer.fill_colour_set(self.spec_attr_value_fg_colour())
                &&& drawer.line_colour_set(self.spec_attr_value_fg_colour())
                &&& isosceles_requested(drawer, bottom, Dirn::Up, base, height, true)
                &&& isosceles_requested(drawer, top, Dirn::Down, base, height, true)
            },
            Self::label_text()@.len() > 0 ==> drawer.text_drawn(
                Self::label_text(),
                TextPosn::Centre(
                    pt(drawer.surface_size().width.0 as int / 2, drawer.surface_size().height.0 as int / 2),
                ),
                UFDRNumber((15 * scale()) as u128),
            ),
    {
        self.draw_background(drawer);
        self.draw_target_attr_value_indicator(drawer);
        self.draw_attr_value_indicator(drawer);
        self.draw_label(drawer);
    }
}

/// A copy of the stops of a gradient.
fn copy_stops(stops: &Vec<(HCV, Prop)>) -> (res: Vec<(HCV, Prop)>)
    ensures
        res@ == stops@,
{
    let mut res: Vec<(HCV, Prop)> = Vec::new();
    let mut i: usize = 0;
    while i < stops.len()
        invariant
            i <= stops.len(),
            res@ == stops@.subrange(0, i as int),
        decreases stops.len() - i,
    {
        res.push(stops[i]);
        i += 1;
        assert(res@ =~= stops@.subrange(0, i as int));
    }
    assert(stops@.subrange(0, stops@.len() as int) =~= stops@);
    res
}

/// A gradient of one colour.
fn flat_stops(hcv: HCV) -> (res: Vec<(HCV, Prop)>)
    ensures
        res@ == flat(hcv),
{
    let res = vec![(hcv, Prop::zero()), (hcv, Prop::one())];
    assert(res@ =~= flat(hcv));
    res
}

/// The grey halfway between black and white.
fn mid_grey_exec() -> (res: HCV)
    ensures
        res == mid_grey(),
{
    HCV::new_grey(Value::one().div_i32(2))
}

/// The gradient of a chroma display for a colour: from the colour's grey to its
/// hue's most chromatic colour; flat for a grey; flat middle grey for no colour.
pub open spec fn chroma_stops(colour: Option<HCV>) -> Seq<(HCV, Prop)> {
    match colour {
        Some(h) => match hue_hcv_of(h) {
            Some(end) => seq![(monochrome_of(h), Prop(0)), (end, Prop(u64::MAX))],
            None => flat(h),
        },
        None => flat(mid_grey()),
    }
}

/// The gradient of a greyness display for a colour: from its hue's most chromatic
/// colour to the colour's grey; flat for a grey; flat middle grey for no colour.
pub open spec fn greyness_stops(colour: Option<HCV>) -> Seq<(HCV, Prop)> {
    match colour {
        Some(h) => match hue_hcv_of(h) {
            Some(start) => seq![(start, Prop(0)), (monochrome_of(h), Prop(u64::MAX))],
            None => flat(h),
        },
        None => flat(mid_grey()),
    }
}

fn chroma_stops_exec(colour: Option<HCV>) -> (res: Vec<(HCV, Prop)>)
    ensures
        res@ == chroma_stops(colour),
{
    match colour {
        Some(h) => match h.hue_hcv() {
            Some(end) => {
                let res = vec![(h.monochrome_hcv(), Prop::zero()), (end, Prop::one())];
                assert(res@ =~= chroma_stops(colour));
                res
            },
            None => flat_stops(h),
        },
        None => flat_stops(mid_grey_exec()),
    }
}

fn greyness_stops_exec(colour: Option<HCV>) -> (res: Vec<(HCV, Prop)>)
    ensures
        res@ == greyness_stops(colour),
{
    match colour {
        Some(h) => match h.hue_hcv() {
            Some(start) => {
                let res = vec![(start, Prop::zero()), (h.monochrome_hcv(), Prop::one())];
                assert(res@ =~= greyness_stops(colour));
                res
            },
            None => flat_stops(h),
        },
        None => flat_stops(mid_grey_exec()),
    }
}

/// What a display of the chroma (or the greyness) holds.
pub struct ProportionCADView<A> {
    pub attr: Option<A>,
    pub target_attr: Option<A>,
    pub fg_colour: HCV,
    pub target_fg_colour: HCV,
    pub colour_stops: Seq<(HCV, Prop)>,
}

/// A display of the chroma of a colour and of a target colour.
pub struct ChromaCAD {
    chroma: Option<Chroma>,
    target_chroma: Option<Chroma>,
    chroma_fg_colour: HCV,
    target_chroma_fg_colour: HCV,
    colour_stops: Vec<(HCV, Prop)>,
}

impl View for ChromaCAD {
    type V = ProportionCADView<Chroma>;

    closed spec fn view(&self) -> ProportionCADView<Chroma> {
        ProportionCADView {
            attr: self.chroma,
            target_attr: self.target_chroma,
            fg_colour: self.chroma_fg_colour,
            target_fg_colour: self.target_chroma_fg_colour,
            colour_stops: self.colour_stops@,
        }
    }
}

/// What `ChromaCAD::set_colour` makes of the display.
pub open spec fn chroma_cad_with_colour(v: ProportionCADView<Chroma>, colour: Option<HCV>) -> ProportionCADView<Chroma> {
    match colour {
        Some(h) => ProportionCADView {
            attr: Some(spec_hcv_chroma(h)),
            fg_colour: foreground_of(h),
            colour_stops: match v.target_attr {
                Some(t) => if t == Chroma::Neither(Prop(0)) {
                    chroma_stops(colour)
                } else {
                    v.colour_stops
                },
                None => chroma_stops(colour),
            },
            ..v
        },
        None => ProportionCADView {
            attr: None,
            fg_colour: black(),
            colour_stops: if v.target_attr is None {
                chroma_stops(None)
            } else {
                v.colour_stops
            },
            ..v
        },
    }
}

/// What `ChromaCAD::set_target_colour` makes of the display.
pub open spec fn chroma_cad_with_target(v: ProportionCADView<Chroma>, colour: Option<HCV>) -> ProportionCADView<Chroma> {
    match colour {
        Some(h) => ProportionCADView {
            target_attr: Some(spec_hcv_chroma(h)),
            target_fg_colour: foreground_of(monochrome_of(h)),
            colour_stops: if h.c_prop.0 == 0 {
                match v.attr {
                    Some(c) => if c == Chroma::Neither(Prop(0)) {
                        chroma_stops(colour)
                    } else {
                        v.colour_stops
                    },
                    None => chroma_stops(colour),
                }
            } else {
                chroma_stops(colour)
            },
            ..v
        },
        None => ProportionCADView { target_attr: None, target_fg_colour: black(), ..v },
    }
}

/// The colour of a colour, if any.
pub open spec fn hcv_of<C: ColourBasics>(colour: Option<&C>) -> Option<HCV> {
    match colour {
        Some(c) => Some(c.spec_hcv()),
        None => None,
    }
}

fn hcv_of_exec<C: ColourBasics>(colour: Option<&C>) -> (res: Option<HCV>)
    ensures
        res == hcv_of(colour),
{
    match colour {
        Some(c) => Some(c.hcv()),
        None => None,
    }
}

impl ChromaCAD {
    fn set_colour_exact(&mut self, colour: Option<HCV>)
        requires
            colour matches Some(h) ==> h.sum.0 <= 3 * scale(),
        ensures
            final(self)@ == chroma_cad_with_colour(old(self)@, colour),
    {
        match colour {
            Some(h) => {
                self.chroma = Some(h.chroma());
                self.chroma_fg_colour = h.best_foreground();
                match self.target_chroma {
                    Some(target_chroma) => {
                        if target_chroma == Chroma::zero() {
                            self.colour_stops = chroma_stops_exec(colour);
                        }
                    },
                    None => {
                        self.colour_stops = chroma_stops_exec(colour);
                    },
                }
            },
            None => {
                self.chroma = None;
                self.chroma_fg_colour = HCV::black();
                if self.target_chroma.is_none() {
                    self.colour_stops = chroma_stops_exec(None);
                }
            },
        }
    }

    fn set_target_colour_exact(&mut self, colour: Option<HCV>)
        requires
            colour matches Some(h) ==> h.sum.0 <= 3 * scale(),
        ensures
            final(self)@ == chroma_cad_with_target(old(self)@, colour),
    {
        match colour {
            Some(h) => {
                self.target_chroma = Some(h.chroma());
                self.target_chroma_fg_colour = h.monochrome_hcv().best_foreground();
                if h.is_grey() {
                    match self.chroma {
                        Some(chroma) => {
                            if chroma == Chroma::zero() {
                                self.colour_stops = chroma_stops_exec(colour);
                            }
                        },
                        None => {
                            self.colour_stops = chroma_stops_exec(colour);
                        },
                    }
                } else {
                    self.colour_stops = chroma_stops_exec(colour);
                }
            },
            None => {
                self.target_chroma = None;
                self.target_chroma_fg_colour = HCV::black();
            },
        }
    }
}

/// The proportion of a chroma, if any.
pub open spec fn chroma_value_of(c: Option<Chroma>) -> Option<Prop> {
    match c {
        Some(c) => Some(crate::attributes::chroma_prop(c)),
        None => None,
    }
}

impl ColourAttributeDisplayIfce for ChromaCAD {
    open spec fn label_text() -> &'static str {
        "Chroma"
    }

    fn label() -> (res: &'static str)
        ensures
            res@ == "Chroma"@,
    {
        "Chroma"
    }

    fn new() -> (res: ChromaCAD)
        ensures
            res@.attr is None,
            res@.target_attr is None,
            res@.fg_colour == black(),
            res@.target_fg_colour == black(),
            res@.colour_stops == flat(mid_grey()),
    {
        ChromaCAD {
            chroma: None,
            target_chroma: None,
            chroma_fg_colour: HCV::black(),
            target_chroma_fg_colour: HCV::black(),
            colour_stops: flat_stops(mid_grey_exec()),
        }
    }


    fn set_colour<C: ColourBasics>(&mut self, colour: Option<&C>)
        ensures
            final(self)@ == chroma_cad_with_colour(old(self)@, hcv_of(colour)),
    {
        self.set_colour_exact(hcv_of_exec(colour));
    }

    open spec fn spec_attr_value(&self) -> Option<Prop> {
        chroma_value_of(self@.attr)
    }

    open spec fn spec_attr_value_fg_colour(&self) -> HCV {
        self@.fg_colour
    }

    open spec fn spec_attr_target_value(&self) -> Option<Prop> {
        chroma_value_of(self@.target_attr)
    }

    open spec fn spec_attr_target_value_fg_colour(&self) -> HCV {
        self@.target_fg_colour
    }

    fn attr_value(&self) -> (res: Option<Prop>)
        ensures
            res == chroma_value_of(self@.attr),
    {
        assert(self.spec_attr_value() == chroma_value_of(self@.attr));
        let res = match self.chroma {
            Some(c) => Some(c.prop()),
            None => None,
        };
        res
    }

    fn attr_value_fg_colour(&self) -> (res: HCV)
        ensures
            res == self@.fg_colour,
    {
        assert(self.spec_attr_value_fg_colour() == self@.fg_colour);
        self.chroma_fg_colour
    }

    fn set_target_colour<C: ColourBasics>(&mut self, colour: Option<&C>)
        ensures
            final(self)@ == chroma_cad_with_target(old(self)@, hcv_of(colour)),
    {
        self.set_target_colour_exact(hcv_of_exec(colour));
    }

    fn attr_target_value(&self) -> (res: Option<Prop>)
        ensures
            res == chroma_value_of(self@.target_attr),
    {
        assert(self.spec_attr_target_value() == chroma_value_of(self@.target_attr));
        let res = match self.target_chroma {
            Some(c) => Some(c.prop()),
            None => None,
        };
        res
    }

    fn attr_target_value_fg_colour(&self) -> (res: HCV)
        ensures
            res == self@.target_fg_colour,
    {
        assert(self.spec_attr_target_value_fg_colour() == self@.target_fg_colour);
        self.target_chroma_fg_colour
    }

    /// White.
    fn label_colour(&self) -> (res: HCV)
        ensures
            res == white(),
    {
        HCV::white()
    }

    /// The gradient kept for the colour and the target.
    fn colour_stops(&self) -> (res: Vec<(HCV, Prop)>)
        ensures
            res@ == self@.colour_stops,
    {
        copy_stops(&self.colour_stops)
    }
}

/// A display of the greyness of a colour and of a target colour.
pub struct GreynessCAD {
    greyness: Option<Greyness>,
    target_greyness: Option<Greyness>,
    greyness_fg_colour: HCV,
    target_greyness_fg_colour: HCV,
    colour_stops: Vec<(HCV, Prop)>,
}

impl View for GreynessCAD {
    type V = ProportionCADView<Greyness>;

    closed spec fn view(&self) -> ProportionCADView<Greyness> {
        ProportionCADView {
            attr: self.greyness,
            target_attr: self.target_greyness,
            fg_colour: self.greyness_fg_colour,
            target_fg_colour: self.target_greyness_fg_colour,
            colour_stops: self.colour_stops@,
        }
    }
}

/// What `GreynessCAD::set_colour` makes of the display.
pub open spec fn greyness_cad_with_colour(v: ProportionCADView<Greyness>, colour: Option<HCV>) -> ProportionCADView<Greyness> {
    match colour {
        Some(h) => ProportionCADView {
            attr: Some(greyness_of(spec_hcv_chroma(h))),
            fg_colour: foreground_of(h),
            colour_stops: match v.target_attr {
                Some(t) => if t == Greyness::Neither(Prop(0)) {
                    greyness_stops(colour)
                } else {
                    v.colour_stops
                },
                None => greyness_stops(colour),
            },
            ..v
        },
        None => ProportionCADView {
            attr: None,
            fg_colour: black(),
            colour_stops: if v.target_attr is None {
                greyness_stops(None)
            } else {
                v.colour_stops
            },
            ..v
        },
    }
}

/// What `GreynessCAD::set_target_colour` makes of the display.
pub open spec fn greyness_cad_with_target(v: ProportionCADView<Greyness>, colour: Option<HCV>) -> ProportionCADView<Greyness> {
    match colour {
        Some(h) => ProportionCADView {
            target_attr: Some(greyness_of(spec_hcv_chroma(h))),
            target_fg_colour: foreground_of(monochrome_of(h)),
            colour_stops: if h.c_prop.0 == 0 {
                match v.attr {
                    Some(g) => if g == Greyness::Neither(Prop(0)) {
                        greyness_stops(colour)
                    } else {
                        v.colour_stops
                    },
                    None => greyness_stops(colour),
                }
            } else {
                greyness_stops(colour)
            },
            ..v
        },
        None => ProportionCADView { target_attr: None, target_fg_colour: black(), ..v },
    }
}

/// The proportion of a greyness, if any.
pub open spec fn greyness_value_of(g: Option<Greyness>) -> Option<Prop> {
    match g {
        Some(g) => Some(crate::attributes::greyness_prop(g)),
        None => None,
    }
}

impl GreynessCAD {
    fn set_colour_exact(&mut self, colour: Option<HCV>)
        requires
            colour matches Some(h) ==> h.sum.0 <= 3 * scale(),
        ensures
            final(self)@ == greyness_cad_with_colour(old(self)@, colour),
    {
        match colour {
            Some(h) => {
                self.greyness = Some(h.greyness());
                self.greyness_fg_colour = h.best_foreground();
                match self.target_greyness {
                    Some(target_greyness) => {
                        if target_greyness == Greyness::zero() {
                            self.colour_stops = greyness_stops_exec(colour);
                        }
                    },
                    None => {
                        self.colour_stops = greyness_stops_exec(colour);
                    },
                }
            },
            None => {
                self.greyness = None;
                self.greyness_fg_colour = HCV::black();
                if self.target_greyness.is_none() {
                    self.colour_stops = greyness_stops_exec(None);
                }
            },
        }
    }

    fn set_target_colour_exact(&mut self, colour: Option<HCV>)
        requires
            colour matches Some(h) ==> h.sum.0 <= 3 * scale(),
        ensures
            final(self)@ == greyness_cad_with_target(old(self)@, colour),
    {
        match colour {
            Some(h) => {
                self.target_greyness = Some(h.greyness());
                self.target_greyness_fg_colour = h.monochrome_hcv().best_foreground();
                if h.is_grey() {
                    match self.greyness {
                        Some(greyness) => {
                            if greyness == Greyness::zero() {
                                self.colour_stops = greyness_stops_exec(colour);
                            }
                        },
                        None => {
                            self.colour_stops = greyness_stops_exec(colour);
                        },
                    }
                } else {
                    self.colour_stops = greyness_stops_exec(colour);
                }
            },
            None => {
                self.target_greyness = None;
                self.target_greyness_fg_colour = HCV::black();
            },
        }
    }
}

impl ColourAttributeDisplayIfce for GreynessCAD {
    open spec fn label_text() -> &'static str {
        "Greyness"
    }

    fn label() -> (res: &'static str)
        ensures
            res@ == "Greyness"@,
    {
        "Greyness"
    }

    fn new() -> (res: GreynessCAD)
        ensures
            res@.attr is None,
            res@.target_attr is None,
            res@.fg_colour == black(),
            res@.target_fg_colour == black(),
            res@.colour_stops == flat(mid_grey()),
    {
        GreynessCAD {
            greyness: None,
            target_greyness: None,
            greyness_fg_colour: HCV::black(),
            target_greyness_fg_colour: HCV::black(),
            colour_stops: flat_stops(mid_grey_exec()),
        }
    }


    fn set_colour<C: ColourBasics>(&mut self, colour: Option<&C>)
        ensures
            final(self)@ == greyness_cad_with_colour(old(self)@, hcv_of(colour)),
    {
        self.set_colour_exact(hcv_of_exec(colour));
    }

    open spec fn spec_attr_value(&self) -> Option<Prop> {
        greyness_value_of(self@.attr)
    }

    open spec fn spec_attr_value_fg_colour(&self) -> HCV {
        self@.fg_colour
    }

    open spec fn spec_attr_target_value(&self) -> Option<Prop> {
        greyness_value_of(self@.target_attr)
    }

    open spec fn spec_attr_target_value_fg_colour(&self) -> HCV {
        self@.target_fg_colour
    }

    fn attr_value(&self) -> (res: Option<Prop>)
        ensures
            res == greyness_value_of(self@.attr),
    {
        assert(self.spec_attr_value() == greyness_value_of(self@.attr));
        let res = match self.greyness {
            Some(g) => Some(g.prop()),
            None => None,
        };
        res
    }

    fn attr_value_fg_colour(&self) -> (res: HCV)
        ensures
            res == self@.fg_colour,
    {
        assert(self.spec_attr_value_fg_colour() == self@.fg_colour);
        self.greyness_fg_colour
    }

    fn set_target_colour<C: ColourBasics>(&mut self, colour: Option<&C>)
        ensures
            final(self)@ == greyness_cad_with_target(old(self)@, hcv_of(colour)),
    {
        self.set_target_colour_exact(hcv_of_exec(colour));
    }

    fn attr_target_value(&self) -> (res: Option<Prop>)
        ensures
            res == greyness_value_of(self@.target_attr),
    {
        assert(self.spec_attr_target_value() == greyness_value_of(self@.target_attr));
        let res = match self.target_greyness {
            Some(g) => Some(g.prop()),
            None => None,
        };
        res
    }

    fn attr_target_value_fg_colour(&self) -> (res: HCV)
        ensures
            res == self@.target_fg_colour,
    {
        assert(self.spec_attr_target_value_fg_colour() == self@.target_fg_colour);
        self.target_greyness_fg_colour
    }

    /// White.
    fn label_colour(&self) -> (res: HCV)
        ensures
            res == white(),
    {
        HCV::white()
    }

    /// The gradient kept for the colour and the target.
    fn colour_stops(&self) -> (res: Vec<(HCV, Prop)>)
        ensures
            res@ == self@.colour_stops,
    {
        copy_stops(&self.colour_stops)
    }
}

/// What a display of the value (or the warmth) holds.
pub struct ScalarCADView<A> {
    pub attr: Option<A>,
    pub target_attr: Option<A>,
    pub fg_colour: HCV,
    pub target_fg_colour: HCV,
}

/// A display of the value of a colour and of a target colour.
pub struct ValueCAD {
    value: Option<Value>,
    target_value: Option<Value>,
    value_fg_colour: HCV,
    target_value_fg_colour: HCV,
}

impl View for ValueCAD {
    type V = ScalarCADView<Value>;

    closed spec fn view(&self) -> ScalarCADView<Value> {
        ScalarCADView {
            attr: self.value,
            target_attr: self.target_value,
            fg_colour: self.value_fg_colour,
            target_fg_colour: self.target_value_fg_colour,
        }
    }
}

/// A display's value and mark colour for a colour, or none and black.
pub open spec fn with_scalar<A>(v: ScalarCADView<A>, attr: Option<A>, fg_colour: HCV) -> ScalarCADView<A> {
    ScalarCADView { attr, fg_colour, ..v }
}

/// A display's target value and mark colour for a colour, or none and black.
pub open spec fn with_target_scalar<A>(v: ScalarCADView<A>, attr: Option<A>, fg_colour: HCV) -> ScalarCADView<A> {
    ScalarCADView { target_attr: attr, target_fg_colour: fg_colour, ..v }
}

/// The value of a colour, if any.
pub open spec fn value_of_colour(colour: Option<HCV>) -> Option<Value> {
    match colour {
        Some(h) => Some(Value((h.sum.0 / 3) as u64)),
        None => None,
    }
}

/// The colour that shows best on a colour's grey, or black for no colour.
pub open spec fn grey_foreground_of(colour: Option<HCV>) -> HCV {
    match colour {
        Some(h) => foreground_of(monochrome_of(h)),
        None => black(),
    }
}

/// The proportion of a value, if any.
pub open spec fn value_prop_of(v: Option<Value>) -> Option<Prop> {
    match v {
        Some(v) => Some(Prop(v.0)),
        None => None,
    }
}

fn grey_foreground_exec(colour: Option<HCV>) -> (res: HCV)
    ensures
        res == grey_foreground_of(colour),
{
    match colour {
        Some(h) => h.monochrome_hcv().best_foreground(),
        None => HCV::black(),
    }
}

impl ColourAttributeDisplayIfce for ValueCAD {
    open spec fn label_text() -> &'static str {
        "Value"
    }

    fn label() -> (res: &'static str)
        ensures
            res@ == "Value"@,
    {
        "Value"
    }

    fn new() -> (res: ValueCAD)
        ensures
            res@.attr is None,
            res@.target_attr is None,
            res@.fg_colour == black(),
            res@.target_fg_colour == black(),
    {
        ValueCAD {
            value: None,
            target_value: None,
            value_fg_colour: HCV::black(),
            target_value_fg_colour: HCV::black(),
        }
    }


    fn set_colour<C: ColourBasics>(&mut self, colour: Option<&C>)
        ensures
            final(self)@ == with_scalar(
                old(self)@,
                value_of_colour(hcv_of(colour)),
                grey_foreground_of(hcv_of(colour)),
            ),
    {
        let colour = hcv_of_exec(colour);
        self.value = match colour {
            Some(h) => Some(h.value()),
            None => None,
        };
        self.value_fg_colour = grey_foreground_exec(colour);
    }

    open spec fn spec_attr_value(&self) -> Option<Prop> {
        value_prop_of(self@.attr)
    }

    open spec fn spec_attr_value_fg_colour(&self) -> HCV {
        self@.fg_colour
    }

    open spec fn spec_attr_target_value(&self) -> Option<Prop> {
        value_prop_of(self@.target_attr)
    }

    open spec fn spec_attr_target_value_fg_colour(&self) -> HCV {
        self@.target_fg_colour
    }

    fn attr_value(&self) -> (res: Option<Prop>)
        ensures
            res == value_prop_of(self@.attr),
    {
        assert(self.spec_attr_value() == value_prop_of(self@.attr));
        let res = match self.value {
            Some(v) => Some(Prop(v.0)),
            None => None,
        };
        res
    }

    fn attr_value_fg_colour(&self) -> (res: HCV)
        ensures
            res == self@.fg_colour,
    {
        assert(self.spec_attr_value_fg_colour() == self@.fg_colour);
        self.value_fg_colour
    }

    fn set_target_colour<C: ColourBasics>(&mut self, colour: Option<&C>)
        ensures
            final(self)@ == with_target_scalar(
                old(self)@,
                value_of_colour(hcv_of(colour)),
                grey_foreground_of(hcv_of(colour)),
            ),
    {
        let colour = hcv_of_exec(colour);
        self.target_value = match colour {
            Some(h) => Some(h.value()),
            None => None,
        };
        self.target_value_fg_colour = grey_foreground_exec(colour);
    }

    fn attr_target_value(&self) -> (res: Option<Prop>)
        ensures
            res == value_prop_of(self@.target_attr),
    {
        assert(self.spec_attr_target_value() == value_prop_of(self@.target_attr));
        let res = match self.target_value {
            Some(v) => Some(Prop(v.0)),
            None => None,
        };
        res
    }

    fn attr_target_value_fg_colour(&self) -> (res: HCV)
        ensures
            res == self@.target_fg_colour,
    {
        assert(self.spec_attr_target_value_fg_colour() == self@.target_fg_colour);
        self.target_value_fg_colour
    }

    /// White.
    fn label_colour(&self) -> (res: HCV)
        ensures
            res == white(),
    {
        HCV::white()
    }
}

/// A display of the warmth of a colour and of a target colour.
pub struct WarmthCAD {
    warmth: Option<Warmth>,
    target_warmth: Option<Warmth>,
    warmth_fg_colour: HCV,
    target_warmth_fg_colour: HCV,
}

impl View for WarmthCAD {
    type V = ScalarCADView<Warmth>;

    closed spec fn view(&self) -> ScalarCADView<Warmth> {
        ScalarCADView {
            attr: self.warmth,
            target_attr: self.target_warmth,
            fg_colour: self.warmth_fg_colour,
            target_fg_colour: self.target_warmth_fg_colour,
        }
    }
}

/// The warmth of a colour, if any.
pub open spec fn warmth_of_colour(colour: Option<HCV>) -> Option<Warmth> {
    match colour {
        Some(h) => Some(HCV::spec_warmth(h)),
        None => None,
    }
}

/// The proportion of a warmth, if any.
pub open spec fn warmth_prop_of(w: Option<Warmth>) -> Option<Prop> {
    match w {
        Some(w) => Some(Prop(w.0)),
        None => None,
    }
}

/// The stops of the warmth gradient: white, cyan at a quarter, the middle grey at
/// a half, and red.
pub open spec fn warmth_stops() -> Seq<(HCV, Prop)> {
    seq![
        (white(), Prop(0)),
        (
            HCV {
                hue: Some(crate::hue::Hue::Secondary(crate::hue::CMYHue::Cyan)),
                c_prop: Prop(u64::MAX),
                sum: UFDRNumber((2 * scale()) as u128),
            },
            Prop(u64::MAX / 4),
        ),
        (mid_grey(), Prop(u64::MAX / 2)),
        (
            HCV {
                hue: Some(crate::hue::Hue::Primary(crate::hue::RGBHue::Red)),
                c_prop: Prop(u64::MAX),
                sum: UFDRNumber(scale() as u128),
            },
            Prop(u64::MAX),
        ),
    ]
}

impl ColourAttributeDisplayIfce for WarmthCAD {
    open spec fn label_text() -> &'static str {
        "Warmth"
    }

    fn label() -> (res: &'static str)
        ensures
            res@ == "Warmth"@,
    {
        "Warmth"
    }

    fn new() -> (res: WarmthCAD)
        ensures
            res@.attr is None,
            res@.target_attr is None,
            res@.fg_colour == black(),
            res@.target_fg_colour == black(),
    {
        WarmthCAD {
            warmth: None,
            target_warmth: None,
            warmth_fg_colour: HCV::black(),
            target_warmth_fg_colour: HCV::black(),
        }
    }


    fn set_colour<C: ColourBasics>(&mut self, colour: Option<&C>)
        ensures
            final(self)@ == with_scalar(
                old(self)@,
                warmth_of_colour(hcv_of(colour)),
                grey_foreground_of(hcv_of(colour)),
            ),
    {
        let colour = hcv_of_exec(colour);
        self.warmth = match colour {
            Some(h) => Some(h.warmth()),
            None => None,
        };
        self.warmth_fg_colour = grey_foreground_exec(colour);
    }

    open spec fn spec_attr_value(&self) -> Option<Prop> {
        warmth_prop_of(self@.attr)
    }

    open spec fn spec_attr_value_fg_colour(&self) -> HCV {
        self@.fg_colour
    }

    open spec fn spec_attr_target_value(&self) -> Option<Prop> {
        warmth_prop_of(self@.target_attr)
    }

    open spec fn spec_attr_target_value_fg_colour(&self) -> HCV {
        self@.target_fg_colour
    }

    fn attr_value(&self) -> (res: Option<Prop>)
        ensures
            res == warmth_prop_of(self@.attr),
    {
        assert(self.spec_attr_value() == warmth_prop_of(self@.attr));
        let res = match self.warmth {
            Some(w) => Some(Prop(w.0)),
            None => None,
        };
        res
    }

    fn attr_value_fg_colour(&self) -> (res: HCV)
        ensures
            res == self@.fg_colour,
    {
        assert(self.spec_attr_value_fg_colour() == self@.fg_colour);
        self.warmth_fg_colour
    }

    fn set_target_colour<C: ColourBasics>(&mut self, colour: Option<&C>)
        ensures
            final(self)@ == with_target_scalar(
                old(self)@,
                warmth_of_colour(hcv_of(colour)),
                grey_foreground_of(hcv_of(colour)),
            ),
    {
        let colour = hcv_of_exec(colour);
        self.target_warmth = match colour {
            Some(h) => Some(h.warmth()),
            None => None,
        };
        self.target_warmth_fg_colour = grey_foreground_exec(colour);
    }

    fn attr_target_value(&self) -> (res: Option<Prop>)
        ensures
            res == warmth_prop_of(self@.target_attr),
    {
        assert(self.spec_attr_target_value() == warmth_prop_of(self@.target_attr));
        let res = match self.target_warmth {
            Some(w) => Some(Prop(w.0)),
            None => None,
        };
        res
    }

    fn attr_target_value_fg_colour(&self) -> (res: HCV)
        ensures
            res == self@.target_fg_colour,
    {
        assert(self.spec_attr_target_value_fg_colour() == self@.target_fg_colour);
        self.target_warmth_fg_colour
    }

    /// White.
    fn label_colour(&self) -> (res: HCV)
        ensures
            res == white(),
    {
        HCV::white()
    }

    /// White, cyan at a quarter, the middle grey at a half, and red.
    fn colour_stops(&self) -> (res: Vec<(HCV, Prop)>)
        ensures
            res@ == warmth_stops(),
    {
        let res = vec![
            (HCV::white(), Prop::zero()),
            (HCV::cyan(), Prop(u64::MAX / 4)),
            (mid_grey_exec(), Prop::half()),
            (HCV::red(), Prop::one()),
        ];
        assert(res@ =~= warmth_stops());
        res
    }
}

} // verus!
