//! Red, green and blue components as unsigned integers of eight or sixteen bits.
use vstd::prelude::*;

use crate::notation::{
    append_chars, chars_of, components_in, digits_in, digits_value, first_fields_match,
    first_pango_match, hex_text, hex_text_exec, is_hex_digit, lemma_hex_in_text,
    lemma_hex_text_value, lit_at, make_notation, notation_of, pango_match_at, pow16,
    read_components, read_components_exec, string_from_chars, NotationView, NumberForm,
};

verus! {

/// An unsigned integer that holds a colour component, zero for none of it and the
/// type's maximum for all of it.
pub trait UnsignedComponent: Copy + Sized {
    /// The component's value.
    spec fn spec_value(self) -> int;

    /// The type's largest value.
    spec fn spec_max() -> int;

    /// The type's width in bytes.
    spec fn spec_bytes() -> int;

    fn value_u64(self) -> (res: u64)
        ensures
            res == self.spec_value(),
    ;

    fn max_value() -> (res: Self)
        ensures
            res.spec_value() == Self::spec_max(),
    ;

    fn zero_value() -> (res: Self)
        ensures
            res.spec_value() == 0,
    ;

    fn bytes() -> (res: usize)
        ensures
            res == Self::spec_bytes(),
    ;

    /// The component with the given value, where it fits.
    spec fn spec_from_value(v: int) -> Self;

    fn from_value(v: u64) -> (res: Self)
        requires
            v <= Self::spec_max(),
        ensures
            res == Self::spec_from_value(v as int),
            res.spec_value() == v,
    ;

    proof fn lemma_value_bounds(self)
        ensures
            0 <= self.spec_value() <= Self::spec_max(),
    ;

    proof fn lemma_value_injective(self, other: Self)
        requires
            self.spec_value() == other.spec_value(),
        ensures
            self == other,
    ;

    proof fn lemma_width()
        ensures
            Self::spec_bytes() == 1 && Self::spec_max() == 255 || Self::spec_bytes() == 2
                && Self::spec_max() == 65535,
    ;
}

impl UnsignedComponent for u8 {
    open spec fn spec_value(self) -> int {
        self as int
    }

    open spec fn spec_max() -> int {
        255
    }

    open spec fn spec_bytes() -> int {
        1
    }

    open spec fn spec_from_value(v: int) -> u8 {
        v as u8
    }

    fn value_u64(self) -> (res: u64) {
        self as u64
    }

    fn max_value() -> (res: Self) {
        u8::MAX
    }

    fn zero_value() -> (res: Self) {
        0
    }

    fn bytes() -> (res: usize) {
        1
    }

    fn from_value(v: u64) -> (res: Self) {
        v as u8
    }

    proof fn lemma_value_bounds(self) {
    }

    proof fn lemma_value_injective(self, other: Self) {
    }

    proof fn lemma_width() {
    }
}

impl UnsignedComponent for u16 {
    open spec fn spec_value(self) -> int {
        self as int
    }

    open spec fn spec_max() -> int {
        65535
    }

    open spec fn spec_bytes() -> int {
        2
    }

    open spec fn spec_from_value(v: int) -> u16 {
        v as u16
    }

    fn value_u64(self) -> (res: u64) {
        self as u64
    }

    fn max_value() -> (res: Self) {
        u16::MAX
    }

    fn zero_value() -> (res: Self) {
        0
    }

    fn bytes() -> (res: usize) {
        2
    }

    fn from_value(v: u64) -> (res: Self) {
        v as u16
    }

    proof fn lemma_value_bounds(self) {
    }

    proof fn lemma_value_injective(self, other: Self) {
    }

    proof fn lemma_width() {
    }
}

/// A value of a component whose largest value is `from_max` rescaled to one whose
/// largest is `to_max`, rounded to the nearest.
pub open spec fn rescaled(v: int, from_max: int, to_max: int) -> int {
    (2 * v * to_max + from_max) / (2 * from_max)
}

/// A component of type `V` as a component of type `U`.
pub open spec fn converted<U: UnsignedComponent, V: UnsignedComponent>(v: V) -> int {
    rescaled(v.spec_value(), V::spec_max(), U::spec_max())
}

/// A rescaled component stays within the new range, and a component keeps its value
/// where the ranges are equal.
proof fn lemma_rescaled(v: int, from_max: int, to_max: int)
    requires
        0 <= v <= from_max,
        from_max > 0,
        to_max >= 0,
    ensures
        0 <= rescaled(v, from_max, to_max) <= to_max,
        from_max == to_max ==> rescaled(v, from_max, to_max) == v,
{
    let num = 2 * v * to_max + from_max;
    let den = 2 * from_max;
    assert(0 <= num) by (nonlinear_arith)
        requires
            v >= 0,
            to_max >= 0,
            from_max > 0,
            num == 2 * v * to_max + from_max,
    ;
    assert(num < den * (to_max + 1)) by (nonlinear_arith)
        requires
            v <= from_max,
            to_max >= 0,
            from_max > 0,
            num == 2 * v * to_max + from_max,
            den == 2 * from_max,
    ;
    vstd::arithmetic::div_mod::lemma_div_pos_is_pos(num, den);
    vstd::arithmetic::div_mod::lemma_div_by_multiple_is_strongly_ordered(
        num,
        den * (to_max + 1),
        to_max + 1,
        den,
    );
    vstd::arithmetic::div_mod::lemma_div_multiples_vanish(to_max + 1, den);
    vstd::arithmetic::mul::lemma_mul_is_commutative(den, to_max + 1);
    if from_max == to_max {
        assert(num == den * v + from_max) by (nonlinear_arith)
            requires
                num == 2 * v * to_max + from_max,
                den == 2 * from_max,
                from_max == to_max,
        ;
        vstd::arithmetic::div_mod::lemma_fundamental_div_mod_converse(num, den, v, from_max);
    }
}

/// Round trip: an eight bit component widened to sixteen bits and narrowed back is
/// itself.
pub proof fn lemma_widen_narrow_round_trip(v: int)
    requires
        0 <= v <= 255,
    ensures
        rescaled(v, 255, 65535) == v * 257,
        rescaled(rescaled(v, 255, 65535), 65535, 255) == v,
{
    assert(2 * v * 65535 + 255 == 510 * (v * 257) + 255) by (nonlinear_arith);
    vstd::arithmetic::div_mod::lemma_fundamental_div_mod_converse(
        2 * v * 65535 + 255,
        510,
        v * 257,
        255,
    );
    assert(2 * (v * 257) * 255 + 65535 == 131070 * v + 65535) by (nonlinear_arith);
    vstd::arithmetic::div_mod::lemma_fundamental_div_mod_converse(
        2 * (v * 257) * 255 + 65535,
        131070,
        v,
        65535,
    );
}

/// Converts a component of one width to another, rounding to the nearest.
pub fn convert_component<U: UnsignedComponent, V: UnsignedComponent>(v: V) -> (res: U)
    ensures
        res.spec_value() == converted::<U, V>(v),
        res == U::spec_from_value(converted::<U, V>(v)),
{
    proof {
        U::lemma_width();
        V::lemma_width();
        v.lemma_value_bounds();
        lemma_rescaled(v.spec_value(), V::spec_max(), U::spec_max());
    }
    if U::bytes() == V::bytes() {
        U::from_value(v.value_u64())
    } else {
        let value = v.value_u64();
        let from_max = V::max_value().value_u64();
        let to_max = U::max_value().value_u64();
        proof {
            vstd::arithmetic::mul::lemma_mul_upper_bound(
                value as int,
                65535,
                to_max as int,
                65535,
            );
        }
        U::from_value((2 * value * to_max + from_max) / (2 * from_max))
    }
}

/// Red, green and blue components as unsigned integers.
#[derive(Clone, Copy, Debug, PartialEq, Eq, Hash, Default, PartialOrd, Ord)]
pub struct URGB<U: UnsignedComponent>(pub [U; 3]);

impl<U: UnsignedComponent> URGB<U> {
    /// The components, red first.
    pub fn iter(&self) -> (res: Vec<U>)
        ensures
            res@ == seq![self.0[0], self.0[1], self.0[2]],
    {
        let mut res: Vec<U> = Vec::new();
        res.push(self.0[0]);
        res.push(self.0[1]);
        res.push(self.0[2]);
        assert(res@ =~= seq![self.0[0], self.0[1], self.0[2]]);
        res
    }

    /// The colour in Pango's notation: `#` and two uppercase hexadecimal digits for
    /// each eight bit component.
    pub fn pango_string(&self) -> (res: String)
        ensures
            res@ == pango_text(
                seq![
                    converted::<u8, U>(self.0[0]),
                    converted::<u8, U>(self.0[1]),
                    converted::<u8, U>(self.0[2]),
                ],
            ),
    {
        let red: u8 = convert_component(self.0[0]);
        let green: u8 = convert_component(self.0[1]);
        let blue: u8 = convert_component(self.0[2]);
        let mut text: Vec<char> = Vec::new();
        text.push('#');
        assert(text@ =~= seq!['#']);
        append_chars(&mut text, &hex_text_exec(red as u64, 2));
        append_chars(&mut text, &hex_text_exec(green as u64, 2));
        append_chars(&mut text, &hex_text_exec(blue as u64, 2));
        proof {
            lemma_pango_text3(red as int, green as int, blue as int);
        }
        string_from_chars(&text)
    }

    /// The components as an array.
    pub fn to_array(&self) -> (res: [U; 3])
        ensures
            res == self.0,
    {
        self.0
    }

    /// The components as a tuple.
    pub fn to_tuple(&self) -> (res: (U, U, U))
        ensures
            res == (self.0[0], self.0[1], self.0[2]),
    {
        (self.0[0], self.0[1], self.0[2])
    }

    /// A component by its index: red, green, blue.
    pub fn component(&self, index: u8) -> (res: U)
        requires
            index < 3,
        ensures
            res == self.0[index as int],
    {
        self.0[index as usize]
    }

    fn from_parts(red: U, green: U, blue: U) -> (res: URGB<U>)
        ensures
            res.0 == [red, green, blue],
    {
        URGB([red, green, blue])
    }

    pub fn red() -> (res: URGB<U>)
        ensures
            res.0[0].spec_value() == U::spec_max() && res.0[1].spec_value() == 0
                && res.0[2].spec_value() == 0,
    {
        Self::from_parts(U::max_value(), U::zero_value(), U::zero_value())
    }

    pub fn green() -> (res: URGB<U>)
        ensures
            res.0[0].spec_value() == 0 && res.0[1].spec_value() == U::spec_max()
                && res.0[2].spec_value() == 0,
    {
        Self::from_parts(U::zero_value(), U::max_value(), U::zero_value())
    }

    pub fn blue() -> (res: URGB<U>)
        ensures
            res.0[0].spec_value() == 0 && res.0[1].spec_value() == 0
                && res.0[2].spec_value() == U::spec_max(),
    {
        Self::from_parts(U::zero_value(), U::zero_value(), U::max_value())
    }

    pub fn cyan() -> (res: URGB<U>)
        ensures
            res.0[0].spec_value() == 0 && res.0[1].spec_value() == U::spec_max()
                && res.0[2].spec_value() == U::spec_max(),
    {
        Self::from_parts(U::zero_value(), U::max_value(), U::max_value())
    }

    pub fn magenta() -> (res: URGB<U>)
        ensures
            res.0[0].spec_value() == U::spec_max() && res.0[1].spec_value() == 0
                && res.0[2].spec_value() == U::spec_max(),
    {
        Self::from_parts(U::max_value(), U::zero_value(), U::max_value())
    }

    pub fn yellow() -> (res: URGB<U>)
        ensures
            res.0[0].spec_value() == U::spec_max() && res.0[1].spec_value() == U::spec_max()
                && res.0[2].spec_value() == 0,
    {
        Self::from_parts(U::max_value(), U::max_value(), U::zero_value())
    }

    /// The components that stand for white here: all zero.
    pub fn white() -> (res: URGB<U>)
        ensures
            res.0[0].spec_value() == 0 && res.0[1].spec_value() == 0 && res.0[2].spec_value()
                == 0,
    {
        Self::from_parts(U::zero_value(), U::zero_value(), U::zero_value())
    }

    /// The components that stand for black here: all at their maximum.
    pub fn black() -> (res: URGB<U>)
        ensures
            res.0[0].spec_value() == U::spec_max() && res.0[1].spec_value() == U::spec_max()
                && res.0[2].spec_value() == U::spec_max(),
    {
        Self::from_parts(U::max_value(), U::max_value(), U::max_value())
    }
}

/// `#` followed by two uppercase hexadecimal digits for each component.
pub open spec fn pango_text(components: Seq<int>) -> Seq<char>
    decreases components.len(),
{
    if components.len() == 0 {
        seq!['#']
    } else {
        pango_text(components.drop_last()) + hex_text(components.last(), 2)
    }
}

/// The Pango text of three components.
pub(crate) proof fn lemma_pango_text3(r: int, g: int, b: int)
    ensures
        pango_text(seq![r, g, b]) == seq!['#'] + hex_text(r, 2) + hex_text(g, 2) + hex_text(b, 2),
{
    assert(seq![r, g, b].drop_last() =~= seq![r, g]);
    assert(seq![r, g].drop_last() =~= seq![r]);
    assert(seq![r].drop_last() =~= Seq::<int>::empty());
    assert(pango_text(Seq::<int>::empty()) == seq!['#']);
    assert(pango_text(seq![r]) == seq!['#'] + hex_text(r, 2));
    assert(pango_text(seq![r, g]) == seq!['#'] + hex_text(r, 2) + hex_text(g, 2));
}

/// No notation of named components matches at or after position `i` of a text in
/// which the first character of its tag does not occur.
proof fn lemma_no_fields_match(s: Seq<char>, i: int, n: NotationView)
    requires
        n.tag.len() > 0,
        forall|k: int| 0 <= k < s.len() ==> #[trigger] s[k] != n.tag[0],
    ensures
        first_fields_match(s, i, n) is None,
    decreases s.len() + 1 - i,
{
    if 0 <= i <= s.len() {
        if lit_at(s, i, n.tag) {
            assert(s.subrange(i, i + n.tag.len())[0] == s[i]);
        }
        lemma_no_fields_match(s, i + 1, n);
    }
}

/// The Pango text of three components below 256 is `#` and six hexadecimal digits
/// that read back, two by two, as the components.
proof fn lemma_pango_text3_digits(r: int, g: int, b: int)
    requires
        0 <= r < 256,
        0 <= g < 256,
        0 <= b < 256,
    ensures
        ({
            let s = pango_text(seq![r, g, b]);
            &&& s.len() == 7
            &&& s[0] == '#'
            &&& digits_in(s, 1, 6, true)
            &&& digits_value(s, 1, 2, 16) == r
            &&& digits_value(s, 3, 2, 16) == g
            &&& digits_value(s, 5, 2, 16) == b
        }),
{
    lemma_pango_text3(r, g, b);
    let s = pango_text(seq![r, g, b]);
    lemma_hex_text_value(r, 2);
    lemma_hex_text_value(g, 2);
    lemma_hex_text_value(b, 2);
    assert(pow16(2) == 256) by {
        reveal_with_fuel(pow16, 3);
    }
    assert(s.subrange(1, 3) =~= hex_text(r, 2));
    assert(s.subrange(3, 5) =~= hex_text(g, 2));
    assert(s.subrange(5, 7) =~= hex_text(b, 2));
    lemma_hex_in_text(s, 1, r, 2);
    lemma_hex_in_text(s, 3, g, 2);
    lemma_hex_in_text(s, 5, b, 2);
}

/// Round trip: the Pango string of a colour reads back, as an eight bit colour, as
/// its components narrowed to eight bits.
pub proof fn lemma_pango_text_round_trip<U: UnsignedComponent>(c: URGB<U>)
    ensures
        ({
            let v = seq![
                converted::<u8, U>(c.0[0]),
                converted::<u8, U>(c.0[1]),
                converted::<u8, U>(c.0[2]),
            ];
            let s = pango_text(v);
            text_outcome(s, rgb8_found(s), 255) == Ok::<Seq<int>, Seq<char>>(v)
        }),
{
    U::lemma_width();
    c.0[0].lemma_value_bounds();
    c.0[1].lemma_value_bounds();
    c.0[2].lemma_value_bounds();
    let r = converted::<u8, U>(c.0[0]);
    let g = converted::<u8, U>(c.0[1]);
    let b = converted::<u8, U>(c.0[2]);
    lemma_rescaled(c.0[0].spec_value(), U::spec_max(), 255);
    lemma_rescaled(c.0[1].spec_value(), U::spec_max(), 255);
    lemma_rescaled(c.0[2].spec_value(), U::spec_max(), 255);
    let v = seq![r, g, b];
    let s = pango_text(v);
    lemma_pango_text3_digits(r, g, b);
    reveal_strlit("RGB");
    let hex = notation_of("RGB"@, "8"@, 3, NumberForm { hex: true, width: 2 });
    let dec = notation_of("RGB"@, "8"@, 3, NumberForm { hex: false, width: 3 });
    assert forall|k: int| 0 <= k < s.len() implies #[trigger] s[k] != 'R' by {
        if k > 0 {
            assert(is_hex_digit(s[k]));
        }
    }
    lemma_no_fields_match(s, 0, hex);
    lemma_no_fields_match(s, 0, dec);
    assert(lit_at(s, 0, seq!['#'])) by {
        assert(s.subrange(0, 1) =~= seq!['#']);
    }
    let found = Seq::new(3, |k: int| digits_value(s, 1 + 2 * k, 2, 16));
    assert(pango_match_at(s, 0, 3) == Some(found));
    assert(found =~= v);
    assert(read_components(Some(v), 255) == Ok::<Seq<int>, bool>(v));
}

impl<U: UnsignedComponent> From<[U; 3]> for URGB<U> {
    fn from(array: [U; 3]) -> (res: URGB<U>)
        ensures
            res.0 == array,
    {
        URGB(array)
    }
}

impl<U: UnsignedComponent> vstd::std_specs::convert::FromSpecImpl<[U; 3]> for URGB<U> {
    open spec fn obeys_from_spec() -> bool {
        true
    }

    open spec fn from_spec(arg: [U; 3]) -> URGB<U> {
        URGB(arg)
    }
}

impl<U: UnsignedComponent> From<(U, U, U)> for URGB<U> {
    fn from(tuple: (U, U, U)) -> (res: URGB<U>)
        ensures
            res.0 == [tuple.0, tuple.1, tuple.2],
    {
        URGB([tuple.0, tuple.1, tuple.2])
    }
}

impl<U: UnsignedComponent> vstd::std_specs::convert::FromSpecImpl<(U, U, U)> for URGB<U> {
    open spec fn obeys_from_spec() -> bool {
        true
    }

    open spec fn from_spec(arg: (U, U, U)) -> URGB<U> {
        URGB([arg.0, arg.1, arg.2])
    }
}

impl<U: UnsignedComponent, V: UnsignedComponent> From<&URGB<V>> for URGB<U> {
    /// Each component rescaled to the new width, rounded to the nearest; unchanged
    /// where the widths are equal.
    fn from(urgb: &URGB<V>) -> (res: URGB<U>)
        ensures
            res.0[0].spec_value() == converted::<U, V>(urgb.0[0]),
            res.0[1].spec_value() == converted::<U, V>(urgb.0[1]),
            res.0[2].spec_value() == converted::<U, V>(urgb.0[2]),
    {
        URGB([convert_component(urgb.0[0]), convert_component(urgb.0[1]), convert_component(urgb.0[2])])
    }
}

impl<U: UnsignedComponent, V: UnsignedComponent> vstd::std_specs::convert::FromSpecImpl<&URGB<V>> for URGB<U> {
    open spec fn obeys_from_spec() -> bool {
        true
    }

    open spec fn from_spec(arg: &URGB<V>) -> URGB<U> {
        URGB(
            [
                U::spec_from_value(converted::<U, V>(arg.0[0])),
                U::spec_from_value(converted::<U, V>(arg.0[1])),
                U::spec_from_value(converted::<U, V>(arg.0[2])),
            ],
        )
    }
}

/// An error in the text of a colour.
#[derive(Debug)]
pub enum URGBError {
    MalformedText(String),
}

/// The message for a component too large for its type.
pub open spec fn too_large_message() -> Seq<char> {
    "number too large to fit in target type"@
}

/// What reading a colour from a text gives for the components found in it: the
/// components where they fit below `max`, the text itself as the message where no
/// notation matched, and `too_large_message` where a component is too large.
pub open spec fn text_outcome(text: Seq<char>, found: Option<Seq<int>>, max: int) -> Result<Seq<int>, Seq<char>> {
    match read_components(found, max) {
        Ok(vs) => Ok(vs),
        Err(too_large) => if too_large {
            Err(too_large_message())
        } else {
            Err(text)
        },
    }
}

/// The eight bit hexadecimal, eight bit decimal and Pango notations of three
/// components, in the order in which they are tried.
pub open spec fn rgb8_found(text: Seq<char>) -> Option<Seq<int>> {
    components_in(
        text,
        notation_of("RGB"@, "8"@, 3, NumberForm { hex: true, width: 2 }),
        notation_of("RGB"@, "8"@, 3, NumberForm { hex: false, width: 3 }),
        3,
    )
}

/// The sixteen bit hexadecimal and decimal notations of three components, in the
/// order in which they are tried.
pub open spec fn rgb16_found(text: Seq<char>) -> Option<Seq<int>> {
    components_in(
        text,
        notation_of("RGB"@, "16"@, 3, NumberForm { hex: true, width: 4 }),
        notation_of("RGB"@, "16"@, 3, NumberForm { hex: false, width: 5 }),
        0,
    )
}

/// Reads three components in the notations for the given width.
pub(crate) fn read_rgb(text: &str, sixteen: bool) -> (res: Result<[u64; 3], String>)
    ensures
        ({
            let outcome = text_outcome(
                text@,
                if sixteen {
                    rgb16_found(text@)
                } else {
                    rgb8_found(text@)
                },
                if sixteen {
                    65535
                } else {
                    255
                },
            );
            match res {
                Ok(vs) => outcome == Ok::<Seq<int>, Seq<char>>(seq![vs[0] as int, vs[1] as int, vs[2] as int]),
                Err(message) => outcome == Err::<Seq<int>, Seq<char>>(message@),
            }
        }),
{
    let (size, hex_width, dec_width, pango, max): (&str, usize, usize, usize, u64) = if sixteen {
        ("16", 4, 5, 0, 65535)
    } else {
        ("8", 2, 3, 3, 255)
    };
    let hex = make_notation("RGB", size, 3, NumberForm { hex: true, width: hex_width });
    let dec = make_notation("RGB", size, 3, NumberForm { hex: false, width: dec_width });
    match read_components_exec(text, &hex, &dec, pango, max) {
        Ok(vs) => {
            assert(vs@.map_values(|v: u64| v as int) =~= seq![vs@[0] as int, vs@[1] as int, vs@[2] as int]);
            Ok([vs[0], vs[1], vs[2]])
        },
        Err(too_large) => {
            if too_large {
                Err("number too large to fit in target type".to_owned())
            } else {
                Err(text.to_owned())
            }
        },
    }
}

impl URGB<u8> {
    /// Reads a colour from a text in the first notation that matches anywhere in it:
    /// `RGB8(red=0xF8, green=0xA0, blue=0xF6)` (the size and the labels optional),
    /// then `RGB8(248, 160, 246)`, then `#F8A0F6`.
    pub fn from_text(text: &str) -> (res: Result<URGB<u8>, URGBError>)
        ensures
            match text_outcome(text@, rgb8_found(text@), 255) {
                Ok(vs) => res matches Ok(urgb) && urgb.0[0] == vs[0] && urgb.0[1] == vs[1]
                    && urgb.0[2] == vs[2],
                Err(message) => res matches Err(URGBError::MalformedText(m)) && m@ == message,
            },
    {
        match read_rgb(text, false) {
            Ok(vs) => Ok(URGB([vs[0] as u8, vs[1] as u8, vs[2] as u8])),
            Err(message) => Err(URGBError::MalformedText(message)),
        }
    }
}

impl URGB<u16> {
    /// Reads a colour from a text in the first notation that matches anywhere in it:
    /// `RGB16(red=0xF800, green=0xFA00, blue=0xF600)` (the size and the labels
    /// optional), then `RGB16(63488, 64000, 62976)`.
    pub fn from_text(text: &str) -> (res: Result<URGB<u16>, URGBError>)
        ensures
            match text_outcome(text@, rgb16_found(text@), 65535) {
                Ok(vs) => res matches Ok(urgb) && urgb.0[0] == vs[0] && urgb.0[1] == vs[1]
                    && urgb.0[2] == vs[2],
                Err(message) => res matches Err(URGBError::MalformedText(m)) && m@ == message,
            },
    {
        match read_rgb(text, true) {
            Ok(vs) => Ok(URGB([vs[0] as u16, vs[1] as u16, vs[2] as u16])),
            Err(message) => Err(URGBError::MalformedText(message)),
        }
    }

    /// The colour as `URGB<u16>(red=0xF800, green=0xFA00, blue=0xF600)`.
    pub fn to_string(&self) -> (res: String)
        ensures
            res@ == "URGB<u16>(red=0x"@ + hex_text(self.0[0] as int, 4) + ", green=0x"@
                + hex_text(self.0[1] as int, 4) + ", blue=0x"@ + hex_text(self.0[2] as int, 4)
                + ")"@,
    {
        let mut text = chars_of("URGB<u16>(red=0x");
        append_chars(&mut text, &hex_text_exec(self.0[0] as u64, 4));
        append_chars(&mut text, &chars_of(", green=0x"));
        append_chars(&mut text, &hex_text_exec(self.0[1] as u64, 4));
        append_chars(&mut text, &chars_of(", blue=0x"));
        append_chars(&mut text, &hex_text_exec(self.0[2] as u64, 4));
        append_chars(&mut text, &chars_of(")"));
        string_from_chars(&text)
    }
}

impl core::str::FromStr for URGB<u8> {
    type Err = URGBError;

    fn from_str(text: &str) -> (res: Result<URGB<u8>, URGBError>)
        ensures
            match text_outcome(text@, rgb8_found(text@), 255) {
                Ok(vs) => res matches Ok(urgb) && urgb.0[0] == vs[0] && urgb.0[1] == vs[1]
                    && urgb.0[2] == vs[2],
                Err(message) => res matches Err(URGBError::MalformedText(m)) && m@ == message,
            },
    {
        URGB::<u8>::from_text(text)
    }
}

impl core::str::FromStr for URGB<u16> {
    type Err = URGBError;

    fn from_str(text: &str) -> (res: Result<URGB<u16>, URGBError>)
        ensures
            match text_outcome(text@, rgb16_found(text@), 65535) {
                Ok(vs) => res matches Ok(urgb) && urgb.0[0] == vs[0] && urgb.0[1] == vs[1]
                    && urgb.0[2] == vs[2],
                Err(message) => res matches Err(URGBError::MalformedText(m)) && m@ == message,
            },
    {
        URGB::<u16>::from_text(text)
    }
}

} // verus!
