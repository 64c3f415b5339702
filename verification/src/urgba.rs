//! Red, green, blue and alpha components as unsigned integers of eight or sixteen
//! bits.
use vstd::prelude::*;

use crate::notation::{
    append_chars, chars_of, components_in, fields_from, fields_match_at, first_fields_match,
    hex_text, hex_text_exec, lemma_hex_in_text, lemma_hex_text_value, lit_at, make_notation,
    notation_of, number_at, pow16, read_components, read_components_exec, skip_opt,
    string_from_chars, NumberForm,
};
use crate::urgb::{convert_component, converted, pango_text, text_outcome, UnsignedComponent};

verus! {

/// Red, green, blue and alpha components as unsigned integers.
#[derive(Clone, Copy, Debug, PartialEq, Eq, Hash, Default, PartialOrd, Ord)]
pub struct URGBA<U: UnsignedComponent>(pub [U; 4]);

impl<U: UnsignedComponent> URGBA<U> {
    /// The components, red first and alpha last.
    pub fn iter(&self) -> (res: Vec<U>)
        ensures
            res@ == seq![self.0[0], self.0[1], self.0[2], self.0[3]],
    {
        let mut res: Vec<U> = Vec::new();
        res.push(self.0[0]);
        res.push(self.0[1]);
        res.push(self.0[2]);
        res.push(self.0[3]);
        assert(res@ =~= seq![self.0[0], self.0[1], self.0[2], self.0[3]]);
        res
    }

    /// The colour in Pango's notation: `#` and two uppercase hexadecimal digits for
    /// each eight bit component, alpha last.
    pub fn pango_string(&self) -> (res: String)
        ensures
            res@ == pango_text(
                seq![
                    converted::<u8, U>(self.0[0]),
                    converted::<u8, U>(self.0[1]),
                    converted::<u8, U>(self.0[2]),
                    converted::<u8, U>(self.0[3]),
                ],
            ),
    {
        let red: u8 = convert_component(self.0[0]);
        let green: u8 = convert_component(self.0[1]);
        let blue: u8 = convert_component(self.0[2]);
        let alpha: u8 = convert_component(self.0[3]);
        let mut text: Vec<char> = Vec::new();
        text.push('#');
        assert(text@ =~= seq!['#']);
        append_chars(&mut text, &hex_text_exec(red as u64, 2));
        append_chars(&mut text, &hex_text_exec(green as u64, 2));
        append_chars(&mut text, &hex_text_exec(blue as u64, 2));
        append_chars(&mut text, &hex_text_exec(alpha as u64, 2));
        proof {
            lemma_pango_text4(red as int, green as int, blue as int, alpha as int);
        }
        string_from_chars(&text)
    }

    /// The components as an array.
    pub fn to_array(&self) -> (res: [U; 4])
        ensures
            res == self.0,
    {
        self.0
    }

    /// The components as a tuple.
    pub fn to_tuple(&self) -> (res: (U, U, U, U))
        ensures
            res == (self.0[0], self.0[1], self.0[2], self.0[3]),
    {
        (self.0[0], self.0[1], self.0[2], self.0[3])
    }

    /// A component by its index: red, green, blue, alpha.
    pub fn component(&self, index: u8) -> (res: U)
        requires
            index < 4,
        ensures
            res == self.0[index as int],
    {
        self.0[index as usize]
    }

    /// Opaque components with the given red, green and blue.
    fn opaque(red: U, green: U, blue: U) -> (res: URGBA<U>)
        ensures
            res.0[0] == red && res.0[1] == green && res.0[2] == blue && res.0[3].spec_value()
                == U::spec_max(),
    {
        URGBA([red, green, blue, U::max_value()])
    }

    pub fn red() -> (res: URGBA<U>)
        ensures
            res.0[0].spec_value() == U::spec_max() && res.0[1].spec_value() == 0
                && res.0[2].spec_value() == 0 && res.0[3].spec_value() == U::spec_max(),
    {
        Self::opaque(U::max_value(), U::zero_value(), U::zero_value())
    }

    pub fn green() -> (res: URGBA<U>)
        ensures
            res.0[0].spec_value() == 0 && res.0[1].spec_value() == U::spec_max()
                && res.0[2].spec_value() == 0 && res.0[3].spec_value() == U::spec_max(),
    {
        Self::opaque(U::zero_value(), U::max_value(), U::zero_value())
    }

    pub fn blue() -> (res: URGBA<U>)
        ensures
            res.0[0].spec_value() == 0 && res.0[1].spec_value() == 0
                && res.0[2].spec_value() == U::spec_max() && res.0[3].spec_value() == U::spec_max(),
    {
        Self::opaque(U::zero_value(), U::zero_value(), U::max_value())
    }

    pub fn cyan() -> (res: URGBA<U>)
        ensures
            res.0[0].spec_value() == 0 && res.0[1].spec_value() == U::spec_max()
                && res.0[2].spec_value() == U::spec_max() && res.0[3].spec_value() == U::spec_max(),
    {
        Self::opaque(U::zero_value(), U::max_value(), U::max_value())
    }

    pub fn magenta() -> (res: URGBA<U>)
        ensures
            res.0[0].spec_value() == U::spec_max() && res.0[1].spec_value() == 0
                && res.0[2].spec_value() == U::spec_max() && res.0[3].spec_value() == U::spec_max(),
    {
        Self::opaque(U::max_value(), U::zero_value(), U::max_value())
    }

    pub fn yellow() -> (res: URGBA<U>)
        ensures
            res.0[0].spec_value() == U::spec_max() && res.0[1].spec_value() == U::spec_max()
                && res.0[2].spec_value() == 0 && res.0[3].spec_value() == U::spec_max(),
    {
        Self::opaque(U::max_value(), U::max_value(), U::zero_value())
    }

    /// The opaque components that stand for white here: all colour components zero.
    pub fn white() -> (res: URGBA<U>)
        ensures
            res.0[0].spec_value() == 0 && res.0[1].spec_value() == 0
                && res.0[2].spec_value() == 0 && res.0[3].spec_value() == U::spec_max(),
    {
        Self::opaque(U::zero_value(), U::zero_value(), U::zero_value())
    }

    /// The opaque components that stand for black here: all at their maximum.
    pub fn black() -> (res: URGBA<U>)
        ensures
            res.0[0].spec_value() == U::spec_max() && res.0[1].spec_value() == U::spec_max()
                && res.0[2].spec_value() == U::spec_max() && res.0[3].spec_value() == U::spec_max(),
    {
        Self::opaque(U::max_value(), U::max_value(), U::max_value())
    }
}

/// The Pango text of four components.
proof fn lemma_pango_text4(r: int, g: int, b: int, a: int)
    ensures
        pango_text(seq![r, g, b, a]) == seq!['#'] + hex_text(r, 2) + hex_text(g, 2) + hex_text(b, 2)
            + hex_text(a, 2),
{
    assert(seq![r, g, b, a].drop_last() =~= seq![r, g, b]);
    assert(seq![r, g, b].drop_last() =~= seq![r, g]);
    assert(seq![r, g].drop_last() =~= seq![r]);
    assert(seq![r].drop_last() =~= Seq::<int>::empty());
    assert(pango_text(Seq::<int>::empty()) == seq!['#']);
    assert(pango_text(seq![r]) == seq!['#'] + hex_text(r, 2));
    assert(pango_text(seq![r, g]) == seq!['#'] + hex_text(r, 2) + hex_text(g, 2));
    assert(pango_text(seq![r, g, b]) == seq!['#'] + hex_text(r, 2) + hex_text(g, 2) + hex_text(b, 2));
}

impl<U: UnsignedComponent> From<[U; 4]> for URGBA<U> {
    fn from(array: [U; 4]) -> (res: URGBA<U>)
        ensures
            res.0 == array,
    {
        URGBA(array)
    }
}

impl<U: UnsignedComponent> vstd::std_specs::convert::FromSpecImpl<[U; 4]> for URGBA<U> {
    open spec fn obeys_from_spec() -> bool {
        true
    }

    open spec fn from_spec(arg: [U; 4]) -> URGBA<U> {
        URGBA(arg)
    }
}

impl<U: UnsignedComponent> From<(U, U, U, U)> for URGBA<U> {
    fn from(tuple: (U, U, U, U)) -> (res: URGBA<U>)
        ensures
            res.0 == [tuple.0, tuple.1, tuple.2, tuple.3],
    {
        URGBA([tuple.0, tuple.1, tuple.2, tuple.3])
    }
}

impl<U: UnsignedComponent> vstd::std_specs::convert::FromSpecImpl<(U, U, U, U)> for URGBA<U> {
    open spec fn obeys_from_spec() -> bool {
        true
    }

    open spec fn from_spec(arg: (U, U, U, U)) -> URGBA<U> {
        URGBA([arg.0, arg.1, arg.2, arg.3])
    }
}

impl<U: UnsignedComponent> From<&(U, U, U, U)> for URGBA<U> {
    fn from(tuple: &(U, U, U, U)) -> (res: URGBA<U>)
        ensures
            res.0 == [tuple.0, tuple.1, tuple.2, tuple.3],
    {
        URGBA([tuple.0, tuple.1, tuple.2, tuple.3])
    }
}

impl<U: UnsignedComponent> vstd::std_specs::convert::FromSpecImpl<&(U, U, U, U)> for URGBA<U> {
    open spec fn obeys_from_spec() -> bool {
        true
    }

    open spec fn from_spec(arg: &(U, U, U, U)) -> URGBA<U> {
        URGBA([arg.0, arg.1, arg.2, arg.3])
    }
}

impl<U: UnsignedComponent, V: UnsignedComponent> From<&URGBA<V>> for URGBA<U> {
    /// Each component rescaled to the new width, rounded to the nearest; unchanged
    /// where the widths are equal.
    fn from(urgba: &URGBA<V>) -> (res: URGBA<U>)
        ensures
            res.0[0].spec_value() == converted::<U, V>(urgba.0[0]),
            res.0[1].spec_value() == converted::<U, V>(urgba.0[1]),
            res.0[2].spec_value() == converted::<U, V>(urgba.0[2]),
            res.0[3].spec_value() == converted::<U, V>(urgba.0[3]),
    {
        URGBA(
            [
                convert_component(urgba.0[0]),
                convert_component(urgba.0[1]),
                convert_component(urgba.0[2]),
                convert_component(urgba.0[3]),
            ],
        )
    }
}

impl<U: UnsignedComponent, V: UnsignedComponent> vstd::std_specs::convert::FromSpecImpl<&URGBA<V>> for URGBA<U> {
    open spec fn obeys_from_spec() -> bool {
        true
    }

    open spec fn from_spec(arg: &URGBA<V>) -> URGBA<U> {
        URGBA(
            [
                U::spec_from_value(converted::<U, V>(arg.0[0])),
                U::spec_from_value(converted::<U, V>(arg.0[1])),
                U::spec_from_value(converted::<U, V>(arg.0[2])),
                U::spec_from_value(converted::<U, V>(arg.0[3])),
            ],
        )
    }
}

/// An error in the text of a colour.
#[derive(Debug, PartialEq, Eq)]
pub enum URGBAError {
    MalformedText(String),
}

/// The eight bit hexadecimal, eight bit decimal and Pango notations of four
/// components, in the order in which they are tried.
pub open spec fn rgba8_found(text: Seq<char>) -> Option<Seq<int>> {
    components_in(
        text,
        notation_of("RGBA"@, "8"@, 4, NumberForm { hex: true, width: 2 }),
        notation_of("RGBA"@, "8"@, 4, NumberForm { hex: false, width: 3 }),
        4,
    )
}

/// The sixteen bit hexadecimal and decimal notations of four components, in the
/// order in which they are tried.
pub open spec fn rgba16_found(text: Seq<char>) -> Option<Seq<int>> {
    components_in(
        text,
        notation_of("RGBA"@, "16"@, 4, NumberForm { hex: true, width: 4 }),
        notation_of("RGBA"@, "16"@, 4, NumberForm { hex: false, width: 5 }),
        0,
    )
}

/// Reads four components in the notations for the given width.
fn read_rgba(text: &str, sixteen: bool) -> (res: Result<[u64; 4], String>)
    ensures
        ({
            let outcome = text_outcome(
                text@,
                if sixteen {
                    rgba16_found(text@)
                } else {
                    rgba8_found(text@)
                },
                if sixteen {
                    65535
                } else {
                    255
                },
            );
            match res {
                Ok(vs) => outcome == Ok::<Seq<int>, Seq<char>>(
                    seq![vs[0] as int, vs[1] as int, vs[2] as int, vs[3] as int],
                ),
                Err(message) => outcome == Err::<Seq<int>, Seq<char>>(message@),
            }
        }),
{
    let (size, hex_width, dec_width, pango, max): (&str, usize, usize, usize, u64) = if sixteen {
        ("16", 4, 5, 0, 65535)
    } else {
        ("8", 2, 3, 4, 255)
    };
    let hex = make_notation("RGBA", size, 4, NumberForm { hex: true, width: hex_width });
    let dec = make_notation("RGBA", size, 4, NumberForm { hex: false, width: dec_width });
    match read_components_exec(text, &hex, &dec, pango, max) {
        Ok(vs) => {
            assert(vs@.map_values(|v: u64| v as int) =~= seq![
                vs@[0] as int,
                vs@[1] as int,
                vs@[2] as int,
                vs@[3] as int,
            ]);
            Ok([vs[0], vs[1], vs[2], vs[3]])
        },
        Err(too_large) => {
            if too_large {
                Err("number too large to fit in target type".to_owned())
            } else {
                Err(text.to_owned())
            }
        },
    }
}

/// `RGBA8(red=0x..., green=0x..., blue=0x..., alpha=0x...)` with two digits per
/// component, or `RGBA16(...)` with four.
pub open spec fn rgba_text(size: Seq<char>, digits: int, c: [int; 4]) -> Seq<char> {
    "RGBA"@ + size + "(red=0x"@ + hex_text(c[0], digits) + ", green=0x"@ + hex_text(c[1], digits)
        + ", blue=0x"@ + hex_text(c[2], digits) + ", alpha=0x"@ + hex_text(c[3], digits) + ")"@
}

/// Writes four components as `rgba_text`.
fn write_rgba(size: &str, digits: usize, c: [u64; 4]) -> (res: String)
    ensures
        res@ == rgba_text(size@, digits as int, [c[0] as int, c[1] as int, c[2] as int, c[3] as int]),
{
    let mut text = chars_of("RGBA");
    append_chars(&mut text, &chars_of(size));
    append_chars(&mut text, &chars_of("(red=0x"));
    append_chars(&mut text, &hex_text_exec(c[0], digits));
    append_chars(&mut text, &chars_of(", green=0x"));
    append_chars(&mut text, &hex_text_exec(c[1], digits));
    append_chars(&mut text, &chars_of(", blue=0x"));
    append_chars(&mut text, &hex_text_exec(c[2], digits));
    append_chars(&mut text, &chars_of(", alpha=0x"));
    append_chars(&mut text, &hex_text_exec(c[3], digits));
    append_chars(&mut text, &chars_of(")"));
    string_from_chars(&text)
}

impl URGBA<u8> {
    /// Reads a colour from a text in the first notation that matches anywhere in it:
    /// `RGBA8(red=0xF8, green=0xA0, blue=0xF6, alpha=0xFF)` (the size and the labels
    /// optional), then `RGBA8(248, 160, 246, 255)`, then `#F8A0F6FF`.
    pub fn from_text(text: &str) -> (res: Result<URGBA<u8>, URGBAError>)
        ensures
            match text_outcome(text@, rgba8_found(text@), 255) {
                Ok(vs) => res matches Ok(urgba) && urgba.0[0] == vs[0] && urgba.0[1] == vs[1]
                    && urgba.0[2] == vs[2] && urgba.0[3] == vs[3],
                Err(message) => res matches Err(URGBAError::MalformedText(m)) && m@ == message,
            },
    {
        match read_rgba(text, false) {
            Ok(vs) => Ok(URGBA([vs[0] as u8, vs[1] as u8, vs[2] as u8, vs[3] as u8])),
            Err(message) => Err(URGBAError::MalformedText(message)),
        }
    }

    /// The colour as `RGBA8(red=0xF8, green=0xA0, blue=0xF6, alpha=0xFF)`.
    pub fn to_string(&self) -> (res: String)
        ensures
            res@ == rgba_text("8"@, 2, [self.0[0] as int, self.0[1] as int, self.0[2] as int, self.0[3] as int]),
    {
        write_rgba("8", 2, [self.0[0] as u64, self.0[1] as u64, self.0[2] as u64, self.0[3] as u64])
    }
}

impl URGBA<u16> {
    /// Reads a colour from a text in the first notation that matches anywhere in it:
    /// `RGBA16(red=0xF800, green=0xFA00, blue=0xF600, alpha=0x0100)` (the size and
    /// the labels optional), then `RGBA16(63488, 64000, 62976, 256)`.
    pub fn from_text(text: &str) -> (res: Result<URGBA<u16>, URGBAError>)
        ensures
            match text_outcome(text@, rgba16_found(text@), 65535) {
                Ok(vs) => res matches Ok(urgba) && urgba.0[0] == vs[0] && urgba.0[1] == vs[1]
                    && urgba.0[2] == vs[2] && urgba.0[3] == vs[3],
                Err(message) => res matches Err(URGBAError::MalformedText(m)) && m@ == message,
            },
    {
        match read_rgba(text, true) {
            Ok(vs) => Ok(URGBA([vs[0] as u16, vs[1] as u16, vs[2] as u16, vs[3] as u16])),
            Err(message) => Err(URGBAError::MalformedText(message)),
        }
    }

    /// The colour as `RGBA16(red=0xF800, green=0xFA00, blue=0xF600, alpha=0x0100)`.
    pub fn to_string(&self) -> (res: String)
        ensures
            res@ == rgba_text("16"@, 4, [self.0[0] as int, self.0[1] as int, self.0[2] as int, self.0[3] as int]),
    {
        write_rgba("16", 4, [self.0[0] as u64, self.0[1] as u64, self.0[2] as u64, self.0[3] as u64])
    }
}

impl core::str::FromStr for URGBA<u8> {
    type Err = URGBAError;

    fn from_str(text: &str) -> (res: Result<URGBA<u8>, URGBAError>)
        ensures
            match text_outcome(text@, rgba8_found(text@), 255) {
                Ok(vs) => res matches Ok(urgba) && urgba.0[0] == vs[0] && urgba.0[1] == vs[1]
                    && urgba.0[2] == vs[2] && urgba.0[3] == vs[3],
                Err(message) => res matches Err(URGBAError::MalformedText(m)) && m@ == message,
            },
    {
        URGBA::<u8>::from_text(text)
    }
}

impl core::str::FromStr for URGBA<u16> {
    type Err = URGBAError;

    fn from_str(text: &str) -> (res: Result<URGBA<u16>, URGBAError>)
        ensures
            match text_outcome(text@, rgba16_found(text@), 65535) {
                Ok(vs) => res matches Ok(urgba) && urgba.0[0] == vs[0] && urgba.0[1] == vs[1]
                    && urgba.0[2] == vs[2] && urgba.0[3] == vs[3],
                Err(message) => res matches Err(URGBAError::MalformedText(m)) && m@ == message,
            },
    {
        URGBA::<u16>::from_text(text)
    }
}

/// The words of the written notation, as characters.
proof fn reveal_rgba_words()
    ensures
        "RGBA"@ == seq!['R', 'G', 'B', 'A'],
        "16"@ == seq!['1', '6'],
        "8"@ == seq!['8'],
        "(red=0x"@ == seq!['(', 'r', 'e', 'd', '=', '0', 'x'],
        ", green=0x"@ == seq![',', ' ', 'g', 'r', 'e', 'e', 'n', '=', '0', 'x'],
        ", blue=0x"@ == seq![',', ' ', 'b', 'l', 'u', 'e', '=', '0', 'x'],
        ", alpha=0x"@ == seq![',', ' ', 'a', 'l', 'p', 'h', 'a', '=', '0', 'x'],
        ")"@ == seq![')'],
        "red="@ == seq!['r', 'e', 'd', '='],
        "green="@ == seq!['g', 'r', 'e', 'e', 'n', '='],
        "blue="@ == seq!['b', 'l', 'u', 'e', '='],
        "alpha="@ == seq!['a', 'l', 'p', 'h', 'a', '='],
{
    reveal_strlit("RGBA");
    reveal_strlit("16");
    reveal_strlit("8");
    reveal_strlit("(red=0x");
    reveal_strlit(", green=0x");
    reveal_strlit(", blue=0x");
    reveal_strlit(", alpha=0x");
    reveal_strlit(")");
    reveal_strlit("red=");
    reveal_strlit("green=");
    reveal_strlit("blue=");
    reveal_strlit("alpha=");
    assert("RGBA"@ =~= seq!['R', 'G', 'B', 'A']);
    assert("16"@ =~= seq!['1', '6']);
    assert("8"@ =~= seq!['8']);
    assert("(red=0x"@ =~= seq!['(', 'r', 'e', 'd', '=', '0', 'x']);
    assert(", green=0x"@ =~= seq![',', ' ', 'g', 'r', 'e', 'e', 'n', '=', '0', 'x']);
    assert(", blue=0x"@ =~= seq![',', ' ', 'b', 'l', 'u', 'e', '=', '0', 'x']);
    assert(", alpha=0x"@ =~= seq![',', ' ', 'a', 'l', 'p', 'h', 'a', '=', '0', 'x']);
    assert(")"@ =~= seq![')']);
    assert("red="@ =~= seq!['r', 'e', 'd', '=']);
    assert("green="@ =~= seq!['g', 'r', 'e', 'e', 'n', '=']);
    assert("blue="@ =~= seq!['b', 'l', 'u', 'e', '=']);
    assert("alpha="@ =~= seq!['a', 'l', 'p', 'h', 'a', '=']);
}

/// One component as written in the text: its label at `at`, then `0x` and its
/// digits; the position after them.
proof fn lemma_written_field(
    s: Seq<char>,
    at: int,
    label: Seq<char>,
    v: int,
    digits: int,
    form: NumberForm,
)
    requires
        form == (NumberForm { hex: true, width: digits as usize }),
        0 < digits <= 4,
        0 <= v < pow16(digits),
        0 <= at,
        at + label.len() + 2 + digits <= s.len(),
        s.subrange(at, at + label.len()) == label,
        s.subrange(at + label.len(), at + label.len() + 2) == seq!['0', 'x'],
        s.subrange(at + label.len() + 2, at + label.len() + 2 + digits) == hex_text(v, digits),
    ensures
        skip_opt(s, at, label) == at + label.len(),
        number_at(s, at + label.len(), form) == Some((v, at + label.len() + 2 + digits)),
{
    lemma_hex_in_text(s, at + label.len() + 2, v, digits);
}

/// Round trip: the sixteen bit text of four components reads back as those
/// components.
pub proof fn lemma_rgba16_text_round_trip(c: [u16; 4])
    ensures
        ({
            let v = [c[0] as int, c[1] as int, c[2] as int, c[3] as int];
            let s = rgba_text("16"@, 4, v);
            text_outcome(s, rgba16_found(s), 65535) == Ok::<Seq<int>, Seq<char>>(
                seq![v[0], v[1], v[2], v[3]],
            )
        }),
{
    lemma_rgba_text_round_trip("16"@, 4, [c[0] as int, c[1] as int, c[2] as int, c[3] as int], 65535);
}

/// Round trip: the eight bit text of four components reads back as those components.
pub proof fn lemma_rgba8_text_round_trip(c: [u8; 4])
    ensures
        ({
            let v = [c[0] as int, c[1] as int, c[2] as int, c[3] as int];
            let s = rgba_text("8"@, 2, v);
            text_outcome(s, rgba8_found(s), 255) == Ok::<Seq<int>, Seq<char>>(
                seq![v[0], v[1], v[2], v[3]],
            )
        }),
{
    lemma_rgba_text_round_trip("8"@, 2, [c[0] as int, c[1] as int, c[2] as int, c[3] as int], 255);
}

/// The pieces of a text of four components where `rgba_text` puts them.
pub open spec fn rgba_pieces_ok(s: Seq<char>, size: Seq<char>, digits: int, v: [int; 4]) -> bool {
    let z = size.len() as int;
    let d = digits;
    let p_open = 4 + z;
    let p_red = p_open + 1;
    let p_green = p_red + 4 + 2 + d + 2;
    let p_blue = p_green + 6 + 2 + d + 2;
    let p_alpha = p_blue + 5 + 2 + d + 2;
    let p_close = p_alpha + 6 + 2 + d;
    &&& s.len() == p_close + 1
    &&& s.subrange(0, 4) == "RGBA"@
    &&& s.subrange(4, 4 + z) == size
    &&& s.subrange(p_open, p_open + 1) == seq!['(']
    &&& s.subrange(p_red, p_red + 4) == "red="@
    &&& s.subrange(p_red + 4, p_red + 6) == seq!['0', 'x']
    &&& s.subrange(p_red + 6, p_red + 6 + d) == hex_text(v[0], digits)
    &&& s.subrange(p_red + 6 + d, p_red + 8 + d) == seq![',', ' ']
    &&& s.subrange(p_green, p_green + 6) == "green="@
    &&& s.subrange(p_green + 6, p_green + 8) == seq!['0', 'x']
    &&& s.subrange(p_green + 8, p_green + 8 + d) == hex_text(v[1], digits)
    &&& s.subrange(p_green + 8 + d, p_green + 10 + d) == seq![',', ' ']
    &&& s.subrange(p_blue, p_blue + 5) == "blue="@
    &&& s.subrange(p_blue + 5, p_blue + 7) == seq!['0', 'x']
    &&& s.subrange(p_blue + 7, p_blue + 7 + d) == hex_text(v[2], digits)
    &&& s.subrange(p_blue + 7 + d, p_blue + 9 + d) == seq![',', ' ']
    &&& s.subrange(p_alpha, p_alpha + 6) == "alpha="@
    &&& s.subrange(p_alpha + 6, p_alpha + 8) == seq!['0', 'x']
    &&& s.subrange(p_alpha + 8, p_alpha + 8 + d) == hex_text(v[3], digits)
    &&& s.subrange(p_close, p_close + 1) == seq![')']
}

/// Where the pieces of the text of four components stand.
#[verifier::rlimit(50)]
proof fn lemma_rgba_text_pieces(size: Seq<char>, digits: int, v: [int; 4])
    requires
        (size == "16"@ && digits == 4) || (size == "8"@ && digits == 2),
        forall|k: int| 0 <= k < 4 ==> 0 <= #[trigger] v[k],
    ensures
        rgba_pieces_ok(rgba_text(size, digits, v), size, digits, v),
{
    reveal_rgba_words();
    let z = size.len() as int;
    let d = digits;
    let h0 = hex_text(v[0], digits);
    let h1 = hex_text(v[1], digits);
    let h2 = hex_text(v[2], digits);
    let h3 = hex_text(v[3], digits);
    lemma_hex_text_value(v[0], digits);
    lemma_hex_text_value(v[1], digits);
    lemma_hex_text_value(v[2], digits);
    lemma_hex_text_value(v[3], digits);
    let s = rgba_text(size, digits, v);
    // The text as a left to right chain of pieces.
    let t1 = "RGBA"@ + size;
    let t2 = t1 + seq!['(', 'r', 'e', 'd', '=', '0', 'x'];
    let t3 = t2 + h0;
    let t4 = t3 + seq![',', ' ', 'g', 'r', 'e', 'e', 'n', '=', '0', 'x'];
    let t5 = t4 + h1;
    let t6 = t5 + seq![',', ' ', 'b', 'l', 'u', 'e', '=', '0', 'x'];
    let t7 = t6 + h2;
    let t8 = t7 + seq![',', ' ', 'a', 'l', 'p', 'h', 'a', '=', '0', 'x'];
    let t9 = t8 + h3;
    assert(s == t9 + seq![')']);
    let p_open = 4 + z;
    let p_red = p_open + 1;
    let p_green = p_red + 4 + 2 + d + 2;
    let p_blue = p_green + 6 + 2 + d + 2;
    let p_alpha = p_blue + 5 + 2 + d + 2;
    let p_close = p_alpha + 6 + 2 + d;
    lemma_take_of_add(t9, seq![')'], p_close);
    lemma_take_of_add(t8, h3, p_alpha + 8);
    lemma_take_of_add(t7, seq![',', ' ', 'a', 'l', 'p', 'h', 'a', '=', '0', 'x'], p_blue + 7 + d);
    lemma_take_of_add(t6, h2, p_blue + 7);
    lemma_take_of_add(t5, seq![',', ' ', 'b', 'l', 'u', 'e', '=', '0', 'x'], p_green + 8 + d);
    lemma_take_of_add(t4, h1, p_green + 8);
    lemma_take_of_add(t3, seq![',', ' ', 'g', 'r', 'e', 'e', 'n', '=', '0', 'x'], p_red + 6 + d);
    lemma_take_of_add(t2, h0, p_red + 6);
    lemma_take_of_add(t1, seq!['(', 'r', 'e', 'd', '=', '0', 'x'], p_open);
    lemma_take_of_add("RGBA"@, size, 4);
    lemma_subranges_of(s, t9, t8, t7, t6, t5, t4, t3, t2, t1, p_close, p_alpha + 8, p_blue + 7 + d,
        p_blue + 7, p_green + 8 + d, p_green + 8, p_red + 6 + d, p_red + 6, p_open);
    assert(s.subrange(0, 4) =~= "RGBA"@);
    assert(s.subrange(4, 4 + z) =~= size);
    assert(s.subrange(p_open, p_open + 1) =~= seq!['(']);
    assert(s.subrange(p_red, p_red + 4) =~= "red="@);
    assert(s.subrange(p_red + 4, p_red + 6) =~= seq!['0', 'x']);
    assert(s.subrange(p_red + 6, p_red + 6 + d) =~= h0);
    assert(s.subrange(p_red + 6 + d, p_red + 8 + d) =~= seq![',', ' ']);
    assert(s.subrange(p_green, p_green + 6) =~= "green="@);
    assert(s.subrange(p_green + 6, p_green + 8) =~= seq!['0', 'x']);
    assert(s.subrange(p_green + 8, p_green + 8 + d) =~= h1);
    assert(s.subrange(p_green + 8 + d, p_green + 10 + d) =~= seq![',', ' ']);
    assert(s.subrange(p_blue, p_blue + 5) =~= "blue="@);
    assert(s.subrange(p_blue + 5, p_blue + 7) =~= seq!['0', 'x']);
    assert(s.subrange(p_blue + 7, p_blue + 7 + d) =~= h2);
    assert(s.subrange(p_blue + 7 + d, p_blue + 9 + d) =~= seq![',', ' ']);
    assert(s.subrange(p_alpha, p_alpha + 6) =~= "alpha="@);
    assert(s.subrange(p_alpha + 6, p_alpha + 8) =~= seq!['0', 'x']);
    assert(s.subrange(p_alpha + 8, p_alpha + 8 + d) =~= h3);
    assert(s.subrange(p_close, p_close + 1) =~= seq![')']);
}

/// The first part of a concatenation is its prefix, and the rest follows it.
proof fn lemma_take_of_add(a: Seq<char>, b: Seq<char>, n: int)
    requires
        n == a.len(),
    ensures
        (a + b).subrange(0, n) == a,
        forall|k: int| 0 <= k < b.len() ==> #[trigger] (a + b)[n + k] == b[k],
{
    assert((a + b).subrange(0, n) =~= a);
}

/// Each prefix of the chain is a prefix of the whole text.
proof fn lemma_subranges_of(
    s: Seq<char>,
    t9: Seq<char>,
    t8: Seq<char>,
    t7: Seq<char>,
    t6: Seq<char>,
    t5: Seq<char>,
    t4: Seq<char>,
    t3: Seq<char>,
    t2: Seq<char>,
    t1: Seq<char>,
    n9: int,
    n8: int,
    n7: int,
    n6: int,
    n5: int,
    n4: int,
    n3: int,
    n2: int,
    n1: int,
)
    requires
        0 <= n1 <= n2 <= n3 <= n4 <= n5 <= n6 <= n7 <= n8 <= n9 <= s.len(),
        s.subrange(0, n9) == t9,
        t9.subrange(0, n8) == t8,
        t8.subrange(0, n7) == t7,
        t7.subrange(0, n6) == t6,
        t6.subrange(0, n5) == t5,
        t5.subrange(0, n4) == t4,
        t4.subrange(0, n3) == t3,
        t3.subrange(0, n2) == t2,
        t2.subrange(0, n1) == t1,
    ensures
        forall|k: int| 0 <= k < n9 ==> #[trigger] s[k] == t9[k],
        forall|k: int| 0 <= k < n8 ==> #[trigger] s[k] == t8[k],
        forall|k: int| 0 <= k < n7 ==> #[trigger] s[k] == t7[k],
        forall|k: int| 0 <= k < n6 ==> #[trigger] s[k] == t6[k],
        forall|k: int| 0 <= k < n5 ==> #[trigger] s[k] == t5[k],
        forall|k: int| 0 <= k < n4 ==> #[trigger] s[k] == t4[k],
        forall|k: int| 0 <= k < n3 ==> #[trigger] s[k] == t3[k],
        forall|k: int| 0 <= k < n2 ==> #[trigger] s[k] == t2[k],
        forall|k: int| 0 <= k < n1 ==> #[trigger] s[k] == t1[k],
{
    assert forall|k: int| 0 <= k < n9 implies #[trigger] s[k] == t9[k] by {
        assert(s.subrange(0, n9)[k] == s[k]);
    }
    assert forall|k: int| 0 <= k < n8 implies #[trigger] s[k] == t8[k] by {
        assert(t9.subrange(0, n8)[k] == t9[k]);
    }
    assert forall|k: int| 0 <= k < n7 implies #[trigger] s[k] == t7[k] by {
        assert(t9.subrange(0, n8)[k] == t9[k]);
        assert(t8.subrange(0, n7)[k] == t8[k]);
    }
    assert forall|k: int| 0 <= k < n6 implies #[trigger] s[k] == t6[k] by {
        assert(t9.subrange(0, n8)[k] == t9[k]);
        assert(t8.subrange(0, n7)[k] == t8[k]);
        assert(t7.subrange(0, n6)[k] == t7[k]);
    }
    assert forall|k: int| 0 <= k < n5 implies #[trigger] s[k] == t5[k] by {
        assert(t9.subrange(0, n8)[k] == t9[k]);
        assert(t8.subrange(0, n7)[k] == t8[k]);
        assert(t7.subrange(0, n6)[k] == t7[k]);
        assert(t6.subrange(0, n5)[k] == t6[k]);
    }
    assert forall|k: int| 0 <= k < n4 implies #[trigger] s[k] == t4[k] by {
        assert(t9.subrange(0, n8)[k] == t9[k]);
        assert(t8.subrange(0, n7)[k] == t8[k]);
        assert(t7.subrange(0, n6)[k] == t7[k]);
        assert(t6.subrange(0, n5)[k] == t6[k]);
        assert(t5.subrange(0, n4)[k] == t5[k]);
    }
    assert forall|k: int| 0 <= k < n3 implies #[trigger] s[k] == t3[k] by {
        assert(t9.subrange(0, n8)[k] == t9[k]);
        assert(t8.subrange(0, n7)[k] == t8[k]);
        assert(t7.subrange(0, n6)[k] == t7[k]);
        assert(t6.subrange(0, n5)[k] == t6[k]);
        assert(t5.subrange(0, n4)[k] == t5[k]);
        assert(t4.subrange(0, n3)[k] == t4[k]);
    }
    assert forall|k: int| 0 <= k < n2 implies #[trigger] s[k] == t2[k] by {
        assert(t9.subrange(0, n8)[k] == t9[k]);
        assert(t8.subrange(0, n7)[k] == t8[k]);
        assert(t7.subrange(0, n6)[k] == t7[k]);
        assert(t6.subrange(0, n5)[k] == t6[k]);
        assert(t5.subrange(0, n4)[k] == t5[k]);
        assert(t4.subrange(0, n3)[k] == t4[k]);
        assert(t3.subrange(0, n2)[k] == t3[k]);
    }
    assert forall|k: int| 0 <= k < n1 implies #[trigger] s[k] == t1[k] by {
        assert(t9.subrange(0, n8)[k] == t9[k]);
        assert(t8.subrange(0, n7)[k] == t8[k]);
        assert(t7.subrange(0, n6)[k] == t7[k]);
        assert(t6.subrange(0, n5)[k] == t6[k]);
        assert(t5.subrange(0, n4)[k] == t5[k]);
        assert(t4.subrange(0, n3)[k] == t4[k]);
        assert(t3.subrange(0, n2)[k] == t3[k]);
        assert(t2.subrange(0, n1)[k] == t2[k]);
    }
}

/// The text of four components in either width reads back in the hexadecimal
/// notation of that width.
proof fn lemma_rgba_text_round_trip(size: Seq<char>, digits: int, v: [int; 4], max: int)
    requires
        (size == "16"@ && digits == 4 && max == 65535) || (size == "8"@ && digits == 2 && max
            == 255),
        forall|k: int| 0 <= k < 4 ==> 0 <= #[trigger] v[k] <= max,
    ensures
        ({
            let s = rgba_text(size, digits, v);
            let found = components_in(
                s,
                notation_of("RGBA"@, size, 4, NumberForm { hex: true, width: digits as usize }),
                notation_of("RGBA"@, size, 4, NumberForm { hex: false, width: (digits + 1) as usize }),
                if digits == 4 {
                    0
                } else {
                    4
                },
            );
            text_outcome(s, found, max) == Ok::<Seq<int>, Seq<char>>(seq![v[0], v[1], v[2], v[3]])
        }),
{
    let s = rgba_text(size, digits, v);
    lemma_rgba_text_pieces(size, digits, v);
    lemma_rgba_fields_read(s, size, digits, v, max);
    let vs = seq![v[0], v[1], v[2], v[3]];
    assert forall|k: int| 0 <= k < vs.len() implies #[trigger] vs[k] <= max by {
        assert(vs[k] == v[k]);
    }
    assert(read_components(Some(vs), max) == Ok::<Seq<int>, bool>(vs));
}

/// Four components written in their places read back in the hexadecimal notation.
#[verifier::rlimit(50)]
proof fn lemma_rgba_fields_read(s: Seq<char>, size: Seq<char>, digits: int, v: [int; 4], max: int)
    requires
        (size == "16"@ && digits == 4 && max == 65535) || (size == "8"@ && digits == 2 && max
            == 255),
        forall|k: int| 0 <= k < 4 ==> 0 <= #[trigger] v[k] <= max,
        rgba_pieces_ok(s, size, digits, v),
    ensures
        first_fields_match(
            s,
            0,
            notation_of("RGBA"@, size, 4, NumberForm { hex: true, width: digits as usize }),
        ) == Some(seq![v[0], v[1], v[2], v[3]]),
{
    reveal_rgba_words();
    reveal_with_fuel(pow16, 5);
    let form = NumberForm { hex: true, width: digits as usize };
    let n = notation_of("RGBA"@, size, 4, form);
    assert(0 <= v[0] <= max && 0 <= v[1] <= max && 0 <= v[2] <= max && 0 <= v[3] <= max);
    let z = size.len() as int;
    let d = digits;
    let p_open = 4 + z;
    let p_red = p_open + 1;
    let p_green = p_red + 4 + 2 + d + 2;
    let p_blue = p_green + 6 + 2 + d + 2;
    let p_alpha = p_blue + 5 + 2 + d + 2;
    let p_close = p_alpha + 6 + 2 + d;
    assert(n.labels[0] == "red="@);
    assert(n.labels[1] == "green="@);
    assert(n.labels[2] == "blue="@);
    assert(n.labels[3] == "alpha="@);
    lemma_written_field(s, p_red, "red="@, v[0], d, form);
    lemma_written_field(s, p_green, "green="@, v[1], d, form);
    lemma_written_field(s, p_blue, "blue="@, v[2], d, form);
    lemma_written_field(s, p_alpha, "alpha="@, v[3], d, form);
    assert(fields_from(s, p_alpha, n, 3) == Some((seq![v[3]], p_close)));
    assert(lit_at(s, p_blue + 7 + d, seq![',', ' ']));
    assert(fields_from(s, p_blue, n, 2) == Some((seq![v[2]] + seq![v[3]], p_close)));
    assert(lit_at(s, p_green + 8 + d, seq![',', ' ']));
    assert(fields_from(s, p_green, n, 1) == Some((seq![v[1]] + (seq![v[2]] + seq![v[3]]), p_close)));
    assert(lit_at(s, p_red + 6 + d, seq![',', ' ']));
    assert(fields_from(s, p_red, n, 0) == Some(
        (seq![v[0]] + (seq![v[1]] + (seq![v[2]] + seq![v[3]])), p_close),
    ));
    assert(seq![v[0]] + (seq![v[1]] + (seq![v[2]] + seq![v[3]])) =~= seq![v[0], v[1], v[2], v[3]]);
    assert(lit_at(s, 0, "RGBA"@));
    assert(lit_at(s, 4, size));
    assert(skip_opt(s, 4, size) == p_open);
    assert(lit_at(s, p_open, seq!['(']));
    assert(lit_at(s, p_close, seq![')']));
    assert(fields_match_at(s, 0, n) == Some(seq![v[0], v[1], v[2], v[3]]));
}

} // verus!
