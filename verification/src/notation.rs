//! The textual notations of colour components: `RGB16(red=0xF800, green=0xFA00,
//! blue=0xF600)`, `RGB8(128, 45, 60)`, `#F8A0F6` and their four component relatives.
//!
//! A notation is looked for anywhere in a text: the first position at which it
//! matches gives the components.  A component is written either as `0x` followed by a
//! fixed number of hexadecimal digits, or as one up to a maximum number of decimal
//! digits; each may be preceded by its name and `=`.
use vstd::prelude::*;
use vstd::string::StrSliceExecFns;

verus! {

/// A decimal digit.
pub open spec fn is_dec_digit(c: char) -> bool {
    48 <= (c as u32) <= 57
}

/// A hexadecimal digit, in either case.
pub open spec fn is_hex_digit(c: char) -> bool {
    let u = c as u32;
    (48 <= u <= 57) || (65 <= u <= 70) || (97 <= u <= 102)
}

/// The value of a (hexadecimal or decimal) digit.
pub open spec fn digit_value(c: char) -> int {
    let u = c as u32;
    if u <= 57 {
        u - 48
    } else if u <= 70 {
        u - 55
    } else {
        u - 87
    }
}

/// The number that the `n` digits of `s` from position `i` denote in the radix.
pub open spec fn digits_value(s: Seq<char>, i: int, n: int, radix: int) -> int
    decreases n,
{
    if n <= 0 {
        0
    } else {
        digits_value(s, i, n - 1, radix) * radix + digit_value(s[i + n - 1])
    }
}

/// Whether `s` holds `n` digits (hexadecimal or decimal) from position `i`.
pub open spec fn digits_in(s: Seq<char>, i: int, n: int, hex: bool) -> bool {
    &&& 0 <= i
    &&& 0 <= n
    &&& i + n <= s.len()
    &&& forall|k: int|
        i <= k < i + n ==> (if hex {
            is_hex_digit(#[trigger] s[k])
        } else {
            is_dec_digit(s[k])
        })
}

/// Whether the word `w` stands in `s` at position `i`.
pub open spec fn lit_at(s: Seq<char>, i: int, w: Seq<char>) -> bool {
    0 <= i && i + w.len() <= s.len() && s.subrange(i, i + w.len()) == w
}

/// The position after the optional word `w` at position `i`.
pub open spec fn skip_opt(s: Seq<char>, i: int, w: Seq<char>) -> int {
    if lit_at(s, i, w) {
        i + w.len()
    } else {
        i
    }
}

/// The number of decimal digits in a row from position `i`.
pub open spec fn dec_run(s: Seq<char>, i: int) -> int
    decreases s.len() - i,
{
    if 0 <= i < s.len() && is_dec_digit(s[i]) {
        1 + dec_run(s, i + 1)
    } else {
        0
    }
}

/// How a component is written: `0x` and exactly `width` hexadecimal digits, or one
/// up to `width` decimal digits.
#[derive(Clone, Copy, Debug, PartialEq, Eq, Structural)]
pub struct NumberForm {
    pub hex: bool,
    pub width: usize,
}

/// The component written at position `i`, and the position after it.
pub open spec fn number_at(s: Seq<char>, i: int, form: NumberForm) -> Option<(int, int)> {
    if form.hex {
        if lit_at(s, i, seq!['0', 'x']) && digits_in(s, i + 2, form.width as int, true) {
            Some((digits_value(s, i + 2, form.width as int, 16), i + 2 + form.width))
        } else {
            None
        }
    } else {
        let k = dec_run(s, i);
        if 1 <= k <= form.width {
            Some((digits_value(s, i, k, 10), i + k))
        } else {
            None
        }
    }
}

/// A notation of named components: a tag, an optional size, and in brackets the
/// components separated by `, `, each optionally preceded by its label.
pub struct FieldsNotation {
    pub tag: Vec<char>,
    pub size: Vec<char>,
    pub labels: Vec<Vec<char>>,
    pub form: NumberForm,
}

/// The words of a notation of named components.
pub struct NotationView {
    pub tag: Seq<char>,
    pub size: Seq<char>,
    pub labels: Seq<Seq<char>>,
    pub form: NumberForm,
}

impl FieldsNotation {
    pub open spec fn view(&self) -> NotationView {
        NotationView {
            tag: self.tag@,
            size: self.size@,
            labels: self.labels@.map_values(|w: Vec<char>| w@),
            form: self.form,
        }
    }
}

/// The labels of the red, green, blue and alpha components.
pub open spec fn component_labels() -> Seq<Seq<char>> {
    seq!["red="@, "green="@, "blue="@, "alpha="@]
}

/// The notation with the tag, the size and the first `count` component labels.
pub open spec fn notation_of(tag: Seq<char>, size: Seq<char>, count: int, form: NumberForm) -> NotationView {
    NotationView { tag, size, labels: component_labels().take(count), form }
}

/// Builds the notation with the tag, the size and the first `count` component labels.
pub fn make_notation(tag: &str, size: &str, count: usize, form: NumberForm) -> (res: FieldsNotation)
    requires
        count <= 4,
    ensures
        res.view() == notation_of(tag@, size@, count as int, form),
        res.form == form,
{
    let mut labels: Vec<Vec<char>> = Vec::new();
    labels.push(chars_of("red="));
    labels.push(chars_of("green="));
    labels.push(chars_of("blue="));
    labels.push(chars_of("alpha="));
    let ghost all = labels@;
    while labels.len() > count
        invariant
            labels@.len() >= count,
            labels@.len() <= 4,
            all.len() == 4,
            labels@ == all.take(labels@.len() as int),
        decreases labels.len(),
    {
        labels.pop();
        assert(labels@ =~= all.take(labels@.len() as int));
    }
    let res = FieldsNotation { tag: chars_of(tag), size: chars_of(size), labels, form };
    assert(res.view().labels =~= component_labels().take(count as int));
    res
}

/// The components from the `k`th on, written from position `i`, and the position
/// after the last of them.
pub open spec fn fields_from(s: Seq<char>, i: int, n: NotationView, k: int) -> Option<
    (Seq<int>, int),
>
    decreases n.labels.len() - k,
{
    if k < 0 || k >= n.labels.len() {
        None
    } else {
        match number_at(s, skip_opt(s, i, n.labels[k]), n.form) {
            None => None,
            Some((v, e)) => if k + 1 == n.labels.len() {
                Some((seq![v], e))
            } else if lit_at(s, e, seq![',', ' ']) {
                match fields_from(s, e + 2, n, k + 1) {
                    Some((vs, f)) => Some((seq![v] + vs, f)),
                    None => None,
                }
            } else {
                None
            },
        }
    }
}

/// The components of the notation when it matches at position `i`.
pub open spec fn fields_match_at(s: Seq<char>, i: int, n: NotationView) -> Option<Seq<int>> {
    if !lit_at(s, i, n.tag) {
        None
    } else {
        let j = skip_opt(s, i + n.tag.len(), n.size);
        if !lit_at(s, j, seq!['(']) {
            None
        } else {
            match fields_from(s, j + 1, n, 0) {
                Some((vs, e)) => if lit_at(s, e, seq![')']) {
                    Some(vs)
                } else {
                    None
                },
                None => None,
            }
        }
    }
}

/// The components of the first match of the notation at or after position `i`.
pub open spec fn first_fields_match(s: Seq<char>, i: int, n: NotationView) -> Option<Seq<int>>
    decreases s.len() + 1 - i,
{
    if i < 0 || i > s.len() {
        None
    } else {
        match fields_match_at(s, i, n) {
            Some(vs) => Some(vs),
            None => first_fields_match(s, i + 1, n),
        }
    }
}

/// The components of `#` followed by `count` pairs of hexadecimal digits at
/// position `i`.
pub open spec fn pango_match_at(s: Seq<char>, i: int, count: int) -> Option<Seq<int>> {
    if lit_at(s, i, seq!['#']) && digits_in(s, i + 1, 2 * count, true) {
        Some(Seq::new(count as nat, |k: int| digits_value(s, i + 1 + 2 * k, 2, 16)))
    } else {
        None
    }
}

/// The components of the first `#` notation at or after position `i`.
pub open spec fn first_pango_match(s: Seq<char>, i: int, count: int) -> Option<Seq<int>>
    decreases s.len() + 1 - i,
{
    if i < 0 || i > s.len() {
        None
    } else {
        match pango_match_at(s, i, count) {
            Some(vs) => Some(vs),
            None => first_pango_match(s, i + 1, count),
        }
    }
}

/// The characters of a text.
pub fn chars_of(text: &str) -> (res: Vec<char>)
    ensures
        res@ == text@,
{
    let n = text.unicode_len();
    let mut res: Vec<char> = Vec::new();
    let mut i: usize = 0;
    while i < n
        invariant
            n == text@.len(),
            i <= n,
            res@ == text@.subrange(0, i as int),
        decreases n - i,
    {
        res.push(text.get_char(i));
        i = i + 1;
        assert(res@ =~= text@.subrange(0, i as int));
    }
    assert(res@ =~= text@);
    res
}

/// A word of one character.
fn word1(a: char) -> (res: Vec<char>)
    ensures
        res@ == seq![a],
{
    let mut res: Vec<char> = Vec::new();
    res.push(a);
    assert(res@ =~= seq![a]);
    res
}

/// A word of two characters.
fn word2(a: char, b: char) -> (res: Vec<char>)
    ensures
        res@ == seq![a, b],
{
    let mut res: Vec<char> = Vec::new();
    res.push(a);
    res.push(b);
    assert(res@ =~= seq![a, b]);
    res
}

/// Whether the word `w` stands in `s` at position `i`.
pub fn lit_at_exec(s: &Vec<char>, i: usize, w: &Vec<char>) -> (res: bool)
    requires
        i <= s.len(),
    ensures
        res == lit_at(s@, i as int, w@),
{
    if w.len() > s.len() - i {
        return false;
    }
    let mut k: usize = 0;
    while k < w.len()
        invariant
            i + w.len() <= s.len(),
            k <= w.len(),
            forall|j: int| 0 <= j < k ==> s@[i + j] == w@[j],
        decreases w.len() - k,
    {
        if s[i + k] != w[k] {
            assert(s@.subrange(i as int, i + w@.len())[k as int] != w@[k as int]);
            return false;
        }
        k = k + 1;
    }
    assert(s@.subrange(i as int, i + w@.len()) =~= w@);
    true
}

/// The position after the optional word `w` at position `i`.
fn skip_opt_exec(s: &Vec<char>, i: usize, w: &Vec<char>) -> (res: usize)
    requires
        i <= s.len(),
    ensures
        res == skip_opt(s@, i as int, w@),
        res <= s.len(),
{
    if lit_at_exec(s, i, w) {
        i + w.len()
    } else {
        i
    }
}

fn is_dec_digit_exec(c: char) -> (res: bool)
    ensures
        res == is_dec_digit(c),
{
    let u = c as u32;
    48 <= u && u <= 57
}

fn is_hex_digit_exec(c: char) -> (res: bool)
    ensures
        res == is_hex_digit(c),
{
    let u = c as u32;
    (48 <= u && u <= 57) || (65 <= u && u <= 70) || (97 <= u && u <= 102)
}

/// The number of decimal digits in a row from position `i`.
fn dec_run_exec(s: &Vec<char>, i: usize) -> (res: usize)
    requires
        i <= s.len(),
    ensures
        res == dec_run(s@, i as int),
        i + res <= s.len(),
{
    let mut j: usize = i;
    while j < s.len() && is_dec_digit_exec(s[j])
        invariant
            i <= j <= s.len(),
            dec_run(s@, i as int) == (j - i) + dec_run(s@, j as int),
        decreases s.len() - j,
    {
        j = j + 1;
    }
    j - i
}

/// `16` to the power `k`.
pub open spec fn pow16(k: int) -> int
    decreases k,
{
    if k <= 0 {
        1
    } else {
        16 * pow16(k - 1)
    }
}

proof fn lemma_pow16_bound(k: int)
    requires
        0 <= k <= 5,
    ensures
        1 <= pow16(k) <= 1048576,
{
    reveal_with_fuel(pow16, 6);
}

/// The number that `n` digits from position `i` denote.
fn digits_value_exec(s: &Vec<char>, i: usize, n: usize, hex: bool) -> (res: u64)
    requires
        digits_in(s@, i as int, n as int, hex),
        n <= 5,
    ensures
        res == digits_value(s@, i as int, n as int, if hex { 16 } else { 10 }),
{
    let radix: u64 = if hex { 16 } else { 10 };
    let ghost r = radix as int;
    let mut v: u64 = 0;
    let mut bound: u64 = 1;
    let mut k: usize = 0;
    while k < n
        invariant
            digits_in(s@, i as int, n as int, hex),
            i + n <= s.len(),
            n <= 5,
            k <= n,
            r == (if hex { 16int } else { 10int }),
            radix == r,
            v == digits_value(s@, i as int, k as int, r),
            v < bound,
            1 <= bound <= pow16(k as int),
        decreases n - k,
    {
        let c = s[i + k];
        assert(if hex { is_hex_digit(s@[i + k]) } else { is_dec_digit(s@[i + k]) });
        let u = c as u32;
        let d: u64 = if u <= 57 {
            (u - 48) as u64
        } else if u <= 70 {
            (u - 55) as u64
        } else {
            (u - 87) as u64
        };
        proof {
            lemma_pow16_bound(k + 1);
            assert(pow16(k + 1) == 16 * pow16(k as int));
            assert(d < r);
            assert(v * r + d < bound * r) by (nonlinear_arith)
                requires
                    v < bound,
                    d < r,
                    r > 0,
            ;
            assert(bound * r <= pow16(k as int) * 16) by (nonlinear_arith)
                requires
                    bound <= pow16(k as int),
                    r <= 16,
                    bound >= 0,
            ;
        }
        v = v * radix + d;
        bound = bound * radix;
        k = k + 1;
    }
    v
}

/// The component written at position `i`, and the position after it.
fn number_at_exec(s: &Vec<char>, i: usize, form: NumberForm) -> (res: Option<(u64, usize)>)
    requires
        i <= s.len(),
        form.width <= 5,
    ensures
        match res {
            Some((v, e)) => number_at(s@, i as int, form) == Some((v as int, e as int)) && e
                <= s.len(),
            None => number_at(s@, i as int, form) is None,
        },
{
    if form.hex {
        if lit_at_exec(s, i, &word2('0', 'x')) {
            let start = i + 2;
            if form.width > s.len() - start {
                return None;
            }
            let mut k: usize = 0;
            while k < form.width
                invariant
                    start == i + 2,
                    form.hex,
                    start + form.width <= s.len(),
                    k <= form.width,
                    forall|j: int| start <= j < start + k ==> is_hex_digit(#[trigger] s@[j]),
                decreases form.width - k,
            {
                if !is_hex_digit_exec(s[start + k]) {
                    proof {
                        lemma_not_digits(s@, start as int, form.width as int, (start + k) as int);
                    }
                    return None;
                }
                k = k + 1;
            }
            let v = digits_value_exec(s, start, form.width, true);
            Some((v, start + form.width))
        } else {
            None
        }
    } else {
        let k = dec_run_exec(s, i);
        if 1 <= k && k <= form.width {
            proof {
                lemma_dec_run_digits(s@, i as int, k as int);
            }
            let v = digits_value_exec(s, i, k, false);
            Some((v, i + k))
        } else {
            None
        }
    }
}

/// A place without a hexadecimal digit among `n` places breaks a run of digits.
proof fn lemma_not_digits(s: Seq<char>, i: int, n: int, j: int)
    requires
        i <= j < i + n,
        0 <= j < s.len(),
        !is_hex_digit(s[j]),
    ensures
        !digits_in(s, i, n, true),
{
    if digits_in(s, i, n, true) {
        assert(is_hex_digit(s[j]));
    }
}

/// A run of decimal digits is made of decimal digits.
proof fn lemma_dec_run_digits(s: Seq<char>, i: int, n: int)
    requires
        0 <= i <= s.len(),
        0 <= n <= dec_run(s, i),
    ensures
        digits_in(s, i, n, false),
    decreases n,
{
    if n > 0 {
        assert(0 <= i < s.len() && is_dec_digit(s[i]));
        lemma_dec_run_digits(s, i + 1, n - 1);
        assert forall|k: int| i <= k < i + n implies is_dec_digit(s[k]) by {
            if k > i {
                assert(i + 1 <= k < i + 1 + (n - 1));
            }
        }
    }
}

/// The components from the `k`th on, written from position `i`, and the position
/// after the last of them.
fn fields_from_exec(s: &Vec<char>, i: usize, n: &FieldsNotation, k: usize) -> (res: Option<
    (Vec<u64>, usize),
>)
    requires
        i <= s.len(),
        n.form.width <= 5,
    ensures
        match res {
            Some((vs, e)) => fields_from(s@, i as int, n.view(), k as int) matches Some((svs, se))
                && se == e && svs == vs@.map_values(|v: u64| v as int) && e <= s.len(),
            None => fields_from(s@, i as int, n.view(), k as int) is None,
        },
    decreases n.labels.len() - k,
{
    if k >= n.labels.len() {
        return None;
    }
    let j = skip_opt_exec(s, i, &n.labels[k]);
    match number_at_exec(s, j, n.form) {
        None => None,
        Some((v, e)) => {
            if k + 1 == n.labels.len() {
                let mut vs: Vec<u64> = Vec::new();
                vs.push(v);
                assert(vs@.map_values(|v: u64| v as int) =~= seq![v as int]);
                Some((vs, e))
            } else if lit_at_exec(s, e, &word2(',', ' ')) {
                match fields_from_exec(s, e + 2, n, k + 1) {
                    Some((vs, f)) => {
                        let ghost old_vs = vs@;
                        let mut vs = vs;
                        vs.insert(0, v);
                        assert(vs@.map_values(|v: u64| v as int) =~= seq![v as int]
                            + old_vs.map_values(|v: u64| v as int));
                        Some((vs, f))
                    },
                    None => None,
                }
            } else {
                None
            }
        },
    }
}

/// The components of the notation when it matches at position `i`.
fn fields_match_at_exec(s: &Vec<char>, i: usize, n: &FieldsNotation) -> (res: Option<Vec<u64>>)
    requires
        i <= s.len(),
        n.form.width <= 5,
    ensures
        match res {
            Some(vs) => fields_match_at(s@, i as int, n.view()) == Some(
                vs@.map_values(|v: u64| v as int),
            ),
            None => fields_match_at(s@, i as int, n.view()) is None,
        },
{
    if !lit_at_exec(s, i, &n.tag) {
        return None;
    }
    let j = skip_opt_exec(s, i + n.tag.len(), &n.size);
    if !lit_at_exec(s, j, &word1('(')) {
        return None;
    }
    match fields_from_exec(s, j + 1, n, 0) {
        Some((vs, e)) => {
            if lit_at_exec(s, e, &word1(')')) {
                Some(vs)
            } else {
                None
            }
        },
        None => None,
    }
}

/// The components of the first match of the notation in the text.
pub fn first_fields_match_exec(s: &Vec<char>, n: &FieldsNotation) -> (res: Option<Vec<u64>>)
    requires
        n.form.width <= 5,
    ensures
        match res {
            Some(vs) => first_fields_match(s@, 0, n.view()) == Some(vs@.map_values(|v: u64| v as int)),
            None => first_fields_match(s@, 0, n.view()) is None,
        },
{
    let mut i: usize = 0;
    while i <= s.len()
        invariant
            n.form.width <= 5,
            first_fields_match(s@, 0, n.view()) == first_fields_match(s@, i as int, n.view()),
        decreases s.len() + 1 - i,
    {
        match fields_match_at_exec(s, i, n) {
            Some(vs) => {
                return Some(vs);
            },
            None => {},
        }
        if i == s.len() {
            assert(first_fields_match(s@, (i + 1) as int, n.view()) is None);
            return None;
        }
        i = i + 1;
    }
    None
}

/// The components of `#` and `count` pairs of hexadecimal digits at position `i`.
fn pango_match_at_exec(s: &Vec<char>, i: usize, count: usize) -> (res: Option<Vec<u64>>)
    requires
        i <= s.len(),
        count <= 4,
    ensures
        match res {
            Some(vs) => pango_match_at(s@, i as int, count as int) == Some(
                vs@.map_values(|v: u64| v as int),
            ),
            None => pango_match_at(s@, i as int, count as int) is None,
        },
{
    if !lit_at_exec(s, i, &word1('#')) {
        return None;
    }
    let start = i + 1;
    if 2 * count > s.len() - start {
        return None;
    }
    let mut k: usize = 0;
    while k < 2 * count
        invariant
            start == i + 1,
            start + 2 * count <= s.len(),
            k <= 2 * count,
            forall|j: int| start <= j < start + k ==> is_hex_digit(#[trigger] s@[j]),
        decreases 2 * count - k,
    {
        if !is_hex_digit_exec(s[start + k]) {
            proof {
                lemma_not_digits(s@, start as int, 2 * count as int, (start + k) as int);
            }
            return None;
        }
        k = k + 1;
    }
    let mut vs: Vec<u64> = Vec::new();
    let mut m: usize = 0;
    while m < count
        invariant
            count <= 4,
            start + 2 * count <= s.len(),
            digits_in(s@, start as int, 2 * count as int, true),
            m <= count,
            vs@.len() == m,
            forall|j: int|
                0 <= j < m ==> vs@[j] == digits_value(s@, start + 2 * j, 2, 16),
        decreases count - m,
    {
        let v = digits_value_exec(s, start + 2 * m, 2, true);
        vs.push(v);
        m = m + 1;
    }
    assert(vs@.map_values(|v: u64| v as int) =~= Seq::new(
        count as nat,
        |j: int| digits_value(s@, i + 1 + 2 * j, 2, 16),
    ));
    Some(vs)
}

/// The components of the first `#` notation in the text.
pub fn first_pango_match_exec(s: &Vec<char>, count: usize) -> (res: Option<Vec<u64>>)
    requires
        count <= 4,
    ensures
        match res {
            Some(vs) => first_pango_match(s@, 0, count as int) == Some(
                vs@.map_values(|v: u64| v as int),
            ),
            None => first_pango_match(s@, 0, count as int) is None,
        },
{
    let mut i: usize = 0;
    while i <= s.len()
        invariant
            count <= 4,
            first_pango_match(s@, 0, count as int) == first_pango_match(s@, i as int, count as int),
        decreases s.len() + 1 - i,
    {
        match pango_match_at_exec(s, i, count) {
            Some(vs) => {
                return Some(vs);
            },
            None => {},
        }
        if i == s.len() {
            assert(first_pango_match(s@, (i + 1) as int, count as int) is None);
            return None;
        }
        i = i + 1;
    }
    None
}

/// The components of a first match have one value per label.
proof fn lemma_fields_from_len(s: Seq<char>, i: int, n: NotationView, k: int)
    ensures
        fields_from(s, i, n, k) matches Some((vs, _)) ==> vs.len() == n.labels.len() - k,
    decreases n.labels.len() - k,
{
    if 0 <= k < n.labels.len() {
        if let Some((v, e)) = number_at(s, skip_opt(s, i, n.labels[k]), n.form) {
            if k + 1 != n.labels.len() && lit_at(s, e, seq![',', ' ']) {
                lemma_fields_from_len(s, e + 2, n, k + 1);
            }
        }
    }
}

/// A notation of named components gives one value per label.
pub proof fn lemma_first_fields_match_len(s: Seq<char>, i: int, n: NotationView)
    ensures
        first_fields_match(s, i, n) matches Some(vs) ==> vs.len() == n.labels.len(),
    decreases s.len() + 1 - i,
{
    if 0 <= i <= s.len() {
        if fields_match_at(s, i, n) is None {
            lemma_first_fields_match_len(s, i + 1, n);
        } else {
            lemma_fields_from_len(s, skip_opt(s, i + n.tag.len(), n.size) + 1, n, 0);
        }
    }
}

/// The `#` notation gives `count` values.
pub proof fn lemma_first_pango_match_len(s: Seq<char>, i: int, count: int)
    requires
        count >= 0,
    ensures
        first_pango_match(s, i, count) matches Some(vs) ==> vs.len() == count,
    decreases s.len() + 1 - i,
{
    if 0 <= i <= s.len() {
        if pango_match_at(s, i, count) is None {
            lemma_first_pango_match_len(s, i + 1, count);
        }
    }
}

/// The components that the first of the notations to match anywhere in the text
/// gives: the hexadecimal notation, then the decimal one, then (where `pango` is not
/// zero) the `#` notation with `pango` components.
pub open spec fn components_in(s: Seq<char>, hex: NotationView, dec: NotationView, pango: int) -> Option<Seq<int>> {
    match first_fields_match(s, 0, hex) {
        Some(vs) => Some(vs),
        None => match first_fields_match(s, 0, dec) {
            Some(vs) => Some(vs),
            None => if pango > 0 {
                first_pango_match(s, 0, pango)
            } else {
                None
            },
        },
    }
}

/// What reading components gives: the components where a notation matched and each
/// fits below `max`; `Err(true)` where one of them is too large; `Err(false)` where
/// no notation matched.
pub open spec fn read_components(found: Option<Seq<int>>, max: int) -> Result<Seq<int>, bool> {
    match found {
        None => Err(false),
        Some(vs) => if forall|k: int| 0 <= k < vs.len() ==> #[trigger] vs[k] <= max {
            Ok(vs)
        } else {
            Err(true)
        },
    }
}

/// Reads components from a text in the first of the notations that matches.
pub fn read_components_exec(
    text: &str,
    hex: &FieldsNotation,
    dec: &FieldsNotation,
    pango: usize,
    max: u64,
) -> (res: Result<Vec<u64>, bool>)
    requires
        hex.form.width <= 5,
        dec.form.width <= 5,
        pango <= 4,
        pango == 0 || pango == hex.labels.len(),
        dec.labels.len() == hex.labels.len(),
    ensures
        match res {
            Ok(vs) => read_components(components_in(text@, hex.view(), dec.view(), pango as int), max as int)
                == Ok::<Seq<int>, bool>(vs@.map_values(|v: u64| v as int)) && vs.len() == hex.labels.len(),
            Err(too_large) => read_components(components_in(text@, hex.view(), dec.view(), pango as int), max as int)
                == Err::<Seq<int>, bool>(too_large),
        },
{
    let s = chars_of(text);
    proof {
        lemma_first_fields_match_len(s@, 0, hex.view());
        lemma_first_fields_match_len(s@, 0, dec.view());
        lemma_first_pango_match_len(s@, 0, pango as int);
    }
    let found = match first_fields_match_exec(&s, hex) {
        Some(vs) => Some(vs),
        None => match first_fields_match_exec(&s, dec) {
            Some(vs) => Some(vs),
            None => if pango > 0 {
                first_pango_match_exec(&s, pango)
            } else {
                None
            },
        },
    };
    match found {
        None => Err(false),
        Some(vs) => {
            let ghost mapped = vs@.map_values(|v: u64| v as int);
            let ghost found_spec = components_in(text@, hex.view(), dec.view(), pango as int);
            assert(found_spec == Some(mapped));
            let mut k: usize = 0;
            while k < vs.len()
                invariant
                    k <= vs.len(),
                    mapped == vs@.map_values(|v: u64| v as int),
                    found_spec == Some(mapped),
                    found_spec == components_in(text@, hex.view(), dec.view(), pango as int),
                    forall|j: int| 0 <= j < k ==> vs@[j] <= max,
                decreases vs.len() - k,
            {
                if vs[k] > max {
                    assert(mapped[k as int] > max);
                    return Err(true);
                }
                k = k + 1;
            }
            assert forall|j: int| 0 <= j < mapped.len() implies #[trigger] mapped[j] <= max by {
                assert(vs@[j] <= max);
            }
            Ok(vs)
        },
    }
}

/// The uppercase hexadecimal digit for a value below sixteen.
pub open spec fn hex_char(d: int) -> char {
    if d == 0 { '0' } else if d == 1 { '1' } else if d == 2 { '2' } else if d == 3 { '3' }
    else if d == 4 { '4' } else if d == 5 { '5' } else if d == 6 { '6' } else if d == 7 { '7' }
    else if d == 8 { '8' } else if d == 9 { '9' } else if d == 10 { 'A' } else if d == 11 { 'B' }
    else if d == 12 { 'C' } else if d == 13 { 'D' } else if d == 14 { 'E' } else { 'F' }
}

/// The `n` lowest hexadecimal digits of `v`, most significant first.
pub open spec fn hex_text(v: int, n: int) -> Seq<char>
    decreases n,
{
    if n <= 0 {
        seq![]
    } else {
        hex_text(v / 16, n - 1).push(hex_char(v % 16))
    }
}

fn hex_char_exec(d: u64) -> (res: char)
    requires
        d < 16,
    ensures
        res == hex_char(d as int),
{
    if d == 0 { '0' } else if d == 1 { '1' } else if d == 2 { '2' } else if d == 3 { '3' }
    else if d == 4 { '4' } else if d == 5 { '5' } else if d == 6 { '6' } else if d == 7 { '7' }
    else if d == 8 { '8' } else if d == 9 { '9' } else if d == 10 { 'A' } else if d == 11 { 'B' }
    else if d == 12 { 'C' } else if d == 13 { 'D' } else if d == 14 { 'E' } else { 'F' }
}

/// The `n` lowest hexadecimal digits of `v`, most significant first.
pub fn hex_text_exec(v: u64, n: usize) -> (res: Vec<char>)
    ensures
        res@ == hex_text(v as int, n as int),
    decreases n,
{
    if n == 0 {
        Vec::new()
    } else {
        let mut res = hex_text_exec(v / 16, n - 1);
        res.push(hex_char_exec(v % 16));
        res
    }
}

/// Appends the characters of a word to a text under construction.
pub fn append_chars(text: &mut Vec<char>, word: &Vec<char>)
    ensures
        final(text)@ == old(text)@ + word@,
{
    let mut k: usize = 0;
    let ghost start = text@;
    while k < word.len()
        invariant
            k <= word.len(),
            text@ == start + word@.subrange(0, k as int),
        decreases word.len() - k,
    {
        text.push(word[k]);
        k = k + 1;
        assert(text@ =~= start + word@.subrange(0, k as int));
    }
    assert(word@.subrange(0, word@.len() as int) =~= word@);
}

/// Collects characters into a `String` through std's `FromIterator<char>` for
/// `String`: the string holds exactly the characters, in order.
#[verifier::external_body]
pub fn string_from_chars(chars: &Vec<char>) -> (res: String)
    ensures
        res@ == chars@,
{
    chars.iter().collect()
}

/// Digits read in place equal the same digits read from their own sequence.
pub proof fn lemma_digits_value_shift(s: Seq<char>, i: int, n: int, radix: int, t: Seq<char>)
    requires
        0 <= i,
        0 <= n,
        i + n <= s.len(),
        t == s.subrange(i, i + n),
    ensures
        digits_value(s, i, n, radix) == digits_value(t, 0, n, radix),
    decreases n,
{
    if n > 0 {
        lemma_digits_value_shift(s, i, n - 1, radix, s.subrange(i, i + n - 1));
        lemma_digits_value_prefix(t, n - 1, radix, s.subrange(i, i + n - 1));
        assert(t[n - 1] == s[i + n - 1]);
    }
}

/// The first `n` digits of a sequence read the same as those of its prefix.
proof fn lemma_digits_value_prefix(t: Seq<char>, n: int, radix: int, prefix: Seq<char>)
    requires
        0 <= n <= prefix.len(),
        n <= t.len(),
        forall|k: int| 0 <= k < n ==> t[k] == prefix[k],
    ensures
        digits_value(t, 0, n, radix) == digits_value(prefix, 0, n, radix),
    decreases n,
{
    if n > 0 {
        lemma_digits_value_prefix(t, n - 1, radix, prefix);
    }
}

/// The value of the uppercase hexadecimal digit for a value below sixteen is that
/// value.
proof fn lemma_hex_char(d: int)
    requires
        0 <= d < 16,
    ensures
        is_hex_digit(hex_char(d)),
        digit_value(hex_char(d)) == d,
{
}

/// `n` hexadecimal digits written for `v` read back as `v` modulo `16` to the `n`.
pub proof fn lemma_hex_text_value(v: int, n: int)
    requires
        0 <= v,
        0 <= n,
    ensures
        hex_text(v, n).len() == n,
        digits_in(hex_text(v, n), 0, n, true),
        digits_value(hex_text(v, n), 0, n, 16) == v % pow16(n),
    decreases n,
{
    if n > 0 {
        let prefix = hex_text(v / 16, n - 1);
        let t = hex_text(v, n);
        lemma_hex_text_value(v / 16, n - 1);
        lemma_hex_char(v % 16);
        assert(t == prefix.push(hex_char(v % 16)));
        lemma_digits_value_prefix(t, n - 1, 16, prefix);
        assert(pow16(n) == 16 * pow16(n - 1));
        lemma_pow16_positive(n - 1);
        vstd::arithmetic::div_mod::lemma_mod_breakdown(v, 16, pow16(n - 1));
        assert forall|k: int| 0 <= k < n implies is_hex_digit(#[trigger] t[k]) by {
            if k < n - 1 {
                assert(t[k] == prefix[k]);
            }
        }
    }
}

proof fn lemma_pow16_positive(k: int)
    ensures
        pow16(k) > 0,
    decreases k,
{
    if k > 0 {
        lemma_pow16_positive(k - 1);
    }
}

/// Hexadecimal digits written for `v` in a text read back as `v` where `v` fits in
/// them.
pub proof fn lemma_hex_in_text(s: Seq<char>, i: int, v: int, n: int)
    requires
        0 <= i,
        0 <= v < pow16(n),
        0 <= n,
        i + n <= s.len(),
        s.subrange(i, i + n) == hex_text(v, n),
    ensures
        digits_in(s, i, n, true),
        digits_value(s, i, n, 16) == v,
{
    lemma_hex_text_value(v, n);
    lemma_digits_value_shift(s, i, n, 16, hex_text(v, n));
    vstd::arithmetic::div_mod::lemma_small_mod(v as nat, pow16(n) as nat);
    assert forall|k: int| i <= k < i + n implies is_hex_digit(#[trigger] s[k]) by {
        assert(s[k] == s.subrange(i, i + n)[k - i]);
    }
}

} // verus!
