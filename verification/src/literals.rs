//! Lexical recognizers: identifiers, numeric and string literals, and the
//! literal dispatcher. Each recognizer either consumes a prefix of the input
//! matching its grammar or fails without consuming anything, and the
//! executable recognizers are proved to agree with the spec grammar exactly.

use vstd::prelude::*;

use crate::text::{ch_is_digit, ch_is_ident_start, chars_to_string, dec_digits_of, dec_int_of,
    digit_char, is_digit_char, is_ident_start, scan_digits, scan_ident_chars, sk_digits,
    sk_ident_chars, subvec, t1, t2, tag1, tag2};
use crate::token::{Literal, LiteralView, StrictNumber, StrictNumberView, VagueLiteralView,
    VagueLiteral};

verus! {

/// Ghost reading of a recognizer result that carries a text span.
pub open spec fn res_text_view(r: Option<(usize, String)>) -> Option<(int, Seq<char>)> {
    match r {
        Option::Some((p, s)) => Option::Some((p as int, s@)),
        Option::None => Option::None,
    }
}

/// Ghost reading of a recognizer result that carries a literal.
pub open spec fn res_literal_view(r: Option<(usize, Literal)>) -> Option<(int, LiteralView)> {
    match r {
        Option::Some((p, l)) => Option::Some((p as int, l@)),
        Option::None => Option::None,
    }
}

/// Ghost reading of a recognizer result that carries a strict number.
pub open spec fn res_number_view(r: Option<(usize, StrictNumber)>) -> Option<
    (int, StrictNumberView),
> {
    match r {
        Option::Some((p, n)) => Option::Some((p as int, n@)),
        Option::None => Option::None,
    }
}

/// An identifier: an ASCII letter or underscore, then letters, digits or
/// underscores. Returns the position after it and its text.
pub open spec fn spec_ident(s: Seq<char>, pos: int) -> Option<(int, Seq<char>)> {
    if 0 <= pos && pos < s.len() && is_ident_start(s[pos]) {
        let e = scan_ident_chars(s, pos + 1);
        if pos < e && e <= s.len() {
            Option::Some((e, s.subrange(pos, e)))
        } else {
            Option::None
        }
    } else {
        Option::None
    }
}

pub fn p_ident(v: &Vec<char>, pos: usize) -> (r: Option<(usize, String)>)
    requires
        pos <= v@.len(),
    ensures
        res_text_view(r) == spec_ident(v@, pos as int),
        r matches Some(p) ==> pos < p.0 <= v@.len(),
{
    if pos < v.len() && ch_is_ident_start(v[pos]) {
        let e = sk_ident_chars(v, pos + 1);
        let text = chars_to_string(&subvec(v, pos, e));
        Some((e, text))
    } else {
        None
    }
}

/// Whether a dot occurs anywhere in the input from `pos` on. The vague
/// integer recognizer refuses such input outright, so that a dotted number
/// later in the remaining text is never split into an integer prefix.
pub open spec fn has_dot_from(s: Seq<char>, pos: int) -> bool {
    exists|i: int| pos <= i < s.len() && s[i] == '.'
}

fn has_dot(v: &Vec<char>, pos: usize) -> (r: bool)
    requires
        pos <= v@.len(),
    ensures
        r == has_dot_from(v@, pos as int),
{
    let mut i = pos;
    while i < v.len()
        invariant
            pos <= i <= v@.len(),
            forall|j: int| pos <= j < i ==> v@[j] != '.',
        decreases v@.len() - i,
    {
        if v[i] == '.' {
            proof {
                assert(pos <= i < v@.len() && v@[i as int] == '.');
            }
            return true;
        }
        i = i + 1;
    }
    false
}

/// One or more decimal digits. Returns the position after them and their text.
pub open spec fn spec_digits_span(s: Seq<char>, pos: int) -> Option<(int, Seq<char>)> {
    if 0 <= pos && pos < s.len() && is_digit_char(s[pos]) {
        let e = scan_digits(s, pos + 1);
        if pos < e && e <= s.len() {
            Option::Some((e, s.subrange(pos, e)))
        } else {
            Option::None
        }
    } else {
        Option::None
    }
}

/// A vague integer literal: an optional leading minus sign, then digits. The
/// returned text is the whole matched numeral, sign included, so that the
/// text denotes the literal's value. Input whose remainder holds a dot
/// anywhere is refused.
pub open spec fn spec_int(s: Seq<char>, pos: int) -> Option<(int, Seq<char>)> {
    if has_dot_from(s, pos) {
        Option::None
    } else if tag1(s, pos, '-') {
        match spec_digits_span(s, pos + 1) {
            Option::Some((e, _digits)) => {
                if 0 <= pos && pos < e && e <= s.len() {
                    Option::Some((e, s.subrange(pos, e)))
                } else {
                    Option::None
                }
            },
            Option::None => Option::None,
        }
    } else {
        spec_digits_span(s, pos)
    }
}

/// The value a vague integer numeral denotes: its digits' value, negated
/// when the text carries a leading minus sign.
pub open spec fn int_text_val(ds: Seq<char>) -> int {
    if ds.len() > 0 && ds[0] == '-' {
        -(digits_val(ds.drop_first()) as int)
    } else {
        digits_val(ds) as int
    }
}

pub fn p_int(v: &Vec<char>, pos: usize) -> (r: Option<(usize, String)>)
    requires
        pos <= v@.len(),
    ensures
        res_text_view(r) == spec_int(v@, pos as int),
        r matches Some(p) ==> pos < p.0 <= v@.len(),
{
    if has_dot(v, pos) {
        return None;
    }
    let dstart = if t1(v, pos, '-') {
        pos + 1
    } else {
        pos
    };
    if dstart < v.len() && ch_is_digit(v[dstart]) {
        let e = sk_digits(v, dstart + 1);
        let text = chars_to_string(&subvec(v, pos, e));
        Some((e, text))
    } else {
        None
    }
}

/// First position at or after `pos` holding a double quote, or the length.
pub open spec fn find_quote(s: Seq<char>, pos: int) -> int
    decreases s.len() - pos,
{
    if 0 <= pos && pos < s.len() && s[pos] != '"' {
        find_quote(s, pos + 1)
    } else {
        pos
    }
}

fn p_find_quote(v: &Vec<char>, pos: usize) -> (r: usize)
    requires
        pos <= v@.len(),
    ensures
        pos <= r <= v@.len(),
        r as int == find_quote(v@, pos as int),
{
    let mut i = pos;
    while i < v.len() && v[i] != '"'
        invariant
            pos <= i <= v@.len(),
            find_quote(v@, pos as int) == find_quote(v@, i as int),
        decreases v@.len() - i,
    {
        i = i + 1;
    }
    i
}

/// A string literal: the text strictly between a pair of double quotes.
/// There is no escape support; the first closing quote ends the literal.
pub open spec fn spec_string_lit(s: Seq<char>, pos: int) -> Option<(int, Seq<char>)> {
    if tag1(s, pos, '"') {
        let q = find_quote(s, pos + 1);
        if pos + 1 <= q && q < s.len() {
            Option::Some((q + 1, s.subrange(pos + 1, q)))
        } else {
            Option::None
        }
    } else {
        Option::None
    }
}

pub fn p_string_lit(v: &Vec<char>, pos: usize) -> (r: Option<(usize, String)>)
    requires
        pos <= v@.len(),
    ensures
        res_text_view(r) == spec_string_lit(v@, pos as int),
        r matches Some(p) ==> pos < p.0 <= v@.len(),
{
    if t1(v, pos, '"') {
        let q = p_find_quote(v, pos + 1);
        if q < v.len() {
            let text = chars_to_string(&subvec(v, pos + 1, q));
            Some((q + 1, text))
        } else {
            None
        }
    } else {
        None
    }
}

/// The position after an optional exponent part at `pos`: `e` or `E`, an
/// optional sign, and digits. When the digits are missing the exponent is
/// not consumed at all.
pub open spec fn spec_exp_end(s: Seq<char>, pos: int) -> int {
    if tag1(s, pos, 'e') || tag1(s, pos, 'E') {
        let p1 = if tag1(s, pos + 1, '+') || tag1(s, pos + 1, '-') {
            pos + 2
        } else {
            pos + 1
        };
        match spec_digits_span(s, p1) {
            Option::Some((e2, _ds)) => {
                if pos <= e2 && e2 <= s.len() {
                    e2
                } else {
                    pos
                }
            },
            Option::None => pos,
        }
    } else {
        pos
    }
}

/// A floating literal: an optional sign, then either digits with an optional
/// fraction or a fraction alone (".5"), then an optional exponent.
/// Returns the full matched text, sign, dot and exponent included.
pub open spec fn spec_float(s: Seq<char>, pos: int) -> Option<(int, Seq<char>)> {
    let p1 = if tag1(s, pos, '-') || tag1(s, pos, '+') {
        pos + 1
    } else {
        pos
    };
    match spec_digits_span(s, p1) {
        Option::Some((e, _ds)) => {
            if 0 <= pos && pos <= p1 && p1 < e && e <= s.len() {
                if tag1(s, e, '.') {
                    let e2 = scan_digits(s, e + 1);
                    if e + 1 <= e2 && e2 <= s.len() {
                        let e3 = spec_exp_end(s, e2);
                        if e2 <= e3 && e3 <= s.len() {
                            Option::Some((e3, s.subrange(pos, e3)))
                        } else {
                            Option::None
                        }
                    } else {
                        Option::None
                    }
                } else {
                    let e3 = spec_exp_end(s, e);
                    if e <= e3 && e3 <= s.len() {
                        Option::Some((e3, s.subrange(pos, e3)))
                    } else {
                        Option::None
                    }
                }
            } else {
                Option::None
            }
        },
        Option::None => {
            if tag1(s, p1, '.') {
                match spec_digits_span(s, p1 + 1) {
                    Option::Some((e2, _ds)) => {
                        if 0 <= pos && pos <= p1 && p1 + 1 < e2 && e2 <= s.len() {
                            let e3 = spec_exp_end(s, e2);
                            if e2 <= e3 && e3 <= s.len() {
                                Option::Some((e3, s.subrange(pos, e3)))
                            } else {
                                Option::None
                            }
                        } else {
                            Option::None
                        }
                    },
                    Option::None => Option::None,
                }
            } else {
                Option::None
            }
        },
    }
}

pub fn p_float(v: &Vec<char>, pos: usize) -> (r: Option<(usize, String)>)
    requires
        pos <= v@.len(),
    ensures
        res_text_view(r) == spec_float(v@, pos as int),
        r matches Some(p) ==> pos < p.0 <= v@.len(),
{
    let p1 = if t1(v, pos, '-') || t1(v, pos, '+') {
        pos + 1
    } else {
        pos
    };
    if p1 < v.len() && ch_is_digit(v[p1]) {
        let e = sk_digits(v, p1 + 1);
        if t1(v, e, '.') {
            let e2 = sk_digits(v, e + 1);
            let e3 = p_exp_end(v, e2);
            let text = chars_to_string(&subvec(v, pos, e3));
            Some((e3, text))
        } else {
            let e3 = p_exp_end(v, e);
            let text = chars_to_string(&subvec(v, pos, e3));
            Some((e3, text))
        }
    } else if t1(v, p1, '.') && p1 + 1 < v.len() && ch_is_digit(v[p1 + 1]) {
        let e2 = sk_digits(v, p1 + 2);
        let e3 = p_exp_end(v, e2);
        let text = chars_to_string(&subvec(v, pos, e3));
        Some((e3, text))
    } else {
        None
    }
}

fn p_exp_end(v: &Vec<char>, pos: usize) -> (r: usize)
    requires
        pos <= v@.len(),
    ensures
        pos <= r <= v@.len(),
        r as int == spec_exp_end(v@, pos as int),
{
    if t1(v, pos, 'e') || t1(v, pos, 'E') {
        let p1 = if t1(v, pos + 1, '+') || t1(v, pos + 1, '-') {
            pos + 2
        } else {
            pos + 1
        };
        if p1 < v.len() && ch_is_digit(v[p1]) {
            sk_digits(v, p1 + 1)
        } else {
            pos
        }
    } else {
        pos
    }
}

/// The digit at `c`, or zero for any other character.
pub open spec fn digit_val(c: char) -> nat {
    if is_digit_char(c) {
        (c as u32 - 48) as nat
    } else {
        0
    }
}

/// The numeric value of a run of decimal digits.
pub open spec fn digits_val(ds: Seq<char>) -> nat
    decreases ds.len(),
{
    if ds.len() == 0 {
        0
    } else {
        digits_val(ds.drop_last()) * 10 + digit_val(ds.last())
    }
}

/// Computes the value of the digits of `v` between `from` and `to`, or
/// reports that it exceeds the largest representable value.
fn digits_value(v: &Vec<char>, from: usize, to: usize) -> (r: Option<u64>)
    requires
        from <= to <= v@.len(),
        forall|i: int| from <= i < to ==> is_digit_char(v@[i]),
    ensures
        match r {
            Option::Some(n) => n as nat == digits_val(v@.subrange(from as int, to as int)),
            Option::None => digits_val(v@.subrange(from as int, to as int)) > u64::MAX,
        },
{
    let mut acc: Option<u64> = Some(0);
    let mut i = from;
    proof {
        assert(v@.subrange(from as int, from as int) =~= Seq::<char>::empty());
    }
    while i < to
        invariant
            from <= i <= to <= v@.len(),
            forall|j: int| from <= j < to ==> is_digit_char(v@[j]),
            match acc {
                Option::Some(n) => n as nat == digits_val(v@.subrange(from as int, i as int)),
                Option::None => digits_val(v@.subrange(from as int, i as int)) > u64::MAX,
            },
        decreases to - i,
    {
        let c = v[i];
        let d: u64 = (c as u32 - 48) as u64;
        let ghost prefix = v@.subrange(from as int, i as int);
        proof {
            let next = v@.subrange(from as int, i + 1 as int);
            assert(next.drop_last() =~= prefix);
            assert(next.last() == v@[i as int]);
            assert(digits_val(next) == digits_val(prefix) * 10 + digit_val(v@[i as int]));
        }
        acc = match acc {
            Option::Some(n) => {
                let w: u128 = (n as u128) * 10 + (d as u128);
                if w > u64::MAX as u128 {
                    None
                } else {
                    Some(w as u64)
                }
            },
            Option::None => None,
        };
        i = i + 1;
    }
    acc
}

/// All characters that a digit scan passed over are digits.
proof fn lemma_scan_digits_chars(s: Seq<char>, pos: int)
    requires
        0 <= pos <= s.len(),
    ensures
        pos <= scan_digits(s, pos) <= s.len(),
        forall|i: int| pos <= i < scan_digits(s, pos) ==> is_digit_char(s[i]),
    decreases s.len() - pos,
{
    if pos < s.len() && is_digit_char(s[pos]) {
        lemma_scan_digits_chars(s, pos + 1);
    }
}

/// Parsing the decimal rendering of a value yields the value back.
pub proof fn lemma_digits_val_of_rendering(n: nat)
    ensures
        digits_val(dec_digits_of(n)) == n,
    decreases n,
{
    if n < 10 {
        let s = dec_digits_of(n);
        assert(s == seq![digit_char(n as int)]);
        assert(s.drop_last() =~= Seq::<char>::empty());
        assert(s.last() == digit_char(n as int));
        assert(digits_val(Seq::<char>::empty()) == 0);
        assert(digit_val(digit_char(n as int)) == n);
        assert(digits_val(s) == digits_val(s.drop_last()) * 10 + digit_val(s.last()));
    } else {
        lemma_digits_val_of_rendering(n / 10);
        let s = dec_digits_of(n);
        let prev = dec_digits_of(n / 10);
        assert(s == prev.push(digit_char((n % 10) as int)));
        assert(s.drop_last() =~= prev);
        assert(s.last() == digit_char((n % 10) as int));
        assert(digit_val(digit_char((n % 10) as int)) == n % 10);
    }
}

/// A digit scan over a known digit run stops exactly where the run ends.
pub proof fn lemma_scan_digits_stops(s: Seq<char>, pos: int, k: int)
    requires
        0 <= pos <= k <= s.len(),
        forall|i: int| pos <= i < k ==> is_digit_char(#[trigger] s[i]),
        k == s.len() || !is_digit_char(s[k]),
    ensures
        scan_digits(s, pos) == k,
    decreases k - pos,
{
    if pos < k {
        lemma_scan_digits_stops(s, pos + 1, k);
    }
}

/// The vague integer recognizer, run at the start of a rendered numeral
/// followed by non-numeric text, consumes exactly the numeral, returns its
/// full text, and that text denotes the rendered value.
pub proof fn lemma_spec_int_of_rendering(val: int, suf: Seq<char>)
    requires
        forall|i: int|
            0 <= i < suf.len() ==> !is_digit_char(#[trigger] suf[i]) && suf[i] != '.',
    ensures
        spec_int(dec_int_of(val) + suf, 0) == Option::Some(
            (dec_int_of(val).len() as int, dec_int_of(val)),
        ),
        int_text_val(dec_int_of(val)) == val,
{
    let d = dec_int_of(val);
    let s = d + suf;
    let mag: nat = if val < 0 {
        (-val) as nat
    } else {
        val as nat
    };
    let digits = dec_digits_of(mag);
    crate::text::lemma_dec_digits_chars(mag);
    lemma_digits_val_of_rendering(mag);
    if val < 0 {
        assert(d == seq!['-'] + digits);
        assert(d[0] == '-');
        assert(d.drop_first() =~= digits);
        assert forall|i: int| 0 <= i < s.len() implies s[i] != '.' by {
            if i == 0 {
            } else if i < d.len() {
                assert(s[i] == digits[i - 1]);
                assert(is_digit_char(s[i]));
            } else {
                assert(s[i] == suf[i - d.len()]);
            }
        }
        assert(!has_dot_from(s, 0));
        assert(tag1(s, 0, '-'));
        assert(s[1] == digits[0]);
        assert(is_digit_char(s[1]));
        assert forall|i: int| 2 <= i < 1 + digits.len() implies is_digit_char(s[i]) by {
            assert(s[i] == digits[i - 1]);
        }
        if 1 + digits.len() < s.len() {
            assert(s[1 + digits.len() as int] == suf[0]);
        }
        lemma_scan_digits_stops(s, 2, 1 + digits.len() as int);
        assert(s.subrange(0, d.len() as int) =~= d);
        assert(int_text_val(d) == -(digits_val(digits) as int));
    } else {
        assert(d =~= digits);
        assert(is_digit_char(s[0]));
        assert(!tag1(s, 0, '-'));
        assert forall|i: int| 0 <= i < s.len() implies s[i] != '.' by {
            if i < d.len() {
                assert(s[i] == digits[i]);
                assert(is_digit_char(s[i]));
            } else {
                assert(s[i] == suf[i - d.len()]);
            }
        }
        assert(!has_dot_from(s, 0));
        assert forall|i: int| 1 <= i < digits.len() implies is_digit_char(s[i]) by {
            assert(s[i] == digits[i]);
        }
        if digits.len() < s.len() {
            assert(s[digits.len() as int] == suf[0]);
        }
        lemma_scan_digits_stops(s, 1, digits.len() as int);
        assert(s.subrange(0, d.len() as int) =~= d);
        assert(d[0] != '-');
        assert(int_text_val(d) == digits_val(digits) as int);
    }
}

/// A strict integer: a vague integer immediately followed by one of the
/// fixed width suffixes, most specific first. A numeral that does not fit
/// the width its suffix names fails this recognizer rather than wrapping: a
/// value too large for the width, or a negative numeral with an unsigned
/// suffix.
pub open spec fn spec_strict_int(s: Seq<char>, pos: int) -> Option<(int, StrictNumberView)> {
    match spec_int(s, pos) {
        Option::None => Option::None,
        Option::Some((p, ds)) => {
            let n = int_text_val(ds);
            if tag2(s, p, 'b', 'i') && -128 <= n <= 127 {
                Option::Some((p + 2, StrictNumberView::ByteSigned(n as i8)))
            } else if tag1(s, p, 'b') && 0 <= n <= 255 {
                Option::Some((p + 1, StrictNumberView::Byte(n as u8)))
            } else if tag2(s, p, 's', 'i') && -32768 <= n <= 32767 {
                Option::Some((p + 2, StrictNumberView::SmallSigned(n as i16)))
            } else if tag1(s, p, 's') && 0 <= n <= 65535 {
                Option::Some((p + 1, StrictNumberView::Small(n as u16)))
            } else if tag2(s, p, 'm', 'i') && -2147483648 <= n <= 2147483647 {
                Option::Some((p + 2, StrictNumberView::MediumSigned(n as i32)))
            } else if tag1(s, p, 'm') && 0 <= n <= 4294967295 {
                Option::Some((p + 1, StrictNumberView::Medium(n as u32)))
            } else if tag2(s, p, 'l', 'i') && -9223372036854775808 <= n <= 9223372036854775807 {
                Option::Some((p + 2, StrictNumberView::LargeSigned(n as i64)))
            } else if tag1(s, p, 'l') && 0 <= n <= 18446744073709551615 {
                Option::Some((p + 1, StrictNumberView::Large(n as u64)))
            } else {
                Option::None
            }
        },
    }
}

pub fn p_strict_int(v: &Vec<char>, pos: usize) -> (r: Option<(usize, StrictNumber)>)
    requires
        pos <= v@.len(),
    ensures
        res_number_view(r) == spec_strict_int(v@, pos as int),
        r matches Some(p) ==> pos < p.0 <= v@.len(),
{
    let n = v.len();
    if has_dot(v, pos) {
        return None;
    }
    let sign = t1(v, pos, '-');
    let dstart = if sign {
        pos + 1
    } else {
        pos
    };
    if !(dstart < v.len() && ch_is_digit(v[dstart])) {
        return None;
    }
    let e = sk_digits(v, dstart + 1);
    proof {
        lemma_scan_digits_chars(v@, dstart + 1 as int);
        let ds = v@.subrange(pos as int, e as int);
        assert(spec_int(v@, pos as int) matches Option::Some(p) && p.0 == e as int && p.1 == ds);
        if sign {
            assert(ds[0] == '-');
            assert(ds.drop_first() =~= v@.subrange(dstart as int, e as int));
        } else {
            assert(is_digit_char(ds[0]));
            assert(ds =~= v@.subrange(dstart as int, e as int));
        }
    }
    let val = digits_value(v, dstart, e);
    match val {
        Option::None => None,
        Option::Some(m) => {
            if t2(v, e, 'b', 'i') && (if sign {
                m <= 128
            } else {
                m <= 127
            }) {
                let value: i8 = if sign {
                    if m == 128 {
                        i8::MIN
                    } else {
                        -(m as i8)
                    }
                } else {
                    m as i8
                };
                Some((e + 2, StrictNumber::ByteSigned(value)))
            } else if t1(v, e, 'b') && (!sign || m == 0) && m <= 255 {
                Some((e + 1, StrictNumber::Byte(m as u8)))
            } else if t2(v, e, 's', 'i') && (if sign {
                m <= 32768
            } else {
                m <= 32767
            }) {
                let value: i16 = if sign {
                    if m == 32768 {
                        i16::MIN
                    } else {
                        -(m as i16)
                    }
                } else {
                    m as i16
                };
                Some((e + 2, StrictNumber::SmallSigned(value)))
            } else if t1(v, e, 's') && (!sign || m == 0) && m <= 65535 {
                Some((e + 1, StrictNumber::Small(m as u16)))
            } else if t2(v, e, 'm', 'i') && (if sign {
                m <= 2147483648
            } else {
                m <= 2147483647
            }) {
                let value: i32 = if sign {
                    if m == 2147483648 {
                        i32::MIN
                    } else {
                        -(m as i32)
                    }
                } else {
                    m as i32
                };
                Some((e + 2, StrictNumber::MediumSigned(value)))
            } else if t1(v, e, 'm') && (!sign || m == 0) && m <= 4294967295 {
                Some((e + 1, StrictNumber::Medium(m as u32)))
            } else if t2(v, e, 'l', 'i') && (if sign {
                m <= 9223372036854775808
            } else {
                m <= 9223372036854775807
            }) {
                let value: i64 = if sign {
                    if m == 9223372036854775808 {
                        i64::MIN
                    } else {
                        -(m as i64)
                    }
                } else {
                    m as i64
                };
                Some((e + 2, StrictNumber::LargeSigned(value)))
            } else if t1(v, e, 'l') && (!sign || m == 0) {
                Some((e + 1, StrictNumber::Large(m)))
            } else {
                None
            }
        },
    }
}

/// A strict float: a floating literal followed by `m` (medium) or `l` (large).
pub open spec fn spec_strict_float(s: Seq<char>, pos: int) -> Option<(int, StrictNumberView)> {
    match spec_float(s, pos) {
        Option::Some((e, text)) => {
            if tag1(s, e, 'm') {
                Option::Some((e + 1, StrictNumberView::MediumFloat(text)))
            } else if tag1(s, e, 'l') {
                Option::Some((e + 1, StrictNumberView::LargeFloat(text)))
            } else {
                Option::None
            }
        },
        Option::None => Option::None,
    }
}

pub fn p_strict_float(v: &Vec<char>, pos: usize) -> (r: Option<(usize, StrictNumber)>)
    requires
        pos <= v@.len(),
    ensures
        res_number_view(r) == spec_strict_float(v@, pos as int),
        r matches Some(p) ==> pos < p.0 <= v@.len(),
{
    match p_float(v, pos) {
        Option::Some((e, text)) => {
            if t1(v, e, 'm') {
                Some((e + 1, StrictNumber::MediumFloat(text)))
            } else if t1(v, e, 'l') {
                Some((e + 1, StrictNumber::LargeFloat(text)))
            } else {
                None
            }
        },
        Option::None => None,
    }
}

/// A literal: a string, a strict integer, a vague integer, a strict float,
/// or a vague float: first match wins. in that order.
pub open spec fn spec_literal(s: Seq<char>, pos: int) -> Option<(int, LiteralView)> {
    match spec_string_lit(s, pos) {
        Option::Some((p, text)) => Option::Some((p, LiteralView::String(text))),
        Option::None => match spec_strict_int(s, pos) {
            Option::Some((p, n)) => Option::Some((p, LiteralView::Number(n))),
            Option::None => match spec_int(s, pos) {
                Option::Some((p, ds)) => Option::Some(
                    (p, LiteralView::Vague(VagueLiteralView::Integer(ds))),
                ),
                Option::None => match spec_strict_float(s, pos) {
                    Option::Some((p, n)) => Option::Some((p, LiteralView::Number(n))),
                    Option::None => match spec_float(s, pos) {
                        Option::Some((p, text)) => Option::Some(
                            (p, LiteralView::Vague(VagueLiteralView::Float(text))),
                        ),
                        Option::None => Option::None,
                    },
                },
            },
        },
    }
}

/// Recognizes one literal at `pos`.
pub fn literal(v: &Vec<char>, pos: usize) -> (r: Option<(usize, Literal)>)
    requires
        pos <= v@.len(),
    ensures
        res_literal_view(r) == spec_literal(v@, pos as int),
        r matches Some(p) ==> pos < p.0 <= v@.len(),
{
    match p_string_lit(v, pos) {
        Option::Some((p, text)) => Some((p, Literal::String(text))),
        Option::None => match p_strict_int(v, pos) {
            Option::Some((p, n)) => Some((p, Literal::Number(n))),
            Option::None => match p_int(v, pos) {
                Option::Some((p, ds)) => Some((p, Literal::Vague(VagueLiteral::Integer(ds)))),
                Option::None => match p_strict_float(v, pos) {
                    Option::Some((p, n)) => Some((p, Literal::Number(n))),
                    Option::None => match p_float(v, pos) {
                        Option::Some((p, text)) => Some(
                            (p, Literal::Vague(VagueLiteral::Float(text))),
                        ),
                        Option::None => None,
                    },
                },
            },
        },
    }
}

} // verus!
