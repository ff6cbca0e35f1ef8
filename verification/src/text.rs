//! Character classes, scanners over position-tracked character buffers, and
//! small text utilities (decimal rendering, per-line trimming) shared by the
//! parser, the printer and the translator.
//!
//! Spec scanners return positions. Where a spec function uses a position that
//! another spec function produced, an explicit bounds test guards the use, so
//! that termination of the mutually recursive grammar functions is evident;
//! the executable code proves that those guards always hold.

use vstd::prelude::*;

verus! {

/// Space characters inside a line: space and tab.
pub open spec fn is_space(c: char) -> bool {
    c == ' ' || c == '\t'
}

/// Whitespace between statements: space, tab, or newline.
pub open spec fn is_line_space(c: char) -> bool {
    is_space(c) || c == '\n'
}

/// Whitespace that line-trimming removes: space, tab, carriage return or
/// newline.
pub open spec fn is_trim_char(c: char) -> bool {
    is_line_space(c) || c == '\r'
}

/// A decimal digit.
pub open spec fn is_digit_char(c: char) -> bool {
    48 <= c as u32 && c as u32 <= 57
}

/// A character that may start an identifier: an ASCII letter or underscore.
pub open spec fn is_ident_start(c: char) -> bool {
    (65 <= c as u32 && c as u32 <= 90) || (97 <= c as u32 && c as u32 <= 122) || c == '_'
}

/// A character that may continue an identifier.
pub open spec fn is_ident_char(c: char) -> bool {
    is_ident_start(c) || is_digit_char(c)
}

pub fn ch_is_space(c: char) -> (r: bool)
    ensures
        r == is_space(c),
{
    c == ' ' || c == '\t'
}

pub fn ch_is_line_space(c: char) -> (r: bool)
    ensures
        r == is_line_space(c),
{
    c == ' ' || c == '\t' || c == '\n'
}

pub fn ch_is_trim_char(c: char) -> (r: bool)
    ensures
        r == is_trim_char(c),
{
    ch_is_line_space(c) || c == '\r'
}

pub fn ch_is_digit(c: char) -> (r: bool)
    ensures
        r == is_digit_char(c),
{
    let u = c as u32;
    48 <= u && u <= 57
}

pub fn ch_is_ident_start(c: char) -> (r: bool)
    ensures
        r == is_ident_start(c),
{
    let u = c as u32;
    (65 <= u && u <= 90) || (97 <= u && u <= 122) || c == '_'
}

pub fn ch_is_ident_char(c: char) -> (r: bool)
    ensures
        r == is_ident_char(c),
{
    ch_is_ident_start(c) || ch_is_digit(c)
}

/// First position at or after `pos` that does not hold a space or tab.
pub open spec fn skip_spaces(s: Seq<char>, pos: int) -> int
    decreases s.len() - pos,
{
    if 0 <= pos && pos < s.len() && is_space(s[pos]) {
        skip_spaces(s, pos + 1)
    } else {
        pos
    }
}

/// First position at or after `pos` that does not hold a space, tab or newline.
pub open spec fn skip_line_spaces(s: Seq<char>, pos: int) -> int
    decreases s.len() - pos,
{
    if 0 <= pos && pos < s.len() && is_line_space(s[pos]) {
        skip_line_spaces(s, pos + 1)
    } else {
        pos
    }
}

/// First position at or after `pos` that does not hold an identifier character.
pub open spec fn scan_ident_chars(s: Seq<char>, pos: int) -> int
    decreases s.len() - pos,
{
    if 0 <= pos && pos < s.len() && is_ident_char(s[pos]) {
        scan_ident_chars(s, pos + 1)
    } else {
        pos
    }
}

/// First position at or after `pos` that does not hold a decimal digit.
pub open spec fn scan_digits(s: Seq<char>, pos: int) -> int
    decreases s.len() - pos,
{
    if 0 <= pos && pos < s.len() && is_digit_char(s[pos]) {
        scan_digits(s, pos + 1)
    } else {
        pos
    }
}

pub fn sk_spaces(v: &Vec<char>, pos: usize) -> (r: usize)
    requires
        pos <= v@.len(),
    ensures
        pos <= r <= v@.len(),
        r as int == skip_spaces(v@, pos as int),
{
    let mut i = pos;
    while i < v.len() && ch_is_space(v[i])
        invariant
            pos <= i <= v@.len(),
            skip_spaces(v@, pos as int) == skip_spaces(v@, i as int),
        decreases v@.len() - i,
    {
        i = i + 1;
    }
    i
}

pub fn sk_line_spaces(v: &Vec<char>, pos: usize) -> (r: usize)
    requires
        pos <= v@.len(),
    ensures
        pos <= r <= v@.len(),
        r as int == skip_line_spaces(v@, pos as int),
{
    let mut i = pos;
    while i < v.len() && ch_is_line_space(v[i])
        invariant
            pos <= i <= v@.len(),
            skip_line_spaces(v@, pos as int) == skip_line_spaces(v@, i as int),
        decreases v@.len() - i,
    {
        i = i + 1;
    }
    i
}

pub fn sk_ident_chars(v: &Vec<char>, pos: usize) -> (r: usize)
    requires
        pos <= v@.len(),
    ensures
        pos <= r <= v@.len(),
        r as int == scan_ident_chars(v@, pos as int),
{
    let mut i = pos;
    while i < v.len() && ch_is_ident_char(v[i])
        invariant
            pos <= i <= v@.len(),
            scan_ident_chars(v@, pos as int) == scan_ident_chars(v@, i as int),
        decreases v@.len() - i,
    {
        i = i + 1;
    }
    i
}

pub fn sk_digits(v: &Vec<char>, pos: usize) -> (r: usize)
    requires
        pos <= v@.len(),
    ensures
        pos <= r <= v@.len(),
        r as int == scan_digits(v@, pos as int),
{
    let mut i = pos;
    while i < v.len() && ch_is_digit(v[i])
        invariant
            pos <= i <= v@.len(),
            scan_digits(v@, pos as int) == scan_digits(v@, i as int),
        decreases v@.len() - i,
    {
        i = i + 1;
    }
    i
}

/// One fixed character stands at `pos`.
pub open spec fn tag1(s: Seq<char>, pos: int, c: char) -> bool {
    0 <= pos && pos + 1 <= s.len() && s[pos] == c
}

/// Two fixed characters stand at `pos`.
pub open spec fn tag2(s: Seq<char>, pos: int, c0: char, c1: char) -> bool {
    0 <= pos && pos + 2 <= s.len() && s[pos] == c0 && s[pos + 1] == c1
}

/// Three fixed characters stand at `pos`.
pub open spec fn tag3(s: Seq<char>, pos: int, c0: char, c1: char, c2: char) -> bool {
    0 <= pos && pos + 3 <= s.len() && s[pos] == c0 && s[pos + 1] == c1 && s[pos + 2] == c2
}

pub fn t1(v: &Vec<char>, pos: usize, c: char) -> (r: bool)
    ensures
        r == tag1(v@, pos as int, c),
        v@.len() <= usize::MAX,
{
    pos < v.len() && v[pos] == c
}

pub fn t2(v: &Vec<char>, pos: usize, c0: char, c1: char) -> (r: bool)
    ensures
        r == tag2(v@, pos as int, c0, c1),
        v@.len() <= usize::MAX,
{
    pos < v.len() && v.len() - pos >= 2 && v[pos] == c0 && v[pos + 1] == c1
}

pub fn t3(v: &Vec<char>, pos: usize, c0: char, c1: char, c2: char) -> (r: bool)
    ensures
        r == tag3(v@, pos as int, c0, c1, c2),
        v@.len() <= usize::MAX,
{
    pos < v.len() && v.len() - pos >= 3 && v[pos] == c0 && v[pos + 1] == c1 && v[pos + 2] == c2
}

/// Copies the characters of `v` between `from` and `to` into a fresh buffer.
pub fn subvec(v: &Vec<char>, from: usize, to: usize) -> (r: Vec<char>)
    requires
        from <= to <= v@.len(),
    ensures
        r@ == v@.subrange(from as int, to as int),
{
    let mut out: Vec<char> = Vec::new();
    let mut i = from;
    while i < to
        invariant
            from <= i <= to <= v@.len(),
            out@ == v@.subrange(from as int, i as int),
        decreases to - i,
    {
        out.push(v[i]);
        i = i + 1;
        proof {
            assert(out@ =~= v@.subrange(from as int, i as int));
        }
    }
    out
}

/// Relies on `str` iteration via `String::from_iter` (through `collect`):
/// the resulting string holds exactly the given characters, in order.
#[verifier::external_body]
pub fn chars_to_string(v: &Vec<char>) -> (r: String)
    ensures
        r@ == v@,
{
    v.iter().collect()
}

/// Reads the characters of a string slice into a buffer.
pub fn str_to_chars(s: &str) -> (r: Vec<char>)
    ensures
        r@ == s@,
{
    let n = s.unicode_len();
    let mut out: Vec<char> = Vec::new();
    let mut i: usize = 0;
    while i < n
        invariant
            i <= n,
            n == s@.len(),
            out@ == s@.subrange(0, i as int),
        decreases n - i,
    {
        out.push(s.get_char(i));
        i = i + 1;
        proof {
            assert(out@ =~= s@.subrange(0, i as int));
        }
    }
    proof {
        assert(out@ =~= s@);
    }
    out
}

/// The decimal digit character for `d` (0 through 9).
pub open spec fn digit_char(d: int) -> char {
    if d == 0 {
        '0'
    } else if d == 1 {
        '1'
    } else if d == 2 {
        '2'
    } else if d == 3 {
        '3'
    } else if d == 4 {
        '4'
    } else if d == 5 {
        '5'
    } else if d == 6 {
        '6'
    } else if d == 7 {
        '7'
    } else if d == 8 {
        '8'
    } else {
        '9'
    }
}

/// The decimal rendering of `n`, without sign and without leading zeros
/// (a single zero renders as "0").
pub open spec fn dec_digits_of(n: nat) -> Seq<char>
    decreases n,
{
    if n < 10 {
        seq![digit_char(n as int)]
    } else {
        dec_digits_of(n / 10).push(digit_char((n % 10) as int))
    }
}

/// A decimal rendering is never empty and holds digit characters alone.
pub proof fn lemma_dec_digits_chars(n: nat)
    ensures
        dec_digits_of(n).len() >= 1,
        forall|i: int|
            0 <= i < dec_digits_of(n).len() ==> is_digit_char(#[trigger] dec_digits_of(n)[i]),
    decreases n,
{
    if n < 10 {
        assert(is_digit_char(digit_char(n as int)));
    } else {
        lemma_dec_digits_chars(n / 10);
        let prev = dec_digits_of(n / 10);
        let s = dec_digits_of(n);
        assert(s == prev.push(digit_char((n % 10) as int)));
        assert(is_digit_char(digit_char((n % 10) as int)));
        assert forall|i: int| 0 <= i < s.len() implies is_digit_char(s[i]) by {
            if i < prev.len() {
                assert(s[i] == prev[i]);
            } else {
                assert(s[i] == digit_char((n % 10) as int));
            }
        }
    }
}

/// The decimal rendering of `i`, with a leading minus sign when negative.
pub open spec fn dec_int_of(i: int) -> Seq<char> {
    if i < 0 {
        seq!['-'] + dec_digits_of((-i) as nat)
    } else {
        dec_digits_of(i as nat)
    }
}

fn digit_to_char(d: u64) -> (c: char)
    requires
        d < 10,
    ensures
        c == digit_char(d as int),
{
    if d == 0 {
        '0'
    } else if d == 1 {
        '1'
    } else if d == 2 {
        '2'
    } else if d == 3 {
        '3'
    } else if d == 4 {
        '4'
    } else if d == 5 {
        '5'
    } else if d == 6 {
        '6'
    } else if d == 7 {
        '7'
    } else if d == 8 {
        '8'
    } else {
        '9'
    }
}

/// Renders `n` in decimal.
pub fn u64_to_string(n: u64) -> (r: String)
    ensures
        r@ == dec_digits_of(n as nat),
{
    let mut out: Vec<char> = Vec::new();
    let mut m: u64 = n;
    while m >= 10
        invariant
            dec_digits_of(n as nat) == dec_digits_of(m as nat) + out@,
        decreases m,
    {
        let d = m % 10;
        let prev_m = m;
        let ghost prev = out@;
        m = m / 10;
        out.insert(0, digit_to_char(d));
        proof {
            assert(out@ =~= seq![digit_char(d as int)] + prev);
            assert(dec_digits_of(prev_m as nat) == dec_digits_of(m as nat).push(
                digit_char(d as int),
            ));
            assert(dec_digits_of(m as nat) + out@ =~= (dec_digits_of(m as nat).push(
                digit_char(d as int),
            )) + prev);
        }
    }
    let ghost prev = out@;
    let last = m;
    out.insert(0, digit_to_char(m));
    proof {
        assert(out@ =~= seq![digit_char(last as int)] + prev);
        assert(dec_digits_of(last as nat) =~= seq![digit_char(last as int)]);
        assert(out@ =~= dec_digits_of(last as nat) + prev);
    }
    chars_to_string(&out)
}

/// Renders `i` in decimal with sign.
pub fn i64_to_string(i: i64) -> (r: String)
    ensures
        r@ == dec_int_of(i as int),
{
    if i >= 0 {
        u64_to_string(i as u64)
    } else {
        let m: u64 = if i == i64::MIN {
            9223372036854775808u64
        } else {
            (-i) as u64
        };
        let mut s = String::new();
        let digits = u64_to_string(m);
        let minus = minus_string();
        s.append(minus.as_str());
        s.append(digits.as_str());
        s
    }
}

/// First position at or after `pos` that does not hold trimmable whitespace.
pub open spec fn skip_trim_chars(s: Seq<char>, pos: int) -> int
    decreases s.len() - pos,
{
    if 0 <= pos && pos < s.len() && is_trim_char(s[pos]) {
        skip_trim_chars(s, pos + 1)
    } else {
        pos
    }
}

/// First position at or before `pos`, scanning backward, whose preceding
/// character is not trimmable whitespace.
pub open spec fn rskip_trim_chars(s: Seq<char>, pos: int) -> int
    decreases pos,
{
    if 0 < pos && pos <= s.len() && is_trim_char(s[pos - 1]) {
        rskip_trim_chars(s, pos - 1)
    } else {
        pos
    }
}

/// `s` with leading and trailing whitespace removed.
pub open spec fn trim_of(s: Seq<char>) -> Seq<char> {
    let a = skip_trim_chars(s, 0);
    let b = rskip_trim_chars(s, s.len() as int);
    if 0 <= a && a <= b && b <= s.len() {
        s.subrange(a, b)
    } else {
        Seq::empty()
    }
}

/// Trims whitespace from both ends of a character buffer.
pub fn trim_chars(v: &Vec<char>) -> (r: Vec<char>)
    ensures
        r@ == trim_of(v@),
{
    let mut a: usize = 0;
    while a < v.len() && ch_is_trim_char(v[a])
        invariant
            a <= v@.len(),
            skip_trim_chars(v@, 0) == skip_trim_chars(v@, a as int),
        decreases v@.len() - a,
    {
        a = a + 1;
    }
    let mut b = v.len();
    while b > 0 && ch_is_trim_char(v[b - 1])
        invariant
            b <= v@.len(),
            rskip_trim_chars(v@, v@.len() as int) == rskip_trim_chars(v@, b as int),
        decreases b,
    {
        b = b - 1;
    }
    if a <= b {
        subvec(v, a, b)
    } else {
        Vec::new()
    }
}

/// First position at or after `pos` holding a newline, or the length of `s`.
pub open spec fn find_nl(s: Seq<char>, pos: int) -> int
    decreases s.len() - pos,
{
    if 0 <= pos && pos < s.len() && s[pos] != '\n' {
        find_nl(s, pos + 1)
    } else {
        pos
    }
}

pub fn find_newline(v: &Vec<char>, pos: usize) -> (r: usize)
    requires
        pos <= v@.len(),
    ensures
        pos <= r <= v@.len(),
        r as int == find_nl(v@, pos as int),
{
    let mut i = pos;
    while i < v.len() && v[i] != '\n'
        invariant
            pos <= i <= v@.len(),
            find_nl(v@, pos as int) == find_nl(v@, i as int),
        decreases v@.len() - i,
    {
        i = i + 1;
    }
    i
}

/// The lines of `s` from `pos` on, split at newline characters; every text
/// has at least one (possibly empty) line.
pub open spec fn split_from(s: Seq<char>, pos: int) -> Seq<Seq<char>>
    decreases s.len() - pos,
{
    let e = find_nl(s, pos);
    if 0 <= pos && pos <= e && e < s.len() {
        seq![s.subrange(pos, e)] + split_from(s, e + 1)
    } else if 0 <= pos && pos <= e && e == s.len() {
        seq![s.subrange(pos, e)]
    } else {
        seq![Seq::empty()]
    }
}

/// The given lines, each trimmed, joined with single newlines.
pub open spec fn join_trimmed(parts: Seq<Seq<char>>) -> Seq<char>
    decreases parts.len(),
{
    if parts.len() == 0 {
        Seq::empty()
    } else if parts.len() == 1 {
        trim_of(parts[0])
    } else {
        trim_of(parts[0]) + seq!['\n'] + join_trimmed(parts.drop_first())
    }
}

/// `s` with every line trimmed of leading and trailing spaces and tabs.
pub open spec fn spec_trim_lines(s: Seq<char>) -> Seq<char> {
    join_trimmed(split_from(s, 0))
}

/// Trims each line of the buffer and joins the lines back with newlines.
pub fn trim_lines_chars(v: &Vec<char>) -> (r: Vec<char>)
    ensures
        r@ == spec_trim_lines(v@),
{
    let mut out: Vec<char> = Vec::new();
    let mut pos: usize = 0;
    loop
        invariant_except_break
            pos <= v@.len(),
            spec_trim_lines(v@) == out@ + join_trimmed(split_from(v@, pos as int)),
        ensures
            out@ == spec_trim_lines(v@),
        decreases v@.len() - pos,
    {
        let e = find_newline(v, pos);
        let seg = subvec(v, pos, e);
        let mut piece = trim_chars(&seg);
        let ghost out_prev = out@;
        let ghost piece_view = piece@;
        out.append(&mut piece);
        proof {
            assert(out@ =~= out_prev + piece_view);
        }
        if e == v.len() {
            proof {
                assert(join_trimmed(split_from(v@, pos as int)) == trim_of(seg@));
                assert(spec_trim_lines(v@) =~= out@);
            }
            break;
        }
        proof {
            let parts = split_from(v@, pos as int);
            let rest = split_from(v@, e + 1 as int);
            assert(rest.len() >= 1);
            assert(parts =~= seq![v@.subrange(pos as int, e as int)] + rest);
            assert(parts.drop_first() =~= rest);
            assert(join_trimmed(parts) =~= trim_of(seg@) + seq!['\n'] + join_trimmed(rest));
        }
        out.push('\n');
        proof {
            assert(out@ =~= (out_prev + piece_view).push('\n'));
            assert(out@ =~= out_prev + piece_view + seq!['\n']);
            assert(spec_trim_lines(v@) =~= out@ + join_trimmed(
                split_from(v@, e + 1 as int),
            ));
        }
        pos = e + 1;
    }
    out
}

/// Every character of `s` is whitespace.
pub open spec fn blankish(s: Seq<char>) -> bool {
    forall|i: int| 0 <= i < s.len() ==> is_trim_char(s[i])
}

/// Whether a rendered string holds only whitespace.
pub fn str_blankish(s: &str) -> (r: bool)
    ensures
        r == blankish(s@),
{
    let n = s.unicode_len();
    let mut i: usize = 0;
    while i < n
        invariant
            i <= n,
            n == s@.len(),
            forall|j: int| 0 <= j < i ==> is_trim_char(s@[j]),
        decreases n - i,
    {
        if !ch_is_trim_char(s.get_char(i)) {
            return false;
        }
        i = i + 1;
    }
    true
}

/// A one-character string holding the minus sign.
fn minus_string() -> (r: String)
    ensures
        r@ == seq!['-'],
{
    let mut v: Vec<char> = Vec::new();
    v.push('-');
    proof {
        assert(v@ =~= seq!['-']);
    }
    chars_to_string(&v)
}

} // verus!
