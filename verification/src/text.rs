//! Decimal numbers, trimming and small building blocks for display text.

use vstd::prelude::*;

verus! {

/// `String::push` appends the given character to the end of the string.
pub assume_specification[ String::push ](s: &mut String, c: char)
    ensures
        final(s)@ == old(s)@.push(c),
;

// ---- decimal digits ------------------------------------------------------

pub open spec fn is_digit(c: char) -> bool {
    '0' <= c && c <= '9'
}

pub open spec fn all_digits(s: Seq<char>) -> bool {
    forall|i: int| 0 <= i < s.len() ==> is_digit(#[trigger] s[i])
}

pub open spec fn digit_value(c: char) -> int {
    c as int - '0' as int
}

/// The character of a digit below ten.
pub open spec fn digit_char(d: int) -> char {
    ('0' as int + d) as char
}

/// The number that a run of digits stands for; an empty run stands for zero.
pub open spec fn digits_value(s: Seq<char>) -> int
    decreases s.len(),
{
    if s.len() == 0 {
        0
    } else {
        digits_value(s.drop_last()) * 10 + digit_value(s.last())
    }
}

/// A number in decimal, without leading zeros.
pub open spec fn decimal(n: nat) -> Seq<char>
    decreases n,
{
    if n < 10 {
        seq![digit_char(n as int)]
    } else {
        decimal(n / 10).push(digit_char((n % 10) as int))
    }
}

/// A run of zeros.
pub open spec fn zeros(n: int) -> Seq<char> {
    Seq::new(
        if n < 0 {
            0
        } else {
            n as nat
        },
        |i: int| '0',
    )
}

/// A number in decimal, filled with zeros on the left up to `width` digits.
pub open spec fn padded(n: nat, width: int) -> Seq<char> {
    zeros(width - decimal(n).len()) + decimal(n)
}

/// A signed number in decimal, filled with zeros between the sign and the
/// digits; the sign takes one place of the width.
pub open spec fn padded_signed(v: int, width: int) -> Seq<char> {
    if v < 0 {
        seq!['-'] + padded((-v) as nat, width - 1)
    } else {
        padded(v as nat, width)
    }
}

/// A signed number in decimal.
pub open spec fn decimal_signed(v: int) -> Seq<char> {
    if v < 0 {
        seq!['-'] + decimal((-v) as nat)
    } else {
        decimal(v as nat)
    }
}

/// What reading `s` as an integer gives: an optional sign (a minus only where
/// `signed`), then at least one digit and nothing else, within `lo..=hi`.
pub open spec fn parsed_int(s: Seq<char>, signed: bool, lo: int, hi: int) -> Option<int> {
    let negative = signed && s.len() > 0 && s[0] == '-';
    let marked = s.len() > 0 && (s[0] == '+' || (signed && s[0] == '-'));
    let body = if marked {
        s.subrange(1, s.len() as int)
    } else {
        s
    };
    let magnitude = digits_value(body);
    let v = if negative {
        -magnitude
    } else {
        magnitude
    };
    if body.len() > 0 && all_digits(body) && lo <= v <= hi {
        Some(v)
    } else {
        None
    }
}

pub open spec fn parsed_i32(s: Seq<char>) -> Option<int> {
    parsed_int(s, true, i32::MIN as int, i32::MAX as int)
}

pub open spec fn parsed_u32(s: Seq<char>) -> Option<int> {
    parsed_int(s, false, 0, u32::MAX as int)
}

pub open spec fn parsed_i64(s: Seq<char>) -> Option<int> {
    parsed_int(s, true, i64::MIN as int, i64::MAX as int)
}

/// The characters of a string, in order.
pub fn chars_of(s: &str) -> (v: Vec<char>)
    ensures
        v@ == s@,
{
    let mut v: Vec<char> = Vec::new();
    for c in it: s.chars()
        invariant
            v@ == s@.take(it.index() as int),
            it.seq() == s@,
    {
        v.push(c);
    }
    v
}

/// A string made of the given characters, from `from` up to `to`.
pub fn string_of(v: &Vec<char>, from: usize, to: usize) -> (s: String)
    requires
        from <= to <= v@.len(),
    ensures
        s@ == v@.subrange(from as int, to as int),
{
    let mut s = String::new();
    let mut i: usize = from;
    while i < to
        invariant
            from <= i <= to <= v@.len(),
            s@ == v@.subrange(from as int, i as int),
        decreases to - i,
    {
        s.push(v[i]);
        i += 1;
    }
    s
}

/// The character of a digit below ten.
fn digit(d: u64) -> (c: char)
    requires
        d < 10,
    ensures
        c == digit_char(d as int),
{
    (48u8 + d as u8) as char
}

/// Appends a number in decimal.
pub fn push_decimal(out: &mut String, n: u64)
    ensures
        final(out)@ == old(out)@ + decimal(n as nat),
    decreases n,
{
    if n >= 10 {
        push_decimal(out, n / 10);
    }
    out.push(digit(n % 10));
    assert(out@ =~= old(out)@ + decimal(n as nat));
}

/// A number in decimal.
pub fn decimal_text(n: u64) -> (s: String)
    ensures
        s@ == decimal(n as nat),
{
    let mut s = String::new();
    push_decimal(&mut s, n);
    assert(s@ =~= decimal(n as nat));
    s
}

/// Appends a number in decimal, filled with zeros on the left.
pub fn push_padded(out: &mut String, n: u64, width: usize)
    ensures
        final(out)@ == old(out)@ + padded(n as nat, width as int),
{
    let digits = chars_of(decimal_text(n).as_str());
    let mut filled: usize = digits.len();
    while filled < width
        invariant
            digits@.len() <= filled,
            digits@.len() < width ==> filled <= width,
            digits@.len() >= width ==> filled == digits@.len(),
            out@ == old(out)@ + zeros(filled - digits@.len()),
        decreases width - filled,
    {
        assert(zeros(filled - digits@.len()).push('0') =~= zeros(filled + 1 - digits@.len()));
        out.push('0');
        filled += 1;
    }
    let ghost before = out@;
    push_decimal(out, n);
    assert(zeros(width - digits@.len()) =~= zeros(filled - digits@.len()));
    assert(out@ =~= old(out)@ + padded(n as nat, width as int));
}

/// A number in decimal, filled with zeros on the left.
pub fn padded_text(n: u64, width: usize) -> (s: String)
    ensures
        s@ == padded(n as nat, width as int),
{
    let mut s = String::new();
    push_padded(&mut s, n, width);
    assert(s@ =~= padded(n as nat, width as int));
    s
}

/// Appends a signed number, filled with zeros behind the sign.
pub fn push_padded_signed(out: &mut String, v: i64, width: usize)
    requires
        v > i64::MIN,
        width >= 1,
    ensures
        final(out)@ == old(out)@ + padded_signed(v as int, width as int),
{
    if v < 0 {
        out.push('-');
        push_padded(out, (-v) as u64, width - 1);
    } else {
        push_padded(out, v as u64, width);
    }
    assert(out@ =~= old(out)@ + padded_signed(v as int, width as int));
}

/// Appends a signed number in decimal.
pub fn push_decimal_signed(out: &mut String, v: i64)
    requires
        v > i64::MIN,
    ensures
        final(out)@ == old(out)@ + decimal_signed(v as int),
{
    if v < 0 {
        out.push('-');
        push_decimal(out, (-v) as u64);
    } else {
        push_decimal(out, v as u64);
    }
    assert(out@ =~= old(out)@ + decimal_signed(v as int));
}

// ---- rounding --------------------------------------------------------------

/// `n / d` to the nearest integer, to the even one where it lies halfway.
pub open spec fn rounded(n: int, d: int) -> int {
    let q = n / d;
    let r = n % d;
    if 2 * r < d || (2 * r == d && q % 2 == 0) {
        q
    } else {
        q + 1
    }
}

/// `n / d` to the nearest integer, to the even one where it lies halfway.
pub fn round_div(n: u64, d: u64) -> (r: u64)
    requires
        2 <= d <= 0x7fff_ffff_ffff_ffff,
    ensures
        r == rounded(n as int, d as int),
{
    let q: u64 = n / d;
    let rem: u64 = n % d;
    proof {
        vstd::arithmetic::div_mod::lemma_div_is_ordered_by_denominator(n as int, 2, d as int);
    }
    if 2 * rem < d || (2 * rem == d && q % 2 == 0) {
        q
    } else {
        q + 1
    }
}

/// A number given in tenths, with one digit behind the point.
pub open spec fn tenths(n: nat) -> Seq<char> {
    decimal(n / 10) + seq!['.'] + decimal(n % 10)
}

/// Appends a number given in tenths, with one digit behind the point.
pub fn push_tenths(out: &mut String, n: u64)
    ensures
        final(out)@ == old(out)@ + tenths(n as nat),
{
    push_decimal(out, n / 10);
    out.push('.');
    push_decimal(out, n % 10);
    assert(out@ =~= old(out)@ + tenths(n as nat));
}

/// A number given in ten-thousandths, with four digits behind the point.
pub open spec fn ten_thousandths(n: nat) -> Seq<char> {
    decimal(n / 10000) + seq!['.'] + padded(n % 10000, 4)
}

/// Appends a number given in ten-thousandths, with four digits behind the
/// point.
pub fn push_ten_thousandths(out: &mut String, n: u64)
    ensures
        final(out)@ == old(out)@ + ten_thousandths(n as nat),
{
    push_decimal(out, n / 10000);
    out.push('.');
    push_padded(out, n % 10000, 4);
    assert(out@ =~= old(out)@ + ten_thousandths(n as nat));
}

// ---- reading numbers -----------------------------------------------------

/// A run of digits never stands for a negative number, and a longer run
/// stands for at least as much.
pub proof fn lemma_digits_value_grows(s: Seq<char>, n: int)
    requires
        all_digits(s),
        0 <= n <= s.len(),
    ensures
        0 <= digits_value(s.take(n)) <= digits_value(s),
    decreases s.len(),
{
    if n == s.len() {
        assert(s.take(n) =~= s);
        if s.len() > 0 {
            assert(is_digit(s.last()));
            assert(s.drop_last() =~= s.take(s.len() - 1));
            lemma_digits_value_grows(s.drop_last(), s.len() - 1);
            assert(s.drop_last().take(s.len() - 1) =~= s.drop_last());
        }
    } else {
        assert(is_digit(s.last()));
        assert(s.drop_last().take(n) =~= s.take(n));
        lemma_digits_value_grows(s.drop_last(), n);
    }
}

/// Reads `v[from..]` as a run of digits: its value where it is at most
/// `limit`, nothing where it is empty, holds another character or is larger.
fn digits_up_to(v: &Vec<char>, from: usize, limit: u64) -> (r: Option<u64>)
    requires
        from <= v@.len(),
        limit <= 0x8000_0000_0000_0000,
    ensures
        ({
            let body = v@.subrange(from as int, v@.len() as int);
            r == (if body.len() > 0 && all_digits(body) && digits_value(body) <= limit {
                Some(digits_value(body) as u64)
            } else {
                None::<u64>
            })
        }),
{
    let ghost body = v@.subrange(from as int, v@.len() as int);
    if from == v.len() {
        return None;
    }
    let mut acc: u64 = 0;
    let mut over: bool = false;
    let mut i: usize = from;
    while i < v.len()
        invariant
            from <= i <= v@.len(),
            limit <= 0x8000_0000_0000_0000,
            body == v@.subrange(from as int, v@.len() as int),
            all_digits(body.take(i - from)),
            !over ==> acc == digits_value(body.take(i - from)) && acc <= limit,
            over ==> digits_value(body.take(i - from)) > limit,
        decreases v@.len() - i,
    {
        let c = v[i];
        let ghost k = i - from;
        assert(body[k] == c);
        assert(body.take(k + 1).drop_last() =~= body.take(k));
        assert(body.take(k + 1).last() == c);
        if !('0' <= c && c <= '9') {
            assert(!is_digit(body[k]));
            return None;
        }
        assert(all_digits(body.take(k + 1))) by {
            assert forall|j: int| 0 <= j < body.take(k + 1).len() implies is_digit(
                #[trigger] body.take(k + 1)[j],
            ) by {
                if j < k {
                    assert(body.take(k)[j] == body.take(k + 1)[j]);
                }
            }
        }
        let d: u64 = c as u64 - '0' as u64;
        proof {
            lemma_digits_value_grows(body.take(k), k);
            assert(body.take(k).take(k) =~= body.take(k));
        }
        if !over {
            if acc <= limit / 10 && acc * 10 + d <= limit {
                acc = acc * 10 + d;
            } else {
                over = true;
            }
        }
        i += 1;
    }
    assert(body.take(body.len() as int) =~= body);
    if over {
        None
    } else {
        Some(acc)
    }
}

/// Reads an integer with an optional sign, of magnitude at most `below` where
/// it is negative and `above` where it is not.
fn signed_in(s: &str, below: u64, above: u64) -> (r: Option<i128>)
    requires
        below <= 0x8000_0000_0000_0000,
        above <= 0x8000_0000_0000_0000,
    ensures
        match parsed_int(s@, true, -below, above as int) {
            Some(v) => r == Some(v as i128),
            None => r is None,
        },
{
    let v = chars_of(s);
    if v.len() > 0 && v[0] == '-' {
        assert(v@.subrange(1, v@.len() as int) == s@.subrange(1, s@.len() as int));
        proof {
            lemma_nonnegative(v@.subrange(1, v@.len() as int));
        }
        match digits_up_to(&v, 1, below) {
            Some(n) => Some(-(n as i128)),
            None => None,
        }
    } else if v.len() > 0 && v[0] == '+' {
        proof {
            lemma_nonnegative(v@.subrange(1, v@.len() as int));
        }
        match digits_up_to(&v, 1, above) {
            Some(n) => Some(n as i128),
            None => None,
        }
    } else {
        assert(v@.subrange(0, v@.len() as int) =~= s@);
        proof {
            lemma_nonnegative(s@);
        }
        match digits_up_to(&v, 0, above) {
            Some(n) => Some(n as i128),
            None => None,
        }
    }
}

proof fn lemma_nonnegative(s: Seq<char>)
    ensures
        all_digits(s) ==> digits_value(s) >= 0,
{
    if all_digits(s) {
        lemma_digits_value_grows(s, s.len() as int);
    }
}

/// Reads a 32-bit signed integer.
pub fn parse_i32(s: &str) -> (r: Option<i32>)
    ensures
        match parsed_i32(s@) {
            Some(v) => r == Some(v as i32),
            None => r is None,
        },
{
    match signed_in(s, 0x8000_0000, 0x7fff_ffff) {
        Some(v) => Some(v as i32),
        None => None,
    }
}

/// Reads a 64-bit signed integer.
pub fn parse_i64(s: &str) -> (r: Option<i64>)
    ensures
        match parsed_i64(s@) {
            Some(v) => r == Some(v as i64),
            None => r is None,
        },
{
    match signed_in(s, 0x8000_0000_0000_0000, 0x7fff_ffff_ffff_ffff) {
        Some(v) => Some(v as i64),
        None => None,
    }
}

/// Reads a 32-bit unsigned integer; a minus sign is not accepted.
pub fn parse_u32(s: &str) -> (r: Option<u32>)
    ensures
        match parsed_u32(s@) {
            Some(v) => r == Some(v as u32),
            None => r is None,
        },
{
    let v = chars_of(s);
    if v.len() > 0 && v[0] == '+' {
        proof {
            lemma_nonnegative(v@.subrange(1, v@.len() as int));
        }
        match digits_up_to(&v, 1, 0xffff_ffff) {
            Some(n) => Some(n as u32),
            None => None,
        }
    } else {
        assert(v@.subrange(0, v@.len() as int) =~= s@);
        proof {
            lemma_nonnegative(s@);
        }
        match digits_up_to(&v, 0, 0xffff_ffff) {
            Some(n) => Some(n as u32),
            None => None,
        }
    }
}

// ---- white space ---------------------------------------------------------

/// The characters of Unicode's `White_Space` property.
pub open spec fn is_white_space(c: char) -> bool {
    ||| '\u{9}' <= c <= '\u{d}'
    ||| c == '\u{20}'
    ||| c == '\u{85}'
    ||| c == '\u{a0}'
    ||| c == '\u{1680}'
    ||| '\u{2000}' <= c <= '\u{200a}'
    ||| c == '\u{2028}'
    ||| c == '\u{2029}'
    ||| c == '\u{202f}'
    ||| c == '\u{205f}'
    ||| c == '\u{3000}'
}

/// How many characters at the front are white space.
pub open spec fn leading_space(s: Seq<char>) -> int
    decreases s.len(),
{
    if s.len() == 0 || !is_white_space(s[0]) {
        0
    } else {
        1 + leading_space(s.drop_first())
    }
}

/// How many characters are left once the white space at the end is gone.
pub open spec fn kept_before_trailing_space(s: Seq<char>) -> int
    decreases s.len(),
{
    if s.len() == 0 || !is_white_space(s.last()) {
        s.len() as int
    } else {
        kept_before_trailing_space(s.drop_last())
    }
}

/// The string without the white space at either end.
pub open spec fn trimmed(s: Seq<char>) -> Seq<char> {
    let front = s.skip(leading_space(s));
    front.take(kept_before_trailing_space(front))
}

/// Whether a character is white space.
pub fn white_space(c: char) -> (b: bool)
    ensures
        b == is_white_space(c),
{
    ('\u{9}' <= c && c <= '\u{d}') || c == '\u{20}' || c == '\u{85}' || c == '\u{a0}' || c
        == '\u{1680}' || ('\u{2000}' <= c && c <= '\u{200a}') || c == '\u{2028}' || c == '\u{2029}'
        || c == '\u{202f}' || c == '\u{205f}' || c == '\u{3000}'
}

/// The string without the white space at either end.
pub fn trim(s: &str) -> (t: String)
    ensures
        t@ == trimmed(s@),
{
    let v = chars_of(s);
    let mut start: usize = 0;
    assert(s@.skip(0) =~= s@);
    while start < v.len() && white_space(v[start])
        invariant
            v@ == s@,
            start <= v@.len(),
            leading_space(s@) == start + leading_space(s@.skip(start as int)),
        decreases v@.len() - start,
    {
        assert(s@.skip(start as int).drop_first() =~= s@.skip(start + 1));
        start += 1;
    }
    assert(leading_space(s@) == start);
    let ghost front = s@.skip(start as int);
    let mut end: usize = v.len();
    assert(front.take(end - start) =~= front);
    while end > start && white_space(v[end - 1])
        invariant
            v@ == s@,
            start <= end <= v@.len(),
            front == s@.skip(start as int),
            kept_before_trailing_space(front) == kept_before_trailing_space(
                front.take(end - start),
            ),
        decreases end,
    {
        assert(front.take(end - start).last() == v@[end - 1]);
        assert(front.take(end - start).drop_last() =~= front.take(end - start - 1));
        end -= 1;
    }
    assert(kept_before_trailing_space(front) == end - start) by {
        if end > start {
            assert(front.take(end - start).last() == v@[end - 1]);
        }
    }
    assert(v@.subrange(start as int, end as int) =~= front.take(end - start));
    string_of(&v, start, end)
}

// ---- bytes -----------------------------------------------------------------

/// The UTF-8 bytes of a text.
pub open spec fn bytes(s: Seq<char>) -> Seq<u8> {
    vstd::utf8::encode_utf8(s)
}

/// Whether the first `n` bytes of a text are whole characters.
pub open spec fn splits_at(s: Seq<char>, n: int) -> bool {
    0 <= n <= bytes(s).len() && vstd::utf8::is_char_boundary(bytes(s), n)
}

/// The characters of the first `n` bytes of a text.
pub open spec fn byte_prefix(s: Seq<char>, n: int) -> Seq<char> {
    vstd::utf8::decode_utf8(bytes(s).subrange(0, n))
}

/// The characters of a text behind its first `n` bytes.
pub open spec fn byte_suffix(s: Seq<char>, n: int) -> Seq<char> {
    vstd::utf8::decode_utf8(bytes(s).subrange(n, bytes(s).len() as int))
}

/// Whether the first `n` bytes of a text are whole characters.
pub fn can_split(s: &str, n: usize) -> (b: bool)
    ensures
        b == splits_at(s@, n as int),
{
    n <= byte_len(s) && s.is_char_boundary(n)
}

/// How many bytes a text has.
pub fn byte_len(s: &str) -> (n: usize)
    ensures
        n == bytes(s@).len(),
{
    s.as_bytes().len()
}

/// The characters of the first `n` bytes of a text.
pub fn take_bytes(s: &str, n: usize) -> (t: String)
    requires
        splits_at(s@, n as int),
    ensures
        t@ == byte_prefix(s@, n as int),
{
    broadcast use vstd::utf8::encode_utf8_decode_utf8;

    s.split_at(n).0.to_owned()
}

/// The characters of a text behind its first `n` bytes.
pub fn skip_bytes(s: &str, n: usize) -> (t: String)
    requires
        splits_at(s@, n as int),
    ensures
        t@ == byte_suffix(s@, n as int),
{
    broadcast use vstd::utf8::encode_utf8_decode_utf8;

    s.split_at(n).1.to_owned()
}

// ---- finding characters ------------------------------------------------------

/// Index of the first occurrence of a character, or the length where there is
/// none.
pub open spec fn first_index(s: Seq<char>, c: char) -> int
    decreases s.len(),
{
    if s.len() == 0 || s[0] == c {
        0
    } else {
        1 + first_index(s.drop_first(), c)
    }
}

/// Index behind the last occurrence of a character, or zero where there is
/// none.
pub open spec fn after_last(s: Seq<char>, c: char) -> int
    decreases s.len(),
{
    if s.len() == 0 || s.last() == c {
        s.len() as int
    } else {
        after_last(s.drop_last(), c)
    }
}

/// Index of the first occurrence of a character, or the length where there is
/// none.
pub fn find_first(v: &Vec<char>, c: char) -> (i: usize)
    ensures
        i == first_index(v@, c),
        i <= v@.len(),
        i < v@.len() ==> v@[i as int] == c,
{
    let mut i: usize = 0;
    assert(v@.skip(0) =~= v@);
    while i < v.len() && v[i] != c
        invariant
            i <= v@.len(),
            first_index(v@, c) == i + first_index(v@.skip(i as int), c),
        decreases v@.len() - i,
    {
        assert(v@.skip(i as int).drop_first() =~= v@.skip(i + 1));
        i += 1;
    }
    i
}

/// Index behind the last occurrence of a character, or zero where there is
/// none.
pub fn find_after_last(v: &Vec<char>, c: char) -> (i: usize)
    ensures
        i == after_last(v@, c),
        i <= v@.len(),
{
    let mut i: usize = v.len();
    assert(v@.take(i as int) =~= v@);
    while i > 0 && v[i - 1] != c
        invariant
            i <= v@.len(),
            after_last(v@, c) == after_last(v@.take(i as int), c),
        decreases i,
    {
        assert(v@.take(i as int).last() == v@[i - 1]);
        assert(v@.take(i as int).drop_last() =~= v@.take(i - 1));
        i -= 1;
    }
    assert(after_last(v@.take(i as int), c) == i) by {
        if i > 0 {
            assert(v@.take(i as int).last() == v@[i - 1]);
        }
    }
    i
}

/// Whether a text begins with another.
pub open spec fn begins_with(s: Seq<char>, prefix: Seq<char>) -> bool {
    prefix.len() <= s.len() && s.take(prefix.len() as int) == prefix
}

/// Whether a text begins with another.
pub fn starts_with(v: &Vec<char>, prefix: &str) -> (b: bool)
    ensures
        b == begins_with(v@, prefix@),
{
    let p = chars_of(prefix);
    if p.len() > v.len() {
        return false;
    }
    let mut i: usize = 0;
    while i < p.len()
        invariant
            p@ == prefix@,
            i <= p@.len() <= v@.len(),
            forall|j: int| 0 <= j < i ==> v@[j] == p@[j],
        decreases p@.len() - i,
    {
        if v[i] != p[i] {
            assert(v@.take(p@.len() as int)[i as int] != p@[i as int]);
            return false;
        }
        i += 1;
    }
    assert(v@.take(p@.len() as int) =~= p@);
    true
}

// ---- what the numbers written here read back as --------------------------

/// A number's decimal form is made of digits and reads back as the number.
pub proof fn lemma_decimal(n: nat)
    ensures
        all_digits(decimal(n)),
        decimal(n).len() >= 1,
        digits_value(decimal(n)) == n,
    decreases n,
{
    if n < 10 {
        reveal_with_fuel(digits_value, 2);
        assert(decimal(n).drop_last() =~= Seq::<char>::empty());
    } else {
        lemma_decimal(n / 10);
        assert(decimal(n).drop_last() =~= decimal(n / 10));
    }
}

proof fn lemma_zeros_in_front(k: int, s: Seq<char>)
    requires
        all_digits(s),
        k >= 0,
    ensures
        all_digits(zeros(k) + s),
        digits_value(zeros(k) + s) == digits_value(s),
    decreases s.len(), k,
{
    let z = zeros(k) + s;
    assert forall|i: int| 0 <= i < z.len() implies is_digit(#[trigger] z[i]) by {
        if i >= k {
            assert(z[i] == s[i - k]);
        }
    }
    if s.len() > 0 {
        assert(z.drop_last() =~= zeros(k) + s.drop_last());
        lemma_zeros_in_front(k, s.drop_last());
    } else if k > 0 {
        assert(z.drop_last() =~= zeros(k - 1) + s);
        lemma_zeros_in_front(k - 1, s);
    } else {
        assert(z =~= s);
    }
}

/// A number filled with zeros is made of digits and reads back as the number.
pub proof fn lemma_padded(n: nat, width: int)
    ensures
        all_digits(padded(n, width)),
        padded(n, width).len() >= 1,
        padded(n, width).len() >= width,
        digits_value(padded(n, width)) == n,
{
    lemma_decimal(n);
    let k = width - decimal(n).len();
    lemma_zeros_in_front(
        if k < 0 {
            0
        } else {
            k
        },
        decimal(n),
    );
    assert(zeros(k) =~= zeros(
        if k < 0 {
            0
        } else {
            k
        },
    ));
}

/// A signed number written with `padded_signed` reads back as itself.
pub proof fn lemma_padded_signed_reads_back(v: int, width: int)
    requires
        i32::MIN < v <= i32::MAX,
    ensures
        parsed_i32(padded_signed(v, width)) == Some(v),
{
    let s = padded_signed(v, width);
    if v < 0 {
        let body = padded((-v) as nat, width - 1);
        lemma_padded((-v) as nat, width - 1);
        assert(s[0] == '-');
        assert(s.subrange(1, s.len() as int) =~= body);
    } else {
        lemma_padded(v as nat, width);
        assert(is_digit(s[0]));
    }
}

/// An unsigned number written with `padded` reads back as itself.
pub proof fn lemma_padded_reads_back(n: nat, width: int)
    requires
        n <= u32::MAX,
    ensures
        parsed_u32(padded(n, width)) == Some(n as int),
{
    lemma_padded(n, width);
    assert(is_digit(padded(n, width)[0]));
}

/// Whether two texts are the same.
pub fn same_text(a: &str, b: &str) -> (r: bool)
    ensures
        r == (a@ == b@),
{
    let v: Vec<char> = chars_of(a);
    let w: Vec<char> = chars_of(b);
    if v.len() != w.len() {
        return false;
    }
    let mut i: usize = 0;
    while i < v.len()
        invariant
            i <= v@.len(),
            v@.len() == w@.len(),
            v@ == a@,
            w@ == b@,
            forall|k: int| 0 <= k < i ==> v@[k] == w@[k],
        decreases v@.len() - i,
    {
        if v[i] != w[i] {
            return false;
        }
        i += 1;
    }
    assert(a@ =~= b@);
    true
}

// ---- what holds of the texts -----------------------------------------------

/// Rounding goes to a nearest integer, and to the even one where two are as near.
pub proof fn rounding_is_to_the_nearest(n: int, d: int)
    requires
        d > 0,
    ensures
        -d <= 2 * (d * rounded(n, d) - n) <= d,
        2 * (d * rounded(n, d) - n) == d ==> rounded(n, d) % 2 == 0,
        2 * (d * rounded(n, d) - n) == -d ==> rounded(n, d) % 2 == 0,
{
    let q = n / d;
    vstd::arithmetic::div_mod::lemma_fundamental_div_mod(n, d);
    assert(d * (q + 1) == d * q + d) by (nonlinear_arith);
}

/// A larger number never rounds to less.
pub proof fn rounding_keeps_order(a: int, b: int, d: int)
    requires
        d > 0,
        a <= b,
    ensures
        rounded(a, d) <= rounded(b, d),
{
    rounding_is_to_the_nearest(a, d);
    rounding_is_to_the_nearest(b, d);
    let x = rounded(a, d);
    let y = rounded(b, d);
    if x > y {
        assert(d * x - d * y >= d) by (nonlinear_arith)
            requires
                x >= y + 1,
                d > 0,
        ;
        assert(a == b);
    }
}

/// No number but zero is written with a zero in front.
pub proof fn numbers_have_no_leading_zero(n: nat)
    requires
        n > 0,
    ensures
        decimal(n)[0] != '0',
    decreases n,
{
    if n >= 10 {
        numbers_have_no_leading_zero(n / 10);
        lemma_decimal(n / 10);
    }
}

/// Ten times a number and a digit is written as the number with the digit behind
/// it.
pub proof fn a_digit_is_appended(n: nat, d: nat)
    requires
        n > 0,
        d < 10,
    ensures
        decimal(10 * n + d) == decimal(n).push(digit_char(d as int)),
        digit_value(digit_char(d as int)) == d,
{
}

/// Different numbers are written differently.
pub proof fn numbers_are_told_apart(a: nat, b: nat)
    requires
        decimal(a) == decimal(b),
    ensures
        a == b,
{
    lemma_decimal(a);
    lemma_decimal(b);
}

/// A number that fits into the width is filled up to exactly that width.
pub proof fn padding_fills_the_width(n: nat)
    ensures
        n < 100 ==> padded(n, 2).len() == 2,
        n < 1000 ==> padded(n, 3).len() == 3,
        n < 10000 ==> padded(n, 4).len() == 4,
        padded(n, 2).len() >= 2,
        n >= 100 ==> padded(n, 2) == decimal(n),
{
    reveal_with_fuel(decimal, 5);
    lemma_padded(n, 2);
    if n >= 100 {
        assert(decimal(n).len() >= 3) by {
            lemma_decimal(n / 100);
            assert(n / 10 / 10 == n / 100);
        }
        assert(padded(n, 2) =~= decimal(n));
    }
}

/// One digit stands behind the point: the text is of whole ones and tenths.
pub proof fn tenths_stand_behind_the_point(whole: nat, tenth: nat)
    requires
        tenth < 10,
    ensures
        tenths(10 * whole + tenth) == decimal(whole).push('.').push(digit_char(tenth as int)),
{
    assert((10 * whole + tenth) / 10 == whole);
    assert((10 * whole + tenth) % 10 == tenth);
    assert(tenths(10 * whole + tenth) =~= decimal(whole).push('.').push(digit_char(tenth as int)));
}

/// Four digits stand behind the point.
pub proof fn ten_thousandths_stand_behind_the_point(whole: nat, part: nat)
    requires
        part < 10000,
    ensures
        ten_thousandths(10000 * whole + part) == decimal(whole) + seq!['.'] + padded(part, 4),
        padded(part, 4).len() == 4,
        digits_value(padded(part, 4)) == part,
{
    assert((10000 * whole + part) / 10000 == whole);
    assert((10000 * whole + part) % 10000 == part);
    padding_fills_the_width(part);
    lemma_padded(part, 4);
}

proof fn lemma_leading_space(s: Seq<char>)
    ensures
        0 <= leading_space(s) <= s.len(),
        forall|k: int| 0 <= k < leading_space(s) ==> is_white_space(#[trigger] s[k]),
        leading_space(s) < s.len() ==> !is_white_space(s[leading_space(s)]),
    decreases s.len(),
{
    if s.len() > 0 && is_white_space(s[0]) {
        let rest = s.drop_first();
        lemma_leading_space(rest);
        assert forall|k: int| 0 <= k < leading_space(s) implies is_white_space(#[trigger] s[k]) by {
            if k > 0 {
                assert(rest[k - 1] == s[k]);
            }
        }
    }
}

proof fn lemma_trailing_space(s: Seq<char>)
    ensures
        0 <= kept_before_trailing_space(s) <= s.len(),
        forall|k: int|
            kept_before_trailing_space(s) <= k < s.len() ==> is_white_space(#[trigger] s[k]),
        kept_before_trailing_space(s) > 0 ==> !is_white_space(
            s[kept_before_trailing_space(s) - 1],
        ),
    decreases s.len(),
{
    if s.len() > 0 && is_white_space(s.last()) {
        let rest = s.drop_last();
        lemma_trailing_space(rest);
        assert forall|k: int|
            kept_before_trailing_space(s) <= k < s.len() implies is_white_space(#[trigger] s[k]) by {
            if k < rest.len() {
                assert(rest[k] == s[k]);
            }
        }
    }
}

/// Trimming takes nothing but white space, and leaves none at either end.
pub proof fn trimming_takes_only_the_outer_space(s: Seq<char>)
    ensures
        exists|i: int, j: int|
            {
                &&& 0 <= i <= j <= s.len()
                &&& trimmed(s) == #[trigger] s.subrange(i, j)
                &&& forall|k: int| 0 <= k < i ==> is_white_space(#[trigger] s[k])
                &&& forall|k: int| j <= k < s.len() ==> is_white_space(#[trigger] s[k])
            },
        trimmed(s).len() > 0 ==> !is_white_space(trimmed(s)[0]) && !is_white_space(
            trimmed(s).last(),
        ),
{
    let i = leading_space(s);
    let front = s.skip(i);
    let n = kept_before_trailing_space(front);
    lemma_leading_space(s);
    lemma_trailing_space(front);
    assert(trimmed(s) =~= s.subrange(i, i + n));
    assert forall|k: int| i + n <= k < s.len() implies is_white_space(#[trigger] s[k]) by {
        assert(front[k - i] == s[k]);
    }
}

/// Trimming again changes nothing.
pub proof fn trimming_once_is_enough(s: Seq<char>)
    ensures
        trimmed(trimmed(s)) == trimmed(s),
{
    let t = trimmed(s);
    trimming_takes_only_the_outer_space(s);
    if t.len() > 0 {
        assert(leading_space(t) == 0);
        assert(t.skip(0) =~= t);
        assert(kept_before_trailing_space(t) == t.len());
        assert(t.take(t.len() as int) =~= t);
    } else {
        trimming_takes_only_the_outer_space(t);
        assert(trimmed(t) =~= t);
    }
}

/// The blank characters of the keyboard are white space; letters, digits and signs
/// are not.
pub proof fn visible_characters_are_kept(c: char)
    ensures
        is_white_space(' ') && is_white_space('\t') && is_white_space('\n') && is_white_space('\r'),
        '!' <= c <= '~' ==> !is_white_space(c),
{
}

/// The first occurrence of a character is one, and none stands before it; where
/// there is none the whole text is passed over.
pub proof fn the_first_occurrence_is_found(s: Seq<char>, c: char)
    ensures
        0 <= first_index(s, c) <= s.len(),
        first_index(s, c) < s.len() ==> s[first_index(s, c)] == c,
        forall|k: int| 0 <= k < first_index(s, c) ==> #[trigger] s[k] != c,
    decreases s.len(),
{
    if s.len() > 0 && s[0] != c {
        let rest = s.drop_first();
        the_first_occurrence_is_found(rest, c);
        assert forall|k: int| 0 <= k < first_index(s, c) implies #[trigger] s[k] != c by {
            if k > 0 {
                assert(rest[k - 1] == s[k]);
            }
        }
    }
}

/// No occurrence of a character stands behind the last one.
pub proof fn the_last_occurrence_is_found(s: Seq<char>, c: char)
    ensures
        0 <= after_last(s, c) <= s.len(),
        after_last(s, c) > 0 ==> s[after_last(s, c) - 1] == c,
        forall|k: int| after_last(s, c) <= k < s.len() ==> #[trigger] s[k] != c,
    decreases s.len(),
{
    if s.len() > 0 && s.last() != c {
        let rest = s.drop_last();
        the_last_occurrence_is_found(rest, c);
        assert forall|k: int| after_last(s, c) <= k < s.len() implies #[trigger] s[k] != c by {
            if k < rest.len() {
                assert(rest[k] == s[k]);
            }
        }
    }
}

/// What a reader takes for a number is one within the range, and a sign in front
/// of it counts.
pub proof fn a_sign_in_front_counts(n: nat)
    requires
        n <= i32::MAX,
    ensures
        parsed_i32(decimal(n)) == Some(n as int),
        parsed_i32(seq!['+'] + decimal(n)) == Some(n as int),
        parsed_i32(seq!['-'] + decimal(n)) == Some(-(n as int)),
        parsed_u32(seq!['+'] + decimal(n)) == Some(n as int),
        parsed_u32(seq!['-'] + decimal(n)) is None,
{
    lemma_decimal(n);
    let plus = seq!['+'] + decimal(n);
    let minus = seq!['-'] + decimal(n);
    assert(plus.subrange(1, plus.len() as int) =~= decimal(n));
    assert(minus.subrange(1, minus.len() as int) =~= decimal(n));
    assert(is_digit(decimal(n)[0]));
    assert(!is_digit(minus[0]));
}

/// A text that begins with another is that other with something behind it.
pub proof fn a_beginning_can_be_taken_off(s: Seq<char>, prefix: Seq<char>)
    ensures
        begins_with(s, prefix) <==> exists|rest: Seq<char>| s == #[trigger] (prefix + rest),
{
    if begins_with(s, prefix) {
        assert(s =~= prefix + s.skip(prefix.len() as int));
    }
    if exists|rest: Seq<char>| s == #[trigger] (prefix + rest) {
        assert(s.take(prefix.len() as int) =~= prefix);
    }
}

/// A text is cut in two where whole characters end: nothing is lost, and the front
/// has as many bytes as asked for.
pub proof fn a_cut_loses_nothing(s: Seq<char>, n: int)
    requires
        splits_at(s, n),
    ensures
        byte_prefix(s, n) + byte_suffix(s, n) == s,
        bytes(byte_prefix(s, n)).len() == n,
        bytes(byte_suffix(s, n)).len() == bytes(s).len() - n,
{
    let b = bytes(s);
    vstd::utf8::encode_utf8_valid_utf8(s);
    vstd::utf8::encode_utf8_decode_utf8(s);
    vstd::utf8::valid_utf8_split(b, n);
    vstd::utf8::decode_utf8_split(b, n);
    vstd::utf8::decode_utf8_encode_utf8(b.subrange(0, n));
    vstd::utf8::decode_utf8_encode_utf8(b.subrange(n, b.len() as int));
}

/// Plain text can be cut behind any character, and its bytes are its characters.
pub proof fn plain_text_is_cut_anywhere(s: Seq<char>, n: int)
    requires
        vstd::utf8::is_ascii_chars(s),
        0 <= n <= s.len(),
    ensures
        bytes(s).len() == s.len(),
        splits_at(s, n),
        byte_prefix(s, n) == s.take(n),
        byte_suffix(s, n) == s.skip(n),
{
    let b = bytes(s);
    vstd::utf8::encode_utf8_valid_utf8(s);
    vstd::utf8::is_ascii_chars_encode_utf8(s);
    if n < s.len() {
        let c = s[n] as u8;
        assert(b[n] == c);
        assert(c < 0x80);
        vstd::utf8::is_char_boundary_iff_not_is_continuation_byte(b, n);
        vstd::utf8::utf8_byte_ranges_bitwise(c);
    } else {
        vstd::utf8::is_char_boundary_start_end_of_seq(b);
    }
    a_cut_loses_nothing(s, n);
    let front = byte_prefix(s, n);
    let back = byte_suffix(s, n);
    assert(front + back == s);
    assert forall|i: int| 0 <= i < front.len() implies '\0' <= #[trigger] front[i] <= '\u{7f}' by {
        assert((front + back)[i] == s[i]);
    }
    vstd::utf8::is_ascii_chars_encode_utf8(front);
    assert(front.len() == n);
    assert(front =~= s.take(n));
    assert(back =~= s.skip(n));
}

/// Numbers beyond the range, texts with anything but digits, and empty texts are no
/// numbers.
pub proof fn only_numbers_in_range_are_read(n: nat, s: Seq<char>, i: int)
    ensures
        n > u32::MAX ==> parsed_u32(decimal(n)) is None,
        n > i32::MAX ==> parsed_i32(decimal(n)) is None,
        0 < i < s.len() && !is_digit(s[i]) ==> parsed_u32(s) is None && parsed_i32(s) is None
            && parsed_i64(s) is None,
        parsed_u32(Seq::empty()) is None && parsed_i32(Seq::empty()) is None,
        parsed_u32(seq!['+']) is None && parsed_i32(seq!['-']) is None,
{
    lemma_decimal(n);
    assert(is_digit(decimal(n)[0]));
    if 0 < i < s.len() && !is_digit(s[i]) {
        let rest = s.subrange(1, s.len() as int);
        assert(rest[i - 1] == s[i]);
    }
    let plus = seq!['+'];
    let minus = seq!['-'];
    assert(plus.subrange(1, 1).len() == 0);
    assert(minus.subrange(1, 1).len() == 0);
}

/// Wide and unbreakable spaces and the separators of lines are white space; a space
/// without width is not.
pub proof fn wide_spaces_are_white_space()
    ensures
        is_white_space('\u{85}') && is_white_space('\u{a0}') && is_white_space('\u{1680}'),
        is_white_space('\u{2000}') && is_white_space('\u{2009}') && is_white_space('\u{200a}'),
        is_white_space('\u{2028}') && is_white_space('\u{2029}') && is_white_space('\u{202f}'),
        is_white_space('\u{205f}') && is_white_space('\u{3000}'),
        is_white_space('\u{b}') && is_white_space('\u{c}'),
        !is_white_space('\u{200b}') && !is_white_space('\u{8}') && !is_white_space('\u{e}'),
{
}

/// Numbers below zero have a sign in front of their size, and no others.
pub proof fn only_numbers_below_zero_have_a_sign(n: nat, width: int)
    ensures
        decimal_signed(n as int) == decimal(n),
        n > 0 ==> decimal_signed(-(n as int)) == seq!['-'] + decimal(n),
        padded_signed(n as int, width) == padded(n, width),
        n > 0 ==> padded_signed(-(n as int), width) == seq!['-'] + padded(n, width - 1),
{
}

} // verus!
