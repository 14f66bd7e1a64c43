//! Number syntax: the integer grammar of `from_str`/`from_str_radix` for
//! the primitive integer types, and the grammar of floating-point literals.
use vstd::prelude::*;

use crate::text::{
    ascii_lower, chars_eq_str, decimal, digit_char, lower, lower_chars, signed_decimal,
};

verus! {

/// Why an integer failed to parse (the kinds of `std::num::IntErrorKind`
/// that string parsing produces).
#[derive(Clone, Copy, Debug, PartialEq, Eq, Structural)]
pub enum IntErrorKind {
    Empty,
    InvalidDigit,
    PosOverflow,
    NegOverflow,
}

/// Why a floating-point literal failed to parse.
#[derive(Clone, Copy, Debug, PartialEq, Eq, Structural)]
pub enum FloatErrorKind {
    Empty,
    Invalid,
}

/// The value of `c` as a digit in `radix` (10 or 16), as `char::to_digit`.
pub open spec fn digit_value(c: char, radix: nat) -> Option<nat> {
    if '0' <= c && c <= '9' && (c as nat) - 48 < radix {
        Some(((c as nat) - 48) as nat)
    } else if 'a' <= c && c <= 'z' && (c as nat) - 87 < radix {
        Some(((c as nat) - 87) as nat)
    } else if 'A' <= c && c <= 'Z' && (c as nat) - 55 < radix {
        Some(((c as nat) - 55) as nat)
    } else {
        None
    }
}

/// Reads the digits `d` left to right onto `acc`, stopping at the first
/// character that is not a digit or the first digit that takes the value
/// out of `[lo, hi]`.
pub open spec fn scan_digits(
    d: Seq<char>,
    radix: nat,
    negative: bool,
    acc: int,
    lo: int,
    hi: int,
) -> Result<int, IntErrorKind>
    decreases d.len(),
{
    if d.len() == 0 {
        Ok(acc)
    } else {
        match digit_value(d[0], radix) {
            None => Err(IntErrorKind::InvalidDigit),
            Some(x) => {
                let next = if negative {
                    acc * radix - x
                } else {
                    acc * radix + x
                };
                if next > hi {
                    Err(IntErrorKind::PosOverflow)
                } else if next < lo {
                    Err(IntErrorKind::NegOverflow)
                } else {
                    scan_digits(d.drop_first(), radix, negative, next, lo, hi)
                }
            },
        }
    }
}

/// The result of parsing `s` as an integer of the range `[lo, hi]` in
/// `radix`: an optional `+` (or `-` when `signed`) followed by digits.
pub open spec fn parse_int_spec(s: Seq<char>, radix: nat, signed: bool, lo: int, hi: int) -> Result<
    int,
    IntErrorKind,
> {
    if s.len() == 0 {
        Err(IntErrorKind::Empty)
    } else if s.len() == 1 && (s[0] == '+' || s[0] == '-') {
        Err(IntErrorKind::InvalidDigit)
    } else if s[0] == '+' {
        scan_digits(s.drop_first(), radix, false, 0, lo, hi)
    } else if s[0] == '-' && signed {
        scan_digits(s.drop_first(), radix, true, 0, lo, hi)
    } else {
        scan_digits(s, radix, false, 0, lo, hi)
    }
}

fn digit_of(c: char, radix: u32) -> (r: Option<u32>)
    requires
        radix == 10 || radix == 16,
    ensures
        r matches Some(x) ==> digit_value(c, radix as nat) == Some(x as nat) && x < radix,
        r is None ==> digit_value(c, radix as nat) is None,
{
    let v = c as u32;
    if '0' <= c && c <= '9' && v - 48 < radix {
        Some(v - 48)
    } else if 'a' <= c && c <= 'z' && v - 87 < radix {
        Some(v - 87)
    } else if 'A' <= c && c <= 'Z' && v - 55 < radix {
        Some(v - 55)
    } else {
        None
    }
}

/// Parses `s` as an integer in `[lo, hi]`, the way `str::parse` and
/// `from_str_radix` do for the primitive integer types.
pub fn parse_int(s: &Vec<char>, radix: u32, signed: bool, lo: i128, hi: i128) -> (r: Result<
    i128,
    IntErrorKind,
>)
    requires
        radix == 10 || radix == 16,
        -0x1_0000_0000_0000_0000 <= lo <= 0 <= hi <= 0x1_0000_0000_0000_0000,
    ensures
        r matches Ok(v) ==> lo <= v <= hi,
        r matches Ok(v) ==> parse_int_spec(s@, radix as nat, signed, lo as int, hi as int) == Ok::<
            int,
            IntErrorKind,
        >(v as int),
        r matches Err(e) ==> parse_int_spec(s@, radix as nat, signed, lo as int, hi as int)
            == Err::<int, IntErrorKind>(e),
{
    let n = s.len();
    if n == 0 {
        return Err(IntErrorKind::Empty);
    }
    if n == 1 && (s[0] == '+' || s[0] == '-') {
        return Err(IntErrorKind::InvalidDigit);
    }
    let mut negative = false;
    let mut i: usize = 0;
    if s[0] == '+' {
        i = 1;
    } else if s[0] == '-' && signed {
        i = 1;
        negative = true;
    }
    let mut acc: i128 = 0;
    assert(s@.skip(0) == s@);
    assert(s@.skip(1) == s@.drop_first());
    while i < n
        invariant
            n == s.len(),
            i <= n,
            radix == 10 || radix == 16,
            -0x1_0000_0000_0000_0000 <= lo <= acc <= hi <= 0x1_0000_0000_0000_0000,
            negative ==> acc <= 0,
            !negative ==> acc >= 0,
            parse_int_spec(s@, radix as nat, signed, lo as int, hi as int) == scan_digits(
                s@.skip(i as int),
                radix as nat,
                negative,
                acc as int,
                lo as int,
                hi as int,
            ),
        decreases n - i,
    {
        assert(s@.skip(i as int)[0] == s@[i as int]);
        assert(s@.skip(i as int).drop_first() == s@.skip(i + 1));
        match digit_of(s[i], radix) {
            None => {
                return Err(IntErrorKind::InvalidDigit);
            },
            Some(x) => {
                let scaled: i128 = if radix == 10 {
                    acc * 10
                } else {
                    acc * 16
                };
                assert(scaled == acc * radix);
                let next: i128 = if negative {
                    scaled - (x as i128)
                } else {
                    scaled + (x as i128)
                };
                if next > hi {
                    return Err(IntErrorKind::PosOverflow);
                } else if next < lo {
                    return Err(IntErrorKind::NegOverflow);
                }
                acc = next;
            },
        }
        i = i + 1;
    }
    Ok(acc)
}

/// An ASCII decimal digit.
pub open spec fn is_ascii_digit(c: char) -> bool {
    '0' <= c && c <= '9'
}

/// Index of the first `e` or `E` in `s`, or its length when there is none.
pub open spec fn exp_index(s: Seq<char>) -> nat
    decreases s.len(),
{
    if s.len() == 0 {
        0
    } else if s[0] == 'e' || s[0] == 'E' {
        0
    } else {
        1 + exp_index(s.drop_first())
    }
}

/// `Digit+ | Digit+ '.' Digit* | Digit* '.' Digit+`.
pub open spec fn is_mantissa(m: Seq<char>) -> bool {
    &&& forall|i: int| 0 <= i < m.len() ==> is_ascii_digit(#[trigger] m[i]) || m[i] == '.'
    &&& forall|i: int, j: int| 0 <= i < j < m.len() ==> !(#[trigger] m[i] == '.' && #[trigger] m[j] == '.')
    &&& exists|i: int| 0 <= i < m.len() && is_ascii_digit(#[trigger] m[i])
}

/// Every character of `d` is an ASCII digit.
pub open spec fn all_ascii_digits(d: Seq<char>) -> bool {
    forall|i: int| 0 <= i < d.len() ==> is_ascii_digit(#[trigger] d[i])
}

/// `s` without one leading sign character, if it has one.
pub open spec fn unsigned_part(s: Seq<char>) -> Seq<char> {
    if s.len() > 0 && (s[0] == '+' || s[0] == '-') {
        s.drop_first()
    } else {
        s
    }
}

/// `Sign? Digit+`.
pub open spec fn is_exponent_digits(e: Seq<char>) -> bool {
    unsigned_part(e).len() > 0 && all_ascii_digits(unsigned_part(e))
}

/// `Number ::= Mantissa ('e' | 'E') Exponent | Mantissa`.
pub open spec fn is_float_number(s: Seq<char>) -> bool {
    let k = exp_index(s);
    is_mantissa(s.take(k as int)) && (k == s.len() || is_exponent_digits(s.skip(k + 1 as int)))
}

/// `inf`, `infinity` or `nan`, in any case.
pub open spec fn is_float_special(s: Seq<char>) -> bool {
    lower(s) == "inf"@ || lower(s) == "infinity"@ || lower(s) == "nan"@
}

/// The grammar that `str::parse::<f64>` (and `f32`) accepts:
/// `Sign? ('inf' | 'infinity' | 'nan' | Number)`.
pub open spec fn is_float_literal(s: Seq<char>) -> bool {
    is_float_special(unsigned_part(s)) || is_float_number(unsigned_part(s))
}

/// The outcome of parsing `s` as a floating-point number.
pub open spec fn parse_float_spec(s: Seq<char>) -> Result<(), FloatErrorKind> {
    if s.len() == 0 {
        Err(FloatErrorKind::Empty)
    } else if is_float_literal(s) {
        Ok(())
    } else {
        Err(FloatErrorKind::Invalid)
    }
}

fn mantissa_ok(s: &Vec<char>, from: usize, to: usize) -> (r: bool)
    requires
        from <= to <= s.len(),
    ensures
        r == is_mantissa(s@.subrange(from as int, to as int)),
{
    let ghost m = s@.subrange(from as int, to as int);
    let mut dots: usize = 0;
    let mut digits: bool = false;
    let ghost mut dot_at: int = -1;
    let mut i = from;
    while i < to
        invariant
            from <= i <= to <= s.len(),
            m == s@.subrange(from as int, to as int),
            forall|k: int| 0 <= k < i - from ==> is_ascii_digit(#[trigger] m[k]) || m[k] == '.',
            dots <= 1,
            dots == 0 ==> forall|k: int| 0 <= k < i - from ==> #[trigger] m[k] != '.',
            dots == 1 ==> 0 <= dot_at < i - from && m[dot_at] == '.',
            dots == 1 ==> forall|k: int| 0 <= k < i - from && k != dot_at ==> #[trigger] m[k] != '.',
            digits <==> exists|k: int| 0 <= k < i - from && is_ascii_digit(#[trigger] m[k]),
        decreases to - i,
    {
        let c = s[i];
        assert(m[i - from] == c);
        if c == '.' {
            if dots == 1 {
                assert(!(m[dot_at] == '.' && m[i - from] == '.') ==> false);
                return false;
            }
            dots = 1;
            proof {
                dot_at = i - from;
            }
        } else if '0' <= c && c <= '9' {
            digits = true;
        } else {
            return false;
        }
        i = i + 1;
    }
    proof {
        if !digits {
            assert(!(exists|k: int| 0 <= k < m.len() && is_ascii_digit(#[trigger] m[k])));
        }
        assert forall|a: int, b: int| 0 <= a < b < m.len() implies !(#[trigger] m[a] == '.'
            && #[trigger] m[b] == '.') by {}
    }
    digits
}

fn exponent_ok(s: &Vec<char>, from: usize) -> (r: bool)
    requires
        from <= s.len(),
    ensures
        r == is_exponent_digits(s@.skip(from as int)),
{
    let ghost e = s@.skip(from as int);
    let n = s.len();
    let mut i = from;
    if i < n && (s[i] == '+' || s[i] == '-') {
        i = i + 1;
    }
    let ghost d = s@.skip(i as int);
    assert(d == unsigned_part(e)) by {
        if i > from {
            assert(e.drop_first() == s@.skip(from + 1));
        } else {
            assert(e == s@.skip(i as int));
        }
    }
    if i == n {
        return false;
    }
    let start = i;
    while i < n
        invariant
            start <= i <= n == s.len(),
            d == s@.skip(start as int),
            d == unsigned_part(e),
            e == s@.skip(from as int),
            d.len() > 0,
            forall|k: int| 0 <= k < i - start ==> is_ascii_digit(#[trigger] d[k]),
        decreases n - i,
    {
        assert(d[i - start] == s@[i as int]);
        if !('0' <= s[i] && s[i] <= '9') {
            assert(!is_ascii_digit(d[i - start]));
            return false;
        }
        i = i + 1;
    }
    true
}

fn exp_position(s: &Vec<char>, from: usize) -> (k: usize)
    requires
        from <= s.len(),
    ensures
        from <= k <= s.len(),
        k - from == exp_index(s@.skip(from as int)),
{
    let n = s.len();
    let mut i = from;
    while i < n && !(s[i] == 'e' || s[i] == 'E')
        invariant
            from <= i <= n == s.len(),
            exp_index(s@.skip(from as int)) == (i - from) + exp_index(s@.skip(i as int)),
        decreases n - i,
    {
        assert(s@.skip(i as int).drop_first() == s@.skip(i + 1));
        i = i + 1;
    }
    i
}

/// Checks `s` against the floating-point literal grammar.
pub fn parse_float(s: &Vec<char>) -> (r: Result<(), FloatErrorKind>)
    ensures
        r == parse_float_spec(s@),
{
    let n = s.len();
    if n == 0 {
        return Err(FloatErrorKind::Empty);
    }
    let start: usize = if s[0] == '+' || s[0] == '-' {
        1
    } else {
        0
    };
    let ghost body = s@.skip(start as int);
    assert(body == if s@.len() > 0 && (s@[0] == '+' || s@[0] == '-') {
        s@.drop_first()
    } else {
        s@
    });
    let mut rest: Vec<char> = Vec::new();
    let mut i = start;
    while i < n
        invariant
            start <= i <= n == s.len(),
            rest@ == s@.subrange(start as int, i as int),
        decreases n - i,
    {
        rest.push(s[i]);
        assert(s@.subrange(start as int, i + 1) == s@.subrange(start as int, i as int).push(
            s@[i as int],
        ));
        i = i + 1;
    }
    assert(rest@ == body);
    let low = lower_chars(&rest);
    if chars_eq_str(&low, "inf") || chars_eq_str(&low, "infinity") || chars_eq_str(&low, "nan") {
        return Ok(());
    }
    let k = exp_position(s, start);
    assert(s@.skip(start as int).take(k - start) == s@.subrange(start as int, k as int));
    let m = mantissa_ok(s, start, k);
    if !m {
        return Err(FloatErrorKind::Invalid);
    }
    if k == n {
        return Ok(());
    }
    assert(body.skip(k - start + 1) == s@.skip(k + 1));
    if exponent_ok(s, k + 1) {
        Ok(())
    } else {
        Err(FloatErrorKind::Invalid)
    }
}

/// Reading one more character continues from where the shorter text
/// stopped.
pub proof fn lemma_scan_push(
    d: Seq<char>,
    c: char,
    radix: nat,
    negative: bool,
    acc: int,
    lo: int,
    hi: int,
)
    ensures
        scan_digits(d.push(c), radix, negative, acc, lo, hi) == match scan_digits(
            d,
            radix,
            negative,
            acc,
            lo,
            hi,
        ) {
            Ok(m) => scan_digits(seq![c], radix, negative, m, lo, hi),
            Err(e) => Err(e),
        },
    decreases d.len(),
{
    if d.len() == 0 {
        assert(d.push(c) =~= seq![c]);
    } else {
        assert(d.push(c)[0] == d[0]);
        assert(d.push(c).drop_first() =~= d.drop_first().push(c));
        match digit_value(d[0], radix) {
            None => {},
            Some(x) => {
                let next = if negative {
                    acc * radix - x
                } else {
                    acc * radix + x
                };
                lemma_scan_push(d.drop_first(), c, radix, negative, next, lo, hi);
            },
        }
    }
}

/// A decimal digit character reads as its digit.
pub proof fn lemma_digit_char_value(d: nat)
    requires
        d < 10,
    ensures
        digit_value(digit_char(d), 10) == Some(d),
        '0' <= digit_char(d) <= '9',
{
}

/// Every character of a decimal rendering is a digit.
pub proof fn lemma_decimal_digits(n: nat)
    ensures
        decimal(n).len() > 0,
        forall|i: int| 0 <= i < decimal(n).len() ==> '0' <= #[trigger] decimal(n)[i] <= '9',
    decreases n,
{
    if n < 10 {
        lemma_digit_char_value(n);
    } else {
        lemma_decimal_digits(n / 10);
        lemma_digit_char_value(n % 10);
    }
}

/// The decimal rendering of `n` reads back as `n` (or `-n` read as a
/// negative number) wherever that value is in range.
pub proof fn lemma_scan_decimal(n: nat, negative: bool, lo: int, hi: int)
    requires
        lo <= 0 <= hi,
        negative ==> lo <= -(n as int),
        !negative ==> n <= hi,
    ensures
        scan_digits(decimal(n), 10, negative, 0, lo, hi) == Ok::<int, IntErrorKind>(
            if negative {
                -(n as int)
            } else {
                n as int
            },
        ),
    decreases n,
{
    lemma_digit_char_value(n % 10);
    let r: int = if negative {
        -(n as int)
    } else {
        n as int
    };
    let c = digit_char(n % 10);
    assert(seq![c].drop_first() =~= Seq::<char>::empty());
    assert(scan_digits(Seq::<char>::empty(), 10, negative, r, lo, hi) == Ok::<int, IntErrorKind>(r));
    if n < 10 {
        assert(n % 10 == n);
        assert(scan_digits(seq![c], 10, negative, 0, lo, hi) == Ok::<int, IntErrorKind>(r));
    } else {
        let q = n / 10;
        lemma_scan_decimal(q, negative, lo, hi);
        lemma_scan_push(decimal(q), c, 10, negative, 0, lo, hi);
        assert(q * 10 + n % 10 == n);
        let m: int = if negative {
            -(q as int)
        } else {
            q as int
        };
        assert(scan_digits(seq![c], 10, negative, m, lo, hi) == Ok::<int, IntErrorKind>(r));
    }
}

/// The signed decimal rendering of an integer in range reads back as that
/// integer.
pub proof fn lemma_parse_signed_decimal(x: int, signed: bool, lo: int, hi: int)
    requires
        lo <= x <= hi,
        lo <= 0 <= hi,
        x < 0 ==> signed,
    ensures
        parse_int_spec(signed_decimal(x), 10, signed, lo, hi) == Ok::<int, IntErrorKind>(x),
{
    if x < 0 {
        let d = decimal((-x) as nat);
        lemma_decimal_digits((-x) as nat);
        lemma_scan_decimal((-x) as nat, true, lo, hi);
        assert((seq!['-'] + d).drop_first() =~= d);
    } else {
        lemma_decimal_digits(x as nat);
        lemma_scan_decimal(x as nat, false, lo, hi);
        let d = decimal(x as nat);
        assert('0' <= d[0] <= '9');
    }
}

/// Reading decimal digits only moves away from zero, so a narrower range
/// that holds the result holds every step on the way.
pub proof fn lemma_scan_narrow(
    d: Seq<char>,
    negative: bool,
    acc: int,
    lo: int,
    hi: int,
    lo2: int,
    hi2: int,
    n: int,
)
    requires
        scan_digits(d, 10, negative, acc, lo, hi) == Ok::<int, IntErrorKind>(n),
        lo2 <= 0 <= hi2,
        !negative ==> 0 <= acc && n <= hi2,
        negative ==> acc <= 0 && lo2 <= n,
    ensures
        scan_digits(d, 10, negative, acc, lo2, hi2) == Ok::<int, IntErrorKind>(n),
        !negative ==> acc <= n,
        negative ==> n <= acc,
    decreases d.len(),
{
    if d.len() > 0 {
        let x = digit_value(d[0], 10)->Some_0;
        let next = if negative {
            acc * 10 - x
        } else {
            acc * 10 + x
        };
        lemma_scan_narrow(d.drop_first(), negative, next, lo, hi, lo2, hi2, n);
    }
}

/// An integer read in a range is read the same in any narrower range that
/// holds it.
pub proof fn lemma_parse_int_narrow(
    s: Seq<char>,
    signed: bool,
    lo: int,
    hi: int,
    lo2: int,
    hi2: int,
    n: int,
)
    requires
        parse_int_spec(s, 10, signed, lo, hi) == Ok::<int, IntErrorKind>(n),
        lo2 <= n <= hi2,
        lo2 <= 0 <= hi2,
    ensures
        parse_int_spec(s, 10, signed, lo2, hi2) == Ok::<int, IntErrorKind>(n),
{
    if s[0] == '+' {
        lemma_scan_narrow(s.drop_first(), false, 0, lo, hi, lo2, hi2, n);
    } else if s[0] == '-' && signed {
        lemma_scan_narrow(s.drop_first(), true, 0, lo, hi, lo2, hi2, n);
    } else {
        lemma_scan_narrow(s, false, 0, lo, hi, lo2, hi2, n);
    }
}

/// A sign in front of a number leaves it a floating-point literal: for
/// text without a sign of its own, `-s` and `+s` parse as floats exactly
/// when `s` does.
pub proof fn law_float_sign(s: Seq<char>)
    requires
        s.len() > 0,
        s[0] != '+',
        s[0] != '-',
    ensures
        parse_float_spec(seq!['-'] + s) is Ok <==> parse_float_spec(s) is Ok,
        parse_float_spec(seq!['+'] + s) is Ok <==> parse_float_spec(s) is Ok,
{
    assert(unsigned_part(seq!['-'] + s) =~= s);
    assert(unsigned_part(seq!['+'] + s) =~= s);
    assert(unsigned_part(s) == s);
}

proof fn lemma_exp_index_no_e(s: Seq<char>)
    requires
        forall|i: int| 0 <= i < s.len() ==> #[trigger] s[i] != 'e' && s[i] != 'E',
    ensures
        exp_index(s) == s.len(),
    decreases s.len(),
{
    if s.len() > 0 {
        assert forall|i: int| 0 <= i < s.drop_first().len() implies #[trigger] s.drop_first()[i]
            != 'e' && s.drop_first()[i] != 'E' by {
            assert(s.drop_first()[i] == s[i + 1]);
        }
        lemma_exp_index_no_e(s.drop_first());
    }
}

/// Decimal digits, with or without a fractional part and a sign, are
/// floating-point literals: `D`, `D.E`, `-D.E` and `+D.E` parse as floats
/// for digit strings `D` (not empty) and `E`.
pub proof fn law_decimal_floats(a: Seq<char>, b: Seq<char>)
    requires
        a.len() > 0,
        all_ascii_digits(a),
        all_ascii_digits(b),
    ensures
        parse_float_spec(a) is Ok,
        parse_float_spec(a + seq!['.'] + b) is Ok,
        parse_float_spec(seq!['-'] + (a + seq!['.'] + b)) is Ok,
        parse_float_spec(seq!['+'] + (a + seq!['.'] + b)) is Ok,
{
    let m = a + seq!['.'] + b;
    assert forall|i: int| 0 <= i < a.len() implies #[trigger] a[i] != 'e' && a[i] != 'E' by {
        assert(is_ascii_digit(a[i]));
    }
    lemma_exp_index_no_e(a);
    assert(a.take(a.len() as int) =~= a);
    assert(is_ascii_digit(a[0]));
    assert(is_mantissa(a));
    assert(unsigned_part(a) == a);
    assert forall|i: int| 0 <= i < m.len() implies #[trigger] m[i] != 'e' && m[i] != 'E' by {
        if i < a.len() {
            assert(m[i] == a[i]);
            assert(is_ascii_digit(a[i]));
        } else if i > a.len() {
            assert(m[i] == b[i - a.len() - 1]);
            assert(is_ascii_digit(b[i - a.len() - 1]));
        }
    }
    lemma_exp_index_no_e(m);
    assert(m.take(m.len() as int) =~= m);
    assert forall|i: int| 0 <= i < m.len() implies is_ascii_digit(#[trigger] m[i]) || m[i] == '.' by {
        if i < a.len() {
            assert(m[i] == a[i]);
        } else if i > a.len() {
            assert(m[i] == b[i - a.len() - 1]);
        }
    }
    assert forall|i: int, j: int| 0 <= i < j < m.len() implies !(#[trigger] m[i] == '.'
        && #[trigger] m[j] == '.') by {
        if i < a.len() {
            assert(m[i] == a[i]);
            assert(is_ascii_digit(a[i]));
        } else {
            assert(j > a.len());
            assert(m[j] == b[j - a.len() - 1]);
            assert(is_ascii_digit(b[j - a.len() - 1]));
        }
    }
    assert(m[0] == a[0]);
    assert(is_ascii_digit(m[0]));
    assert(is_mantissa(m));
    assert(unsigned_part(m) == m);
    law_float_sign(m);
}

/// Text that reads as an integer holds no `.`: every character but a
/// leading sign is a digit.
pub proof fn lemma_scan_digits_only(
    d: Seq<char>,
    radix: nat,
    negative: bool,
    acc: int,
    lo: int,
    hi: int,
)
    requires
        scan_digits(d, radix, negative, acc, lo, hi) is Ok,
    ensures
        forall|i: int| 0 <= i < d.len() ==> digit_value(#[trigger] d[i], radix) is Some,
    decreases d.len(),
{
    if d.len() > 0 {
        let x = digit_value(d[0], radix)->Some_0;
        let next = if negative {
            acc * radix - x
        } else {
            acc * radix + x
        };
        lemma_scan_digits_only(d.drop_first(), radix, negative, next, lo, hi);
        assert forall|i: int| 0 <= i < d.len() implies digit_value(#[trigger] d[i], radix) is Some by {
            if i > 0 {
                assert(d[i] == d.drop_first()[i - 1]);
            }
        }
    }
}

/// Decimal integer text holds no `.`.
pub proof fn lemma_int_text_has_no_point(s: Seq<char>, signed: bool, lo: int, hi: int)
    requires
        parse_int_spec(s, 10, signed, lo, hi) is Ok,
    ensures
        !s.contains('.'),
{
    let d = if s[0] == '+' || (s[0] == '-' && signed) {
        s.drop_first()
    } else {
        s
    };
    lemma_scan_digits_only(
        d,
        10,
        s[0] == '-' && signed,
        0,
        lo,
        hi,
    );
    if s.contains('.') {
        let i = choose|i: int| 0 <= i < s.len() && s[i] == '.';
        if d == s {
            assert(digit_value(d[i], 10) is Some);
        } else {
            assert(i > 0);
            assert(d[i - 1] == s[i]);
            assert(digit_value(d[i - 1], 10) is Some);
        }
    }
}

proof fn lemma_exp_index_bounds(s: Seq<char>)
    ensures
        exp_index(s) <= s.len(),
        exp_index(s) < s.len() ==> (s[exp_index(s) as int] == 'e' || s[exp_index(s) as int] == 'E'),
        forall|i: int| 0 <= i < exp_index(s) ==> #[trigger] s[i] != 'e' && s[i] != 'E',
    decreases s.len(),
{
    if s.len() > 0 && !(s[0] == 'e' || s[0] == 'E') {
        lemma_exp_index_bounds(s.drop_first());
        assert forall|i: int| 0 <= i < exp_index(s) implies #[trigger] s[i] != 'e' && s[i] != 'E' by {
            if i > 0 {
                assert(s[i] == s.drop_first()[i - 1]);
            }
        }
    }
}

/// A character that can occur in a floating-point literal: a digit, a
/// sign, a point, an exponent mark, or a letter of `inf`, `infinity` or
/// `nan` in either case.
pub open spec fn is_float_char(c: char) -> bool {
    ||| is_ascii_digit(c)
    ||| c == '+' || c == '-' || c == '.' || c == 'e' || c == 'E'
    ||| ascii_lower(c) == 'i' || ascii_lower(c) == 'n' || ascii_lower(c) == 'f'
    ||| ascii_lower(c) == 't' || ascii_lower(c) == 'y' || ascii_lower(c) == 'a'
}

/// Exponents read as floats too: `DeE`, `DE-E` and `-DeE` for digit
/// strings `D` and `E` (neither empty); and so do `inf`, `infinity` and
/// `nan` in any case, with or without a sign.
pub proof fn law_float_exponents_and_specials(a: Seq<char>, c: Seq<char>, w: Seq<char>)
    requires
        a.len() > 0,
        c.len() > 0,
        all_ascii_digits(a),
        all_ascii_digits(c),
        lower(w) == "inf"@ || lower(w) == "infinity"@ || lower(w) == "nan"@,
    ensures
        parse_float_spec(a + seq!['e'] + c) is Ok,
        parse_float_spec(a + seq!['E', '-'] + c) is Ok,
        parse_float_spec(seq!['-'] + (a + seq!['e'] + c)) is Ok,
        parse_float_spec(w) is Ok,
        parse_float_spec(seq!['-'] + w) is Ok,
        parse_float_spec(seq!['+'] + w) is Ok,
{
    reveal_strlit("inf");
    reveal_strlit("infinity");
    reveal_strlit("nan");
    assert forall|i: int| 0 <= i < a.len() implies #[trigger] a[i] != 'e' && a[i] != 'E' by {
        assert(is_ascii_digit(a[i]));
    }
    assert(is_ascii_digit(a[0]));
    assert(is_mantissa(a));
    assert(is_ascii_digit(c[0]));
    assert(unsigned_part(c) == c);
    assert(is_exponent_digits(c));
    let sc = seq!['-'] + c;
    assert(unsigned_part(sc) =~= c);
    let x = a + seq!['e'] + c;
    let y = a + seq!['E', '-'] + c;
    lemma_exp_index_bounds(x);
    lemma_exp_index_bounds(y);
    if exp_index(x) < a.len() {
        assert(x[exp_index(x) as int] == a[exp_index(x) as int]);
    }
    if exp_index(x) > a.len() {
        assert(x[a.len() as int] == 'e');
    }
    assert(exp_index(x) == a.len());
    if exp_index(y) < a.len() {
        assert(y[exp_index(y) as int] == a[exp_index(y) as int]);
    }
    if exp_index(y) > a.len() {
        assert(y[a.len() as int] == 'E');
    }
    assert(exp_index(y) == a.len());
    assert(x.take(a.len() as int) =~= a);
    assert(y.take(a.len() as int) =~= a);
    assert(x.skip(a.len() + 1 as int) =~= c);
    assert(y.skip(a.len() + 1 as int) =~= sc);
    assert(x[0] == a[0]);
    assert(y[0] == a[0]);
    assert(unsigned_part(x) == x);
    assert(unsigned_part(y) == y);
    assert(is_float_number(x));
    assert(is_float_number(y));
    law_float_sign(x);
    assert(lower(w).len() == w.len());
    assert(lower(w)[0] == 'i' || lower(w)[0] == 'n');
    assert(lower(w)[0] == ascii_lower(w[0]));
    assert(w[0] != '+' && w[0] != '-');
    assert(unsigned_part(w) == w);
    law_float_sign(w);
}

/// A floating-point literal holds only digits, signs, points, exponent
/// marks and the letters of `inf`, `infinity` and `nan`: text with any
/// other character is not a float.
pub proof fn law_float_alphabet(s: Seq<char>)
    requires
        parse_float_spec(s) is Ok,
    ensures
        forall|i: int| 0 <= i < s.len() ==> is_float_char(#[trigger] s[i]),
{
    reveal_strlit("inf");
    reveal_strlit("infinity");
    reveal_strlit("nan");
    let u = unsigned_part(s);
    let off: int = if s.len() > 0 && (s[0] == '+' || s[0] == '-') {
        1
    } else {
        0
    };
    assert(u =~= s.skip(off));
    assert forall|j: int| 0 <= j < u.len() implies is_float_char(#[trigger] u[j]) by {
        if is_float_special(u) {
            assert(lower(u).len() == u.len());
            assert(lower(u)[j] == ascii_lower(u[j]));
        } else {
            let k = exp_index(u);
            lemma_exp_index_bounds(u);
            if j < k {
                assert(u.take(k as int)[j] == u[j]);
            } else if j > k {
                let e = u.skip(k + 1 as int);
                assert(e[j - k - 1] == u[j]);
                if e.len() > 0 && (e[0] == '+' || e[0] == '-') {
                    if j - k - 1 > 0 {
                        assert(unsigned_part(e)[j - k - 2] == e[j - k - 1]);
                    }
                } else {
                    assert(unsigned_part(e)[j - k - 1] == e[j - k - 1]);
                }
            }
        }
    }
    assert forall|i: int| 0 <= i < s.len() implies is_float_char(#[trigger] s[i]) by {
        if i >= off {
            assert(s[i] == u[i - off]);
        }
    }
}

} // verus!
