//! The shapes of argument tokens: `@TYPE`, `@COUNTTYPE[:VALUES]`,
//! `COUNTTYPE:VALUES`, `'RET(ARGS){BODY}'`, `TYPE:VALUE` and `:TYPE`.
//! Each shape is an anchored pattern; the functions here decide whether a
//! token has the shape and, when it has, where its parts lie.
use vstd::prelude::*;

use crate::text::{has_prefix, prefix_at};

verus! {

/// A character of Unicode general category `Nd` (what `\d` matches).
pub open spec fn is_decimal_digit(c: char) -> bool {
    ||| ('\u{30}' <= c && c <= '\u{39}')
    ||| ('\u{660}' <= c && c <= '\u{669}')
    ||| ('\u{6f0}' <= c && c <= '\u{6f9}')
    ||| ('\u{7c0}' <= c && c <= '\u{7c9}')
    ||| ('\u{966}' <= c && c <= '\u{96f}')
    ||| ('\u{9e6}' <= c && c <= '\u{9ef}')
    ||| ('\u{a66}' <= c && c <= '\u{a6f}')
    ||| ('\u{ae6}' <= c && c <= '\u{aef}')
    ||| ('\u{b66}' <= c && c <= '\u{b6f}')
    ||| ('\u{be6}' <= c && c <= '\u{bef}')
    ||| ('\u{c66}' <= c && c <= '\u{c6f}')
    ||| ('\u{ce6}' <= c && c <= '\u{cef}')
    ||| ('\u{d66}' <= c && c <= '\u{d6f}')
    ||| ('\u{de6}' <= c && c <= '\u{def}')
    ||| ('\u{e50}' <= c && c <= '\u{e59}')
    ||| ('\u{ed0}' <= c && c <= '\u{ed9}')
    ||| ('\u{f20}' <= c && c <= '\u{f29}')
    ||| ('\u{1040}' <= c && c <= '\u{1049}')
    ||| ('\u{1090}' <= c && c <= '\u{1099}')
    ||| ('\u{17e0}' <= c && c <= '\u{17e9}')
    ||| ('\u{1810}' <= c && c <= '\u{1819}')
    ||| ('\u{1946}' <= c && c <= '\u{194f}')
    ||| ('\u{19d0}' <= c && c <= '\u{19d9}')
    ||| ('\u{1a80}' <= c && c <= '\u{1a89}')
    ||| ('\u{1a90}' <= c && c <= '\u{1a99}')
    ||| ('\u{1b50}' <= c && c <= '\u{1b59}')
    ||| ('\u{1bb0}' <= c && c <= '\u{1bb9}')
    ||| ('\u{1c40}' <= c && c <= '\u{1c49}')
    ||| ('\u{1c50}' <= c && c <= '\u{1c59}')
    ||| ('\u{a620}' <= c && c <= '\u{a629}')
    ||| ('\u{a8d0}' <= c && c <= '\u{a8d9}')
    ||| ('\u{a900}' <= c && c <= '\u{a909}')
    ||| ('\u{a9d0}' <= c && c <= '\u{a9d9}')
    ||| ('\u{a9f0}' <= c && c <= '\u{a9f9}')
    ||| ('\u{aa50}' <= c && c <= '\u{aa59}')
    ||| ('\u{abf0}' <= c && c <= '\u{abf9}')
    ||| ('\u{ff10}' <= c && c <= '\u{ff19}')
    ||| ('\u{104a0}' <= c && c <= '\u{104a9}')
    ||| ('\u{10d30}' <= c && c <= '\u{10d39}')
    ||| ('\u{10d40}' <= c && c <= '\u{10d49}')
    ||| ('\u{11066}' <= c && c <= '\u{1106f}')
    ||| ('\u{110f0}' <= c && c <= '\u{110f9}')
    ||| ('\u{11136}' <= c && c <= '\u{1113f}')
    ||| ('\u{111d0}' <= c && c <= '\u{111d9}')
    ||| ('\u{112f0}' <= c && c <= '\u{112f9}')
    ||| ('\u{11450}' <= c && c <= '\u{11459}')
    ||| ('\u{114d0}' <= c && c <= '\u{114d9}')
    ||| ('\u{11650}' <= c && c <= '\u{11659}')
    ||| ('\u{116c0}' <= c && c <= '\u{116c9}')
    ||| ('\u{116d0}' <= c && c <= '\u{116e3}')
    ||| ('\u{11730}' <= c && c <= '\u{11739}')
    ||| ('\u{118e0}' <= c && c <= '\u{118e9}')
    ||| ('\u{11950}' <= c && c <= '\u{11959}')
    ||| ('\u{11bf0}' <= c && c <= '\u{11bf9}')
    ||| ('\u{11c50}' <= c && c <= '\u{11c59}')
    ||| ('\u{11d50}' <= c && c <= '\u{11d59}')
    ||| ('\u{11da0}' <= c && c <= '\u{11da9}')
    ||| ('\u{11f50}' <= c && c <= '\u{11f59}')
    ||| ('\u{16130}' <= c && c <= '\u{16139}')
    ||| ('\u{16a60}' <= c && c <= '\u{16a69}')
    ||| ('\u{16ac0}' <= c && c <= '\u{16ac9}')
    ||| ('\u{16b50}' <= c && c <= '\u{16b59}')
    ||| ('\u{16d70}' <= c && c <= '\u{16d79}')
    ||| ('\u{1ccf0}' <= c && c <= '\u{1ccf9}')
    ||| ('\u{1d7ce}' <= c && c <= '\u{1d7ff}')
    ||| ('\u{1e140}' <= c && c <= '\u{1e149}')
    ||| ('\u{1e2f0}' <= c && c <= '\u{1e2f9}')
    ||| ('\u{1e4f0}' <= c && c <= '\u{1e4f9}')
    ||| ('\u{1e5f1}' <= c && c <= '\u{1e5fa}')
    ||| ('\u{1e950}' <= c && c <= '\u{1e959}')
    ||| ('\u{1fbf0}' <= c && c <= '\u{1fbf9}')
}

/// Executable form of [`is_decimal_digit`].
pub fn decimal_digit(c: char) -> (r: bool)
    ensures
        r == is_decimal_digit(c),
{
    ('\u{30}' <= c && c <= '\u{39}') || ('\u{660}' <= c && c <= '\u{669}') || ('\u{6f0}' <= c && c <= '\u{6f9}') || ('\u{7c0}' <= c && c <= '\u{7c9}') || ('\u{966}' <= c && c <= '\u{96f}') || ('\u{9e6}' <= c && c <= '\u{9ef}') || ('\u{a66}' <= c && c <= '\u{a6f}') || ('\u{ae6}' <= c && c <= '\u{aef}') || ('\u{b66}' <= c && c <= '\u{b6f}') || ('\u{be6}' <= c && c <= '\u{bef}') || ('\u{c66}' <= c && c <= '\u{c6f}') || ('\u{ce6}' <= c && c <= '\u{cef}') || ('\u{d66}' <= c && c <= '\u{d6f}') || ('\u{de6}' <= c && c <= '\u{def}') || ('\u{e50}' <= c && c <= '\u{e59}') || ('\u{ed0}' <= c && c <= '\u{ed9}') || ('\u{f20}' <= c && c <= '\u{f29}') || ('\u{1040}' <= c && c <= '\u{1049}') || ('\u{1090}' <= c && c <= '\u{1099}') || ('\u{17e0}' <= c && c <= '\u{17e9}') || ('\u{1810}' <= c && c <= '\u{1819}') || ('\u{1946}' <= c && c <= '\u{194f}') || ('\u{19d0}' <= c && c <= '\u{19d9}') || ('\u{1a80}' <= c && c <= '\u{1a89}') || ('\u{1a90}' <= c && c <= '\u{1a99}') || ('\u{1b50}' <= c && c <= '\u{1b59}') || ('\u{1bb0}' <= c && c <= '\u{1bb9}') || ('\u{1c40}' <= c && c <= '\u{1c49}') || ('\u{1c50}' <= c && c <= '\u{1c59}') || ('\u{a620}' <= c && c <= '\u{a629}') || ('\u{a8d0}' <= c && c <= '\u{a8d9}') || ('\u{a900}' <= c && c <= '\u{a909}') || ('\u{a9d0}' <= c && c <= '\u{a9d9}') || ('\u{a9f0}' <= c && c <= '\u{a9f9}') || ('\u{aa50}' <= c && c <= '\u{aa59}') || ('\u{abf0}' <= c && c <= '\u{abf9}') || ('\u{ff10}' <= c && c <= '\u{ff19}') || ('\u{104a0}' <= c && c <= '\u{104a9}') || ('\u{10d30}' <= c && c <= '\u{10d39}') || ('\u{10d40}' <= c && c <= '\u{10d49}') || ('\u{11066}' <= c && c <= '\u{1106f}') || ('\u{110f0}' <= c && c <= '\u{110f9}') || ('\u{11136}' <= c && c <= '\u{1113f}') || ('\u{111d0}' <= c && c <= '\u{111d9}') || ('\u{112f0}' <= c && c <= '\u{112f9}') || ('\u{11450}' <= c && c <= '\u{11459}') || ('\u{114d0}' <= c && c <= '\u{114d9}') || ('\u{11650}' <= c && c <= '\u{11659}') || ('\u{116c0}' <= c && c <= '\u{116c9}') || ('\u{116d0}' <= c && c <= '\u{116e3}') || ('\u{11730}' <= c && c <= '\u{11739}') || ('\u{118e0}' <= c && c <= '\u{118e9}') || ('\u{11950}' <= c && c <= '\u{11959}') || ('\u{11bf0}' <= c && c <= '\u{11bf9}') || ('\u{11c50}' <= c && c <= '\u{11c59}') || ('\u{11d50}' <= c && c <= '\u{11d59}') || ('\u{11da0}' <= c && c <= '\u{11da9}') || ('\u{11f50}' <= c && c <= '\u{11f59}') || ('\u{16130}' <= c && c <= '\u{16139}') || ('\u{16a60}' <= c && c <= '\u{16a69}') || ('\u{16ac0}' <= c && c <= '\u{16ac9}') || ('\u{16b50}' <= c && c <= '\u{16b59}') || ('\u{16d70}' <= c && c <= '\u{16d79}') || ('\u{1ccf0}' <= c && c <= '\u{1ccf9}') || ('\u{1d7ce}' <= c && c <= '\u{1d7ff}') || ('\u{1e140}' <= c && c <= '\u{1e149}') || ('\u{1e2f0}' <= c && c <= '\u{1e2f9}') || ('\u{1e4f0}' <= c && c <= '\u{1e4f9}') || ('\u{1e5f1}' <= c && c <= '\u{1e5fa}') || ('\u{1e950}' <= c && c <= '\u{1e959}') || ('\u{1fbf0}' <= c && c <= '\u{1fbf9}')
}

/// No character of `s` is a line feed (what `.` matches).
pub open spec fn no_newline(s: Seq<char>) -> bool {
    forall|i: int| 0 <= i < s.len() ==> #[trigger] s[i] != '\n'
}

/// Whether `v[from..]` holds no line feed.
pub fn no_newline_from(v: &Vec<char>, from: usize) -> (r: bool)
    requires
        from <= v.len(),
    ensures
        r == no_newline(v@.skip(from as int)),
{
    let mut i = from;
    while i < v.len()
        invariant
            from <= i <= v.len(),
            forall|k: int| 0 <= k < i - from ==> #[trigger] v@.skip(from as int)[k] != '\n',
        decreases v.len() - i,
    {
        if v[i] == '\n' {
            assert(v@.skip(from as int)[i - from] == '\n');
            return false;
        }
        i = i + 1;
    }
    true
}

/// The number of decimal digits `s` starts with.
pub open spec fn leading_digits(s: Seq<char>) -> nat
    decreases s.len(),
{
    if s.len() > 0 && is_decimal_digit(s[0]) {
        1 + leading_digits(s.drop_first())
    } else {
        0
    }
}

/// The end of the run of decimal digits that starts at `from`.
pub fn digits_end(v: &Vec<char>, from: usize) -> (r: usize)
    requires
        from <= v.len(),
    ensures
        from <= r <= v.len(),
        r - from == leading_digits(v@.skip(from as int)),
{
    let mut i = from;
    while i < v.len() && decimal_digit(v[i])
        invariant
            from <= i <= v.len(),
            leading_digits(v@.skip(from as int)) == (i - from) + leading_digits(v@.skip(i as int)),
        decreases v.len() - i,
    {
        assert(v@.skip(i as int).drop_first() == v@.skip(i + 1));
        i = i + 1;
    }
    i
}

/// The scalar type name `s` starts with, trying
/// `i8|u8|i16|u16|i32|u32|i64|u64|isize|usize|f32|f64|cstr|ptr` in order.
pub open spec fn scalar_prefix(s: Seq<char>) -> Option<Seq<char>> {
    if has_prefix(s, "i8"@) {
        Some("i8"@)
    } else if has_prefix(s, "u8"@) {
        Some("u8"@)
    } else if has_prefix(s, "i16"@) {
        Some("i16"@)
    } else if has_prefix(s, "u16"@) {
        Some("u16"@)
    } else if has_prefix(s, "i32"@) {
        Some("i32"@)
    } else if has_prefix(s, "u32"@) {
        Some("u32"@)
    } else if has_prefix(s, "i64"@) {
        Some("i64"@)
    } else if has_prefix(s, "u64"@) {
        Some("u64"@)
    } else if has_prefix(s, "isize"@) {
        Some("isize"@)
    } else if has_prefix(s, "usize"@) {
        Some("usize"@)
    } else if has_prefix(s, "f32"@) {
        Some("f32"@)
    } else if has_prefix(s, "f64"@) {
        Some("f64"@)
    } else if has_prefix(s, "cstr"@) {
        Some("cstr"@)
    } else if has_prefix(s, "ptr"@) {
        Some("ptr"@)
    } else {
        None
    }
}

/// A scalar type name, or `callback` (the names a typed value may carry).
pub open spec fn typed_prefix(s: Seq<char>) -> Option<Seq<char>> {
    match scalar_prefix(s) {
        Some(n) => Some(n),
        None => if has_prefix(s, "callback"@) {
            Some("callback"@)
        } else {
            None
        },
    }
}

fn lit_prefix(v: &Vec<char>, at: usize, lit: &str) -> (r: Option<usize>)
    requires
        at <= v.len(),
    ensures
        r matches Some(n) ==> has_prefix(v@.skip(at as int), lit@) && n == lit@.len() && at + n
            <= v.len() && v@.subrange(at as int, at + n) == lit@,
        r is None ==> !has_prefix(v@.skip(at as int), lit@),
{
    if prefix_at(v, at, lit) {
        let n = crate::text::chars_of(lit).len();
        assert(v@.subrange(at as int, at + n) == v@.skip(at as int).take(n as int));
        Some(n)
    } else {
        None
    }
}

/// What `scalar_prefix` finds is one of the scalar type names.
pub proof fn lemma_scalar_prefix_names(s: Seq<char>)
    ensures
        scalar_prefix(s) matches Some(n) ==> (n == "i8"@ || n == "u8"@ || n == "i16"@ || n
            == "u16"@ || n == "i32"@ || n == "u32"@ || n == "i64"@ || n == "u64"@ || n == "isize"@
            || n == "usize"@ || n == "f32"@ || n == "f64"@ || n == "cstr"@ || n == "ptr"@),
{
}

/// What `scalar_prefix` finds is a prefix.
pub proof fn lemma_scalar_prefix_is_prefix(s: Seq<char>)
    ensures
        scalar_prefix(s) matches Some(n) ==> has_prefix(s, n),
{
}

/// The type name of an array token is the scalar name its digits end at.
pub proof fn lemma_array_shape_names(t: Seq<char>)
    ensures
        output_array_shape(t) matches Some((de, ne, h)) ==> 0 < de <= ne <= t.len()
            && scalar_prefix(t.skip(de)) == Some(t.subrange(de, ne)),
        input_array_shape(t) matches Some((de, ne)) ==> 0 < de <= ne < t.len()
            && scalar_prefix(t.skip(de)) == Some(t.subrange(de, ne)),
{
    if let Some((de, ne, h)) = output_array_shape(t) {
        lemma_scalar_prefix_is_prefix(t.skip(de));
        assert(t.skip(de).take(ne - de) =~= t.subrange(de, ne));
    }
    if let Some((de, ne)) = input_array_shape(t) {
        lemma_scalar_prefix_is_prefix(t.skip(de));
        assert(t.skip(de).take(ne - de) =~= t.subrange(de, ne));
    }
}

/// The length of the scalar type name at `v[at..]`, if there is one.
pub fn scalar_prefix_at(v: &Vec<char>, at: usize) -> (r: Option<usize>)
    requires
        at <= v.len(),
    ensures
        r matches Some(n) ==> at + n <= v.len() && scalar_prefix(v@.skip(at as int)) == Some(
            v@.subrange(at as int, at + n),
        ),
        r is None ==> scalar_prefix(v@.skip(at as int)) is None,
{
    if let Some(n) = lit_prefix(v, at, "i8") {
        return Some(n);
    }
    if let Some(n) = lit_prefix(v, at, "u8") {
        return Some(n);
    }
    if let Some(n) = lit_prefix(v, at, "i16") {
        return Some(n);
    }
    if let Some(n) = lit_prefix(v, at, "u16") {
        return Some(n);
    }
    if let Some(n) = lit_prefix(v, at, "i32") {
        return Some(n);
    }
    if let Some(n) = lit_prefix(v, at, "u32") {
        return Some(n);
    }
    if let Some(n) = lit_prefix(v, at, "i64") {
        return Some(n);
    }
    if let Some(n) = lit_prefix(v, at, "u64") {
        return Some(n);
    }
    if let Some(n) = lit_prefix(v, at, "isize") {
        return Some(n);
    }
    if let Some(n) = lit_prefix(v, at, "usize") {
        return Some(n);
    }
    if let Some(n) = lit_prefix(v, at, "f32") {
        return Some(n);
    }
    if let Some(n) = lit_prefix(v, at, "f64") {
        return Some(n);
    }
    if let Some(n) = lit_prefix(v, at, "cstr") {
        return Some(n);
    }
    if let Some(n) = lit_prefix(v, at, "ptr") {
        return Some(n);
    }
    None
}

/// The length of the typed-value name at `v[at..]`, if there is one.
pub fn typed_prefix_at(v: &Vec<char>, at: usize) -> (r: Option<usize>)
    requires
        at <= v.len(),
    ensures
        r matches Some(n) ==> at + n <= v.len() && typed_prefix(v@.skip(at as int)) == Some(
            v@.subrange(at as int, at + n),
        ),
        r is None ==> typed_prefix(v@.skip(at as int)) is None,
{
    if let Some(n) = scalar_prefix_at(v, at) {
        return Some(n);
    }
    lit_prefix(v, at, "callback")
}

/// `^@(TY)$`: the type name of an output scalar token.
pub open spec fn output_scalar_shape(t: Seq<char>) -> Option<Seq<char>> {
    if t.len() > 0 && t[0] == '@' && scalar_prefix(t.drop_first()) == Some(t.drop_first()) {
        Some(t.drop_first())
    } else {
        None
    }
}

/// `^@(\d+)(TY)(?::(.+))?$`: the end of the count digits, the end of the
/// type name, and whether initial values follow (after a `:`).
pub open spec fn output_array_shape(t: Seq<char>) -> Option<(int, int, bool)> {
    if t.len() == 0 || t[0] != '@' {
        None
    } else {
        let de = 1 + leading_digits(t.drop_first()) as int;
        if de == 1 {
            None
        } else {
            match scalar_prefix(t.skip(de)) {
                None => None,
                Some(n) => {
                    let ne = de + n.len() as int;
                    if ne == t.len() {
                        Some((de, ne, false))
                    } else if t[ne] == ':' && ne + 1 < t.len() && no_newline(t.skip(ne + 1)) {
                        Some((de, ne, true))
                    } else {
                        None
                    }
                },
            }
        }
    }
}

/// `^(\d+)(TY):(.+)$`: the end of the count digits and of the type name.
pub open spec fn input_array_shape(t: Seq<char>) -> Option<(int, int)> {
    let de = leading_digits(t) as int;
    if de == 0 {
        None
    } else {
        match scalar_prefix(t.skip(de)) {
            None => None,
            Some(n) => {
                let ne = de + n.len() as int;
                if ne + 1 < t.len() && t[ne] == ':' && no_newline(t.skip(ne + 1)) {
                    Some((de, ne))
                } else {
                    None
                }
            },
        }
    }
}

/// `^(TY|callback):(.+)$`: the end of the type name.
pub open spec fn typed_value_shape(t: Seq<char>) -> Option<int> {
    match typed_prefix(t) {
        None => None,
        Some(n) => {
            let ne = n.len() as int;
            if ne + 1 < t.len() && t[ne] == ':' && no_newline(t.skip(ne + 1)) {
                Some(ne)
            } else {
                None
            }
        },
    }
}

/// `^:(TY|void)$`: the named return type.
pub open spec fn return_type_shape(t: Seq<char>) -> Option<Seq<char>> {
    if t.len() > 0 && t[0] == ':' && (scalar_prefix(t.drop_first()) == Some(t.drop_first())
        || t.drop_first() == "void"@) {
        Some(t.drop_first())
    } else {
        None
    }
}

/// The largest `q < k` where `)` is followed by `{`, or -1.
pub open spec fn last_pair_before(t: Seq<char>, k: int) -> int
    decreases k,
{
    if k <= 0 {
        -1
    } else if k < t.len() && t[k - 1] == ')' && t[k] == '{' {
        k - 1
    } else {
        last_pair_before(t, k - 1)
    }
}

/// The largest `p < k` holding `(`, or -1.
pub open spec fn last_open_before(t: Seq<char>, k: int) -> int
    decreases k,
{
    if k <= 0 {
        -1
    } else if k <= t.len() && t[k - 1] == '(' {
        k - 1
    } else {
        last_open_before(t, k - 1)
    }
}

/// `^'(.+)\((.*)\)\{(.*)\}'$`: the positions of the `(` after the return
/// type and of the `)` before the body. The groups are greedy, so the `)`
/// is the last `){` that leaves room for `}'`, and the `(` is the last one
/// before it.
pub open spec fn callback_shape(t: Seq<char>) -> Option<(int, int)> {
    if t.len() >= 6 && t[0] == '\'' && t.last() == '\'' && t[t.len() - 2] == '}' && no_newline(t) {
        let q = last_pair_before(t, t.len() - 3);
        let p = last_open_before(t, q);
        if q >= 0 && p >= 2 {
            Some((p, q))
        } else {
            None
        }
    } else {
        None
    }
}

/// Both searches find a position below their bound.
pub proof fn lemma_last_before_bounds(t: Seq<char>, k: int)
    ensures
        -1 <= last_pair_before(t, k) < if k > 0 { k } else { 0 },
        -1 <= last_open_before(t, k) < if k > 0 { k } else { 0 },
        last_open_before(t, k) >= 0 ==> t[last_open_before(t, k)] == '(',
        last_pair_before(t, k) >= 0 ==> t[last_pair_before(t, k)] == ')' && t[last_pair_before(t, k) + 1] == '{',
    decreases k,
{
    if k > 0 {
        lemma_last_before_bounds(t, k - 1);
    }
}

/// Where the parts of a callback token lie.
pub proof fn lemma_callback_shape_bounds(t: Seq<char>)
    ensures
        callback_shape(t) matches Some((p, q)) ==> 2 <= p < q && q + 4 <= t.len() && t[p] == '('
            && t[q] == ')' && t[q + 1] == '{',
{
    if t.len() >= 6 {
        lemma_last_before_bounds(t, t.len() - 3);
        lemma_last_before_bounds(t, last_pair_before(t, t.len() - 3));
    }
}

/// `pat` occurs in `s` as a (not necessarily contiguous) subsequence.
pub open spec fn has_subsequence(s: Seq<char>, pat: Seq<char>) -> bool
    decreases s.len(),
{
    if pat.len() == 0 {
        true
    } else if s.len() == 0 {
        false
    } else if s[0] == pat[0] {
        has_subsequence(s.drop_first(), pat.drop_first())
    } else {
        has_subsequence(s.drop_first(), pat)
    }
}

/// `^'.*\(.*\).*\{.*\}.*'$`: quoted, with `(`, `)`, `{`, `}` in that order
/// inside.
pub open spec fn callback_like(t: Seq<char>) -> bool {
    t.len() >= 2 && t[0] == '\'' && t.last() == '\'' && no_newline(t) && has_subsequence(
        t.subrange(1, t.len() - 1),
        seq!['(', ')', '{', '}'],
    )
}

/// Executable form of [`output_scalar_shape`]: the end of the name.
pub fn match_output_scalar(v: &Vec<char>) -> (r: bool)
    ensures
        r == output_scalar_shape(v@) is Some,
{
    if v.len() == 0 || v[0] != '@' {
        return false;
    }
    assert(v@.skip(1) == v@.drop_first());
    match scalar_prefix_at(v, 1) {
        Some(n) => {
            assert(v@.subrange(1, 1 + n) == v@.drop_first() ==> 1 + n == v.len());
            if 1 + n == v.len() {
                assert(v@.subrange(1, 1 + n) == v@.drop_first());
                true
            } else {
                false
            }
        },
        None => false,
    }
}

/// Executable form of [`output_array_shape`].
pub fn match_output_array(v: &Vec<char>) -> (r: Option<(usize, usize, bool)>)
    ensures
        r matches Some(x) ==> output_array_shape(v@) == Some((x.0 as int, x.1 as int, x.2)),
        r is None ==> output_array_shape(v@) is None,
{
    if v.len() == 0 || v[0] != '@' {
        return None;
    }
    assert(v@.skip(1) == v@.drop_first());
    let de = digits_end(v, 1);
    if de == 1 {
        return None;
    }
    match scalar_prefix_at(v, de) {
        None => None,
        Some(n) => {
            let ne = de + n;
            if ne == v.len() {
                Some((de, ne, false))
            } else if v[ne] == ':' && ne + 1 < v.len() && no_newline_from(v, ne + 1) {
                Some((de, ne, true))
            } else {
                None
            }
        },
    }
}

/// Executable form of [`input_array_shape`].
pub fn match_input_array(v: &Vec<char>) -> (r: Option<(usize, usize)>)
    ensures
        r matches Some(x) ==> input_array_shape(v@) == Some((x.0 as int, x.1 as int)),
        r is None ==> input_array_shape(v@) is None,
{
    assert(v@.skip(0) == v@);
    let de = digits_end(v, 0);
    if de == 0 {
        return None;
    }
    match scalar_prefix_at(v, de) {
        None => None,
        Some(n) => {
            let ne = de + n;
            if ne < v.len() && ne + 1 < v.len() && v[ne] == ':' && no_newline_from(v, ne + 1) {
                Some((de, ne))
            } else {
                None
            }
        },
    }
}

/// Executable form of [`typed_value_shape`].
pub fn match_typed_value(v: &Vec<char>) -> (r: Option<usize>)
    ensures
        r matches Some(x) ==> typed_value_shape(v@) == Some(x as int),
        r is None ==> typed_value_shape(v@) is None,
{
    assert(v@.skip(0) == v@);
    match typed_prefix_at(v, 0) {
        None => None,
        Some(n) => {
            if n < v.len() && n + 1 < v.len() && v[n] == ':' && no_newline_from(v, n + 1) {
                Some(n)
            } else {
                None
            }
        },
    }
}

/// Executable form of [`return_type_shape`].
pub fn match_return_type(v: &Vec<char>) -> (r: bool)
    ensures
        r == return_type_shape(v@) is Some,
{
    if v.len() == 0 || v[0] != ':' {
        return false;
    }
    assert(v@.skip(1) == v@.drop_first());
    match scalar_prefix_at(v, 1) {
        Some(n) => {
            if 1 + n == v.len() {
                assert(v@.subrange(1, 1 + n) == v@.drop_first());
                return true;
            }
            assert(v@.subrange(1, 1 + n) != v@.drop_first());
        },
        None => {},
    }
    let rest = crate::text::slice_chars(v, 1, v.len());
    assert(rest@ == v@.drop_first());
    crate::text::chars_eq_str(&rest, "void")
}

/// Executable form of [`callback_shape`].
pub fn match_callback(v: &Vec<char>) -> (r: Option<(usize, usize)>)
    ensures
        r matches Some(x) ==> callback_shape(v@) == Some((x.0 as int, x.1 as int)),
        r is None ==> callback_shape(v@) is None,
{
    let n = v.len();
    if !(n >= 6 && v[0] == '\'' && v[n - 1] == '\'' && v[n - 2] == '}') {
        return None;
    }
    assert(v@.skip(0) == v@);
    if !no_newline_from(v, 0) {
        return None;
    }
    let mut k: usize = n - 3;
    while k > 0 && !(k < n && v[k - 1] == ')' && v[k] == '{')
        invariant
            k <= n - 3,
            n == v.len(),
            last_pair_before(v@, n - 3) == last_pair_before(v@, k as int),
        decreases k,
    {
        k = k - 1;
    }
    if k == 0 {
        return None;
    }
    let q = k - 1;
    assert(last_pair_before(v@, n - 3) == q);
    let mut j: usize = q;
    while j > 0 && v[j - 1] != '('
        invariant
            j <= q < n,
            n == v.len(),
            last_open_before(v@, q as int) == last_open_before(v@, j as int),
        decreases j,
    {
        j = j - 1;
    }
    if j < 3 {
        return None;
    }
    Some((j - 1, q))
}

/// Executable form of [`callback_like`].
pub fn match_callback_like(v: &Vec<char>) -> (r: bool)
    ensures
        r == callback_like(v@),
{
    let n = v.len();
    if !(n >= 2 && v[0] == '\'' && v[n - 1] == '\'') {
        return false;
    }
    assert(v@.skip(0) == v@);
    if !no_newline_from(v, 0) {
        return false;
    }
    let pat = ['(', ')', '{', '}'];
    let ghost pats = seq!['(', ')', '{', '}'];
    let ghost mid = v@.subrange(1, n - 1);
    let mut i: usize = 1;
    let mut j: usize = 0;
    assert(mid.skip(0) == mid);
    assert(pats.skip(0) == pats);
    while i < n - 1 && j < 4
        invariant
            1 <= i <= n - 1,
            n == v.len(),
            j <= 4,
            mid == v@.subrange(1, n - 1),
            pats == seq!['(', ')', '{', '}'],
            pat@ == pats,
            has_subsequence(mid, pats) == has_subsequence(mid.skip(i - 1), pats.skip(j as int)),
        decreases n - 1 - i,
    {
        assert(mid.skip(i - 1)[0] == v@[i as int]);
        assert(mid.skip(i - 1).drop_first() == mid.skip(i as int));
        assert(pats.skip(j as int)[0] == pats[j as int]);
        assert(pats.skip(j as int).drop_first() == pats.skip(j + 1));
        if v[i] == pat[j] {
            j = j + 1;
        }
        i = i + 1;
    }
    if j == 4 {
        assert(pats.skip(4).len() == 0);
        true
    } else {
        assert(mid.skip(i - 1).len() == 0);
        assert(pats.skip(j as int).len() > 0);
        false
    }
}

} // verus!
