//! The human-readable text of call results and of a dry run.
use vstd::prelude::*;

use crate::error::join;
use crate::ffi::CallResult;
use crate::parser::{ArgumentView, CallSpec, CallSpecView};
use crate::text::{
    decimal, decimal_chars, extend_chars, extend_str, hex, hex_chars, hex_digit_char,
    signed_decimal, signed_decimal_chars, string_of,
};
use crate::error::ErrorView;
use crate::number::{
    digit_value, lemma_decimal_digits, lemma_parse_signed_decimal, parse_int_spec, scan_digits,
    IntErrorKind,
};
use crate::text::lemma_trim_unchanged;
use crate::types::{
    int_bounds, is_int_type, is_signed_type, parse_value_spec, type_label, value_type, Value, ValueView,
};

verus! {

/// Two lower-case hexadecimal digits of a byte.
pub open spec fn hex2(b: u8) -> Seq<char> {
    seq![hex_digit_char((b / 16) as nat), hex_digit_char((b % 16) as nat)]
}

/// How many elements of an array are shown: at most ten.
pub open spec fn shown(n: nat) -> nat {
    if n > 10 {
        10
    } else {
        n
    }
}

/// How a value prints: integers in decimal, floating-point values as
/// their text, pointers as `0x` and hexadecimal digits, strings as they
/// are, arrays as `[a, b, ...]` with bytes in hexadecimal and at most ten
/// elements shown, callbacks as `<callback>`.
pub open spec fn value_text(v: ValueView) -> Seq<char>
    decreases v, 0int,
{
    match v {
        ValueView::I8(x) => signed_decimal(x as int),
        ValueView::U8(x) => signed_decimal(x as int),
        ValueView::I16(x) => signed_decimal(x as int),
        ValueView::U16(x) => signed_decimal(x as int),
        ValueView::I32(x) => signed_decimal(x as int),
        ValueView::U32(x) => signed_decimal(x as int),
        ValueView::I64(x) => signed_decimal(x as int),
        ValueView::U64(x) => signed_decimal(x as int),
        ValueView::Isize(x) => signed_decimal(x as int),
        ValueView::Usize(x) => signed_decimal(x as int),
        ValueView::F32(s) => s,
        ValueView::F64(s) => s,
        ValueView::Ptr(a) => seq!['0', 'x'] + hex(a as nat),
        ValueView::CStr(s) => s,
        ValueView::Array { elem_type, values } => {
            let items = items_text(values).take(shown(values.len()) as int);
            let tail = array_tail(values.len());
            seq!['['] + join(items, ", "@) + tail + seq![']']
        },
        ValueView::Callback { .. } => "<callback>"@,
    }
}

/// What closes a long array: the count of elements not shown.
pub open spec fn array_tail(n: nat) -> Seq<char> {
    if n > 10 {
        ", ... ("@ + decimal((n - 10) as nat) + " more)"@
    } else {
        Seq::empty()
    }
}

/// How an array element prints: bytes as `0x` and two hexadecimal
/// digits, anything else as it prints alone.
pub open spec fn item_text(x: ValueView) -> Seq<char>
    decreases x, 1int,
{
    match x {
        ValueView::U8(b) => seq!['0', 'x'] + hex2(b),
        _ => value_text(x),
    }
}

/// The texts of all elements of an array, in order.
pub open spec fn items_text(vals: Seq<ValueView>) -> Seq<Seq<char>>
    decreases vals, 2int,
{
    if vals.len() == 0 {
        Seq::empty()
    } else {
        items_text(vals.subrange(0, vals.len() - 1)).push(item_text(vals[vals.len() - 1]))
    }
}

/// The texts of the elements are listed one for one.
pub proof fn lemma_items_text(vals: Seq<ValueView>)
    ensures
        items_text(vals).len() == vals.len(),
        forall|j: int| 0 <= j < vals.len() ==> #[trigger] items_text(vals)[j] == item_text(vals[j]),
    decreases vals.len(),
{
    if vals.len() > 0 {
        let front = vals.subrange(0, vals.len() - 1);
        lemma_items_text(front);
        assert forall|j: int| 0 <= j < vals.len() implies #[trigger] items_text(vals)[j] == item_text(
            vals[j],
        ) by {
            if j < vals.len() - 1 {
                assert(front[j] == vals[j]);
            }
        }
    }
}

/// How a value prints after its type: `TYPE = VALUE`; an array of one
/// element shows the element type and the element, a longer one the
/// count, the element type and the array.
pub open spec fn value_with_type_text(v: ValueView) -> Seq<char> {
    match v {
        ValueView::Array { elem_type, values } => if values.len() == 1 {
            type_label(elem_type) + " = "@ + value_text(values[0])
        } else {
            decimal(values.len()) + type_label(elem_type) + " = "@ + value_text(v)
        },
        _ => type_label(value_type(v)) + " = "@ + value_text(v),
    }
}

fn push_hex2(out: &mut Vec<char>, b: u8)
    ensures
        final(out)@ == old(out)@ + hex2(b),
{
    let hi = hex_chars((b / 16) as u128);
    let lo = hex_chars((b % 16) as u128);
    assert(hi@ == seq![hex_digit_char((b / 16) as nat)]);
    assert(lo@ == seq![hex_digit_char((b % 16) as nat)]);
    extend_chars(out, &hi);
    extend_chars(out, &lo);
    assert(final(out)@ =~= old(out)@ + hex2(b)) by {
        assert(hi@ + lo@ =~= hex2(b));
    }
}

/// The text of a value.
pub fn format_value(v: &Value) -> (r: Vec<char>)
    ensures
        r@ == value_text(v@),
    decreases v,
{
    match v {
        Value::I8(x) => signed_decimal_chars(*x as i128),
        Value::U8(x) => signed_decimal_chars(*x as i128),
        Value::I16(x) => signed_decimal_chars(*x as i128),
        Value::U16(x) => signed_decimal_chars(*x as i128),
        Value::I32(x) => signed_decimal_chars(*x as i128),
        Value::U32(x) => signed_decimal_chars(*x as i128),
        Value::I64(x) => signed_decimal_chars(*x as i128),
        Value::U64(x) => signed_decimal_chars(*x as i128),
        Value::Isize(x) => signed_decimal_chars(*x as i128),
        Value::Usize(x) => signed_decimal_chars(*x as i128),
        Value::F32(s) => crate::text::chars_of(s.as_str()),
        Value::F64(s) => crate::text::chars_of(s.as_str()),
        Value::Ptr(a) => {
            let mut out: Vec<char> = Vec::new();
            out.push('0');
            out.push('x');
            let h = hex_chars(*a as u128);
            extend_chars(&mut out, &h);
            assert(out@ =~= seq!['0', 'x'] + hex(*a as nat));
            out
        },
        Value::CStr(s) => crate::text::chars_of(s.as_str()),
        Value::Array { elem_type, values } => {
            proof {
                crate::types::lemma_array_view(*elem_type, *values);
            }
            let ghost vs = crate::types::values_view(values@);
            let ghost items = items_text(vs);
            proof {
                lemma_items_text(vs);
            }
            let n = values.len();
            let k: usize = if n > 10 {
                10
            } else {
                n
            };
            let mut parts: Vec<Vec<char>> = Vec::new();
            let mut i: usize = 0;
            while i < k
                invariant
                    i <= k <= n == values.len(),
                    k == shown(n as nat),
                    vs == crate::types::values_view(values@),
                    items == items_text(vs),
                    items.len() == n,
                    forall|j: int| 0 <= j < n ==> #[trigger] items[j] == item_text(vs[j]),
                    parts@.map_values(|p: Vec<char>| p@) == items.take(i as int),
                    forall|j: int| 0 <= j < n ==> decreases_to!(*v => values@[j]),
                decreases k - i,
            {
                let item: Vec<char> = match &values[i] {
                    Value::U8(b) => {
                        let mut t: Vec<char> = Vec::new();
                        t.push('0');
                        t.push('x');
                        push_hex2(&mut t, *b);
                        t
                    },
                    other => {
                        assert(decreases_to!(*v => values@[i as int]));
                        format_value(other)
                    },
                };
                let ghost before = parts@;
                let ghost iv = item@;
                assert(vs[i as int] == values@[i as int]@);
                assert(iv == items[i as int]);
                parts.push(item);
                assert(parts@.map_values(|p: Vec<char>| p@) =~= before.map_values(
                    |p: Vec<char>| p@,
                ).push(iv));
                assert(items.take(i + 1) =~= items.take(i as int).push(items[i as int]));
                i = i + 1;
            }
            let mut out: Vec<char> = Vec::new();
            out.push('[');
            crate::error::extend_joined(&mut out, &parts, ", ");
            if n > 10 {
                extend_str(&mut out, ", ... (");
                let d = decimal_chars((n - 10) as u128);
                extend_chars(&mut out, &d);
                extend_str(&mut out, " more)");
            }
            out.push(']');
            assert(out@ =~= seq!['['] + join(items.take(k as int), ", "@) + array_tail(vs.len())
                + seq![']']);
            assert(v@ == (ValueView::Array { elem_type: *elem_type, values: vs }));
            out
        },
        Value::Callback { .. } => crate::text::chars_of("<callback>"),
    }
}

/// The text of a value after its type (see [`value_with_type_text`]).
pub fn format_value_with_type(v: &Value) -> (r: Vec<char>)
    ensures
        r@ == value_with_type_text(v@),
{
    match v {
        Value::Array { elem_type, values } => {
            proof {
                crate::types::lemma_array_view(*elem_type, *values);
            }
            let ghost vs = crate::types::values_view(values@);
            let mut out: Vec<char> = Vec::new();
            if values.len() == 1 {
                let t = elem_type.to_string();
                extend_str(&mut out, t.as_str());
                extend_str(&mut out, " = ");
                let x = format_value(&values[0]);
                extend_chars(&mut out, &x);
                assert(vs[0] == values@[0]@);
            } else {
                let d = decimal_chars(values.len() as u128);
                extend_chars(&mut out, &d);
                let t = elem_type.to_string();
                extend_str(&mut out, t.as_str());
                extend_str(&mut out, " = ");
                let x = format_value(v);
                extend_chars(&mut out, &x);
            }
            out
        },
        _ => {
            let mut out: Vec<char> = Vec::new();
            let t = v.get_type().to_string();
            extend_str(&mut out, t.as_str());
            extend_str(&mut out, " = ");
            let x = format_value(v);
            extend_chars(&mut out, &x);
            out
        },
    }
}

/// The output arguments of a result with their values as views.
pub open spec fn outputs_view(outs: Seq<(usize, Value)>) -> Seq<(usize, ValueView)> {
    Seq::new(outs.len(), |i: int| (outs[i].0, outs[i].1@))
}

/// The line that shows output argument `idx`: `  [IDX] TYPE = VALUE`.
pub open spec fn output_line(idx: usize, v: ValueView) -> Seq<char> {
    "  ["@ + decimal(idx as nat) + "] "@ + value_with_type_text(v) + seq!['\n']
}

/// The lines of all output arguments, in order.
pub open spec fn output_lines(outs: Seq<(usize, ValueView)>) -> Seq<char>
    decreases outs.len(),
{
    if outs.len() == 0 {
        Seq::empty()
    } else {
        output_lines(outs.drop_last()) + output_line(outs.last().0, outs.last().1)
    }
}

/// The human-readable text of a call's result: the return value on a
/// line of its own, if there is one, then `Outputs:` and one line per
/// output argument, if there are any.
pub open spec fn human_text(ret: Option<ValueView>, outs: Seq<(usize, ValueView)>) -> Seq<char> {
    let head = match ret {
        Some(v) => value_text(v) + seq!['\n'],
        None => Seq::empty(),
    };
    if outs.len() == 0 {
        head
    } else {
        head + "Outputs:\n"@ + output_lines(outs)
    }
}

/// The return value of a result as a view.
pub open spec fn return_view(r: Option<Value>) -> Option<ValueView> {
    match r {
        Some(v) => Some(v@),
        None => None,
    }
}

/// The human-readable text of a call's result (see [`human_text`]).
pub fn format_result_human(result: &CallResult) -> (r: String)
    ensures
        r@ == human_text(return_view(result.return_value), outputs_view(result.output_values@)),
{
    let mut out: Vec<char> = Vec::new();
    match &result.return_value {
        Some(v) => {
            let x = format_value(v);
            extend_chars(&mut out, &x);
            out.push('\n');
        },
        None => {},
    }
    let ghost head = out@;
    let ghost outs = outputs_view(result.output_values@);
    let n = result.output_values.len();
    if n > 0 {
        extend_str(&mut out, "Outputs:\n");
        let mut i: usize = 0;
        while i < n
            invariant
                i <= n == result.output_values.len(),
                outs == outputs_view(result.output_values@),
                out@ == head + "Outputs:\n"@ + output_lines(outs.take(i as int)),
            decreases n - i,
        {
            let (idx, val) = &result.output_values[i];
            extend_str(&mut out, "  [");
            let d = decimal_chars(*idx as u128);
            extend_chars(&mut out, &d);
            extend_str(&mut out, "] ");
            let x = format_value_with_type(val);
            extend_chars(&mut out, &x);
            out.push('\n');
            assert(outs.take(i + 1).drop_last() =~= outs.take(i as int));
            assert(outs.take(i + 1).last() == outs[i as int]);
            i = i + 1;
        }
        assert(outs.take(n as int) =~= outs);
    }
    string_of(&out)
}

/// The line that describes argument `i` in a dry run.
pub open spec fn dry_run_line(i: nat, a: ArgumentView) -> Seq<char> {
    "  ["@ + decimal(i) + "] "@ + type_label(value_type(a.value)) + " (output: "@ + (if a.is_output {
        "true"@
    } else {
        "false"@
    }) + ")\n"@
}

/// The lines of the first arguments of a dry run.
pub open spec fn dry_run_lines(args: Seq<ArgumentView>) -> Seq<char>
    decreases args.len(),
{
    if args.len() == 0 {
        Seq::empty()
    } else {
        dry_run_lines(args.drop_last()) + dry_run_line((args.len() - 1) as nat, args.last())
    }
}

/// What a dry run shows: the library, the function, the return type and
/// each argument's type and whether it is an output.
pub open spec fn dry_run_text(library: Seq<char>, spec: CallSpecView) -> Seq<char> {
    "Library: "@ + library + "\nFunction: "@ + spec.function + "\nReturn type: "@ + type_label(
        spec.return_type,
    ) + "\nArguments:\n"@ + dry_run_lines(spec.args)
}

/// The report of a dry run (see [`dry_run_text`]).
pub fn dry_run_report(library: &str, spec: &CallSpec) -> (r: String)
    ensures
        r@ == dry_run_text(library@, spec@),
{
    let mut out: Vec<char> = Vec::new();
    extend_str(&mut out, "Library: ");
    extend_str(&mut out, library);
    extend_str(&mut out, "\nFunction: ");
    extend_str(&mut out, spec.function.as_str());
    extend_str(&mut out, "\nReturn type: ");
    let rt = spec.return_type.to_string();
    extend_str(&mut out, rt.as_str());
    extend_str(&mut out, "\nArguments:\n");
    let ghost head = out@;
    let ghost args = spec@.args;
    let n = spec.args.len();
    let mut i: usize = 0;
    while i < n
        invariant
            i <= n == spec.args.len() == args.len(),
            args == spec@.args,
            out@ == head + dry_run_lines(args.take(i as int)),
        decreases n - i,
    {
        let a = &spec.args[i];
        extend_str(&mut out, "  [");
        let d = decimal_chars(i as u128);
        extend_chars(&mut out, &d);
        extend_str(&mut out, "] ");
        let t = a.value.get_type().to_string();
        extend_str(&mut out, t.as_str());
        extend_str(&mut out, " (output: ");
        if a.is_output {
            extend_str(&mut out, "true");
        } else {
            extend_str(&mut out, "false");
        }
        extend_str(&mut out, ")\n");
        assert(args[i as int] == a@);
        assert(args.take(i + 1).drop_last() =~= args.take(i as int));
        assert(args.take(i + 1).last() == args[i as int]);
        i = i + 1;
    }
    assert(args.take(n as int) =~= args);
    string_of(&out)
}

/// An integer value prints as text that reads back, as a value of its
/// type, as the same value.
pub proof fn law_integer_text_round_trip(v: ValueView)
    requires
        is_int_type(value_type(v)),
    ensures
        parse_value_spec(value_text(v), value_type(v)) == Ok::<ValueView, ErrorView>(v),
{
    let t = value_type(v);
    let x: int = match v {
        ValueView::I8(a) => a as int,
        ValueView::U8(a) => a as int,
        ValueView::I16(a) => a as int,
        ValueView::U16(a) => a as int,
        ValueView::I32(a) => a as int,
        ValueView::U32(a) => a as int,
        ValueView::I64(a) => a as int,
        ValueView::U64(a) => a as int,
        ValueView::Isize(a) => a as int,
        ValueView::Usize(a) => a as int,
        _ => 0,
    };
    let s = value_text(v);
    assert(s == signed_decimal(x));
    let (lo, hi) = int_bounds(t);
    assert(lo <= x <= hi);
    lemma_parse_signed_decimal(x, is_signed_type(t), lo, hi);
    // The text is a `-` or a digit first and a digit last, so trimming
    // keeps it, and it is neither `true` nor `false`.
    if x < 0 {
        lemma_decimal_digits((-x) as nat);
        assert(s.last() == decimal((-x) as nat).last());
    } else {
        lemma_decimal_digits(x as nat);
    }
    lemma_trim_unchanged(s);
    reveal_strlit("true");
    reveal_strlit("false");
    assert(s != "true"@ && s != "false"@) by {
        assert(s[0] != "true"@[0]);
        assert(s[0] != "false"@[0]);
    }
}

/// A lower-case hexadecimal digit.
pub open spec fn is_lower_hex_digit(c: char) -> bool {
    ('0' <= c && c <= '9') || ('a' <= c && c <= 'f')
}

proof fn lemma_hex_digit_char(d: nat)
    requires
        d < 16,
    ensures
        digit_value(hex_digit_char(d), 16) == Some(d),
        is_lower_hex_digit(hex_digit_char(d)),
{
}

/// A byte in an array prints as `0x` and exactly two lower-case
/// hexadecimal digits that read back, in base 16, as the byte.
pub proof fn law_byte_item_reads_back(b: u8)
    ensures
        item_text(ValueView::U8(b)).len() == 4,
        item_text(ValueView::U8(b)).take(2) == seq!['0', 'x'],
        is_lower_hex_digit(item_text(ValueView::U8(b))[2]),
        is_lower_hex_digit(item_text(ValueView::U8(b))[3]),
        parse_int_spec(item_text(ValueView::U8(b)).skip(2), 16, false, 0, 255) == Ok::<
            int,
            IntErrorKind,
        >(b as int),
{
    let t = item_text(ValueView::U8(b));
    let hi = (b / 16) as nat;
    let lo = (b % 16) as nat;
    lemma_hex_digit_char(hi);
    lemma_hex_digit_char(lo);
    assert(t =~= seq!['0', 'x', hex_digit_char(hi), hex_digit_char(lo)]);
    let d = t.skip(2);
    assert(d =~= seq![hex_digit_char(hi), hex_digit_char(lo)]);
    assert(d.drop_first() =~= seq![hex_digit_char(lo)]);
    assert(seq![hex_digit_char(lo)].drop_first() =~= Seq::<char>::empty());
    assert(hi * 16 + lo == b);
    assert(scan_digits(Seq::<char>::empty(), 16, false, b as int, 0, 255) == Ok::<int, IntErrorKind>(
        b as int,
    ));
    assert(scan_digits(seq![hex_digit_char(lo)], 16, false, hi as int, 0, 255) == Ok::<
        int,
        IntErrorKind,
    >(b as int));
    assert(scan_digits(d, 16, false, 0, 0, 255) == Ok::<int, IntErrorKind>(b as int));
}

} // verus!
