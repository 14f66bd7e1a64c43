//! C types that calls can pass and return, and the values of those types.
use vstd::prelude::*;

use crate::error::{CallError, ErrorView};
use crate::number::{
    all_ascii_digits, is_ascii_digit, law_decimal_floats, lemma_int_text_has_no_point,
    lemma_parse_int_narrow, parse_float, parse_float_spec, parse_int, parse_int_spec,
};
use crate::text::{
    ascii_lower, chars_eq_str, chars_of, ends_with_str, has_prefix, has_suffix, lower, lower_chars,
    prefix_at,
    slice_chars, split_chars, split_on, string_from, string_of, trim, trim_chars, trimmed,
    lemma_trim_idempotent, lemma_trim_unchanged,
};

verus! {

/// A C type a call can take or return.
#[derive(Clone, Copy, Debug, PartialEq, Eq, Structural)]
pub enum Type {
    I8,
    U8,
    I16,
    U16,
    I32,
    U32,
    I64,
    U64,
    Isize,
    Usize,
    F32,
    F64,
    Ptr,
    CStr,
    Void,
    Callback,
}

/// The canonical (lower-case) name of a type.
pub open spec fn type_label(t: Type) -> Seq<char> {
    match t {
        Type::I8 => "i8"@,
        Type::U8 => "u8"@,
        Type::I16 => "i16"@,
        Type::U16 => "u16"@,
        Type::I32 => "i32"@,
        Type::U32 => "u32"@,
        Type::I64 => "i64"@,
        Type::U64 => "u64"@,
        Type::Isize => "isize"@,
        Type::Usize => "usize"@,
        Type::F32 => "f32"@,
        Type::F64 => "f64"@,
        Type::Ptr => "ptr"@,
        Type::CStr => "cstr"@,
        Type::Void => "void"@,
        Type::Callback => "callback"@,
    }
}

/// The size in bytes of one value of the type; pointer-sized types take
/// the size of `usize`, and `void` takes none.
pub open spec fn type_size(t: Type) -> nat {
    match t {
        Type::I8 | Type::U8 => 1,
        Type::I16 | Type::U16 => 2,
        Type::I32 | Type::U32 | Type::F32 => 4,
        Type::I64 | Type::U64 | Type::F64 => 8,
        Type::Isize | Type::Usize | Type::Ptr | Type::CStr | Type::Callback => vstd::layout::size_of::<
            usize,
        >(),
        Type::Void => 0,
    }
}

/// The type a (lower-cased) type name or alias stands for.
pub open spec fn type_for_name(n: Seq<char>) -> Option<Type> {
    if n == "i8"@ || n == "char"@ || n == "int8"@ || n == "int8_t"@ {
        Some(Type::I8)
    } else if n == "u8"@ || n == "uchar"@ || n == "uint8"@ || n == "uint8_t"@ || n == "byte"@ {
        Some(Type::U8)
    } else if n == "i16"@ || n == "short"@ || n == "int16"@ || n == "int16_t"@ {
        Some(Type::I16)
    } else if n == "u16"@ || n == "ushort"@ || n == "uint16"@ || n == "uint16_t"@ {
        Some(Type::U16)
    } else if n == "i32"@ || n == "int"@ || n == "int32"@ || n == "int32_t"@ {
        Some(Type::I32)
    } else if n == "u32"@ || n == "uint"@ || n == "uint32"@ || n == "uint32_t"@ {
        Some(Type::U32)
    } else if n == "i64"@ || n == "long_long"@ || n == "int64"@ || n == "int64_t"@ {
        Some(Type::I64)
    } else if n == "u64"@ || n == "ulong_long"@ || n == "uint64"@ || n == "uint64_t"@ {
        Some(Type::U64)
    } else if n == "isize"@ || n == "ssize"@ || n == "ssize_t"@ || n == "long"@ {
        Some(Type::Isize)
    } else if n == "usize"@ || n == "size"@ || n == "size_t"@ || n == "ulong"@ {
        Some(Type::Usize)
    } else if n == "f32"@ || n == "float"@ {
        Some(Type::F32)
    } else if n == "f64"@ || n == "double"@ {
        Some(Type::F64)
    } else if n == "ptr"@ || n == "pointer"@ || n == "voidp"@ || n == "void*"@ {
        Some(Type::Ptr)
    } else if n == "cstr"@ || n == "string"@ || n == "str"@ || n == "char*"@ {
        Some(Type::CStr)
    } else if n == "void"@ {
        Some(Type::Void)
    } else if n == "callback"@ || n == "func"@ || n == "function"@ {
        Some(Type::Callback)
    } else {
        None
    }
}

impl Type {
    /// The canonical name of the type, as it is printed.
    pub fn to_string(&self) -> (r: String)
        ensures
            r@ == type_label(*self),
    {
        match self {
            Type::I8 => string_from("i8"),
            Type::U8 => string_from("u8"),
            Type::I16 => string_from("i16"),
            Type::U16 => string_from("u16"),
            Type::I32 => string_from("i32"),
            Type::U32 => string_from("u32"),
            Type::I64 => string_from("i64"),
            Type::U64 => string_from("u64"),
            Type::Isize => string_from("isize"),
            Type::Usize => string_from("usize"),
            Type::F32 => string_from("f32"),
            Type::F64 => string_from("f64"),
            Type::Ptr => string_from("ptr"),
            Type::CStr => string_from("cstr"),
            Type::Void => string_from("void"),
            Type::Callback => string_from("callback"),
        }
    }

    /// Size in bytes of one value of the type.
    pub fn size(&self) -> (r: usize)
        ensures
            r as nat == type_size(*self),
    {
        match self {
            Type::I8 | Type::U8 => 1,
            Type::I16 | Type::U16 => 2,
            Type::I32 | Type::U32 | Type::F32 => 4,
            Type::I64 | Type::U64 | Type::F64 => 8,
            Type::Isize | Type::Usize | Type::Ptr | Type::CStr | Type::Callback => {
                core::mem::size_of::<usize>()
            },
            Type::Void => 0,
        }
    }
}

/// A character of a type name as it is compared: in lower case. The
/// Kelvin sign is the one character outside ASCII whose lower-case form is
/// an ASCII letter (`k`); any other character either lowers within ASCII
/// or lowers to text outside ASCII, which matches no type name.
pub open spec fn name_char(c: char) -> char {
    if c == '\u{212A}' {
        'k'
    } else {
        ascii_lower(c)
    }
}

/// A type name as it is compared (see [`name_char`]).
pub open spec fn name_key(s: Seq<char>) -> Seq<char> {
    s.map_values(|c: char| name_char(c))
}

fn name_key_chars(v: &Vec<char>) -> (r: Vec<char>)
    ensures
        r@ == name_key(v@),
{
    let low = lower_chars(v);
    let mut r: Vec<char> = Vec::new();
    let mut i: usize = 0;
    while i < low.len()
        invariant
            i <= low.len() == v.len(),
            low@ == lower(v@),
            r@ == name_key(v@.take(i as int)),
        decreases low.len() - i,
    {
        let c = if v[i] == '\u{212A}' {
            'k'
        } else {
            low[i]
        };
        r.push(c);
        assert(name_key(v@.take(i + 1)) =~= name_key(v@.take(i as int)).push(name_char(v@[i as int])));
        i = i + 1;
    }
    assert(v@.take(v.len() as int) =~= v@);
    r
}

/// Looks up a type by name or alias, ignoring case.
pub fn parse_type_name(name: &str) -> (r: Result<Type, CallError>)
    ensures
        r matches Ok(t) ==> type_for_name(name_key(name@)) == Some(t),
        r matches Err(e) ==> e@ == ErrorView::UnknownType(name@),
        r is Ok <==> type_for_name(name_key(name@)) is Some,
{
    let n = name_key_chars(&chars_of(name));
    if chars_eq_str(&n, "i8") || chars_eq_str(&n, "char") || chars_eq_str(&n, "int8")
        || chars_eq_str(&n, "int8_t") {
        Ok(Type::I8)
    } else if chars_eq_str(&n, "u8") || chars_eq_str(&n, "uchar") || chars_eq_str(&n, "uint8")
        || chars_eq_str(&n, "uint8_t") || chars_eq_str(&n, "byte") {
        Ok(Type::U8)
    } else if chars_eq_str(&n, "i16") || chars_eq_str(&n, "short") || chars_eq_str(&n, "int16")
        || chars_eq_str(&n, "int16_t") {
        Ok(Type::I16)
    } else if chars_eq_str(&n, "u16") || chars_eq_str(&n, "ushort") || chars_eq_str(&n, "uint16")
        || chars_eq_str(&n, "uint16_t") {
        Ok(Type::U16)
    } else if chars_eq_str(&n, "i32") || chars_eq_str(&n, "int") || chars_eq_str(&n, "int32")
        || chars_eq_str(&n, "int32_t") {
        Ok(Type::I32)
    } else if chars_eq_str(&n, "u32") || chars_eq_str(&n, "uint") || chars_eq_str(&n, "uint32")
        || chars_eq_str(&n, "uint32_t") {
        Ok(Type::U32)
    } else if chars_eq_str(&n, "i64") || chars_eq_str(&n, "long_long") || chars_eq_str(
        &n,
        "int64",
    ) || chars_eq_str(&n, "int64_t") {
        Ok(Type::I64)
    } else if chars_eq_str(&n, "u64") || chars_eq_str(&n, "ulong_long") || chars_eq_str(
        &n,
        "uint64",
    ) || chars_eq_str(&n, "uint64_t") {
        Ok(Type::U64)
    } else if chars_eq_str(&n, "isize") || chars_eq_str(&n, "ssize") || chars_eq_str(
        &n,
        "ssize_t",
    ) || chars_eq_str(&n, "long") {
        Ok(Type::Isize)
    } else if chars_eq_str(&n, "usize") || chars_eq_str(&n, "size") || chars_eq_str(&n, "size_t")
        || chars_eq_str(&n, "ulong") {
        Ok(Type::Usize)
    } else if chars_eq_str(&n, "f32") || chars_eq_str(&n, "float") {
        Ok(Type::F32)
    } else if chars_eq_str(&n, "f64") || chars_eq_str(&n, "double") {
        Ok(Type::F64)
    } else if chars_eq_str(&n, "ptr") || chars_eq_str(&n, "pointer") || chars_eq_str(&n, "voidp")
        || chars_eq_str(&n, "void*") {
        Ok(Type::Ptr)
    } else if chars_eq_str(&n, "cstr") || chars_eq_str(&n, "string") || chars_eq_str(&n, "str")
        || chars_eq_str(&n, "char*") {
        Ok(Type::CStr)
    } else if chars_eq_str(&n, "void") {
        Ok(Type::Void)
    } else if chars_eq_str(&n, "callback") || chars_eq_str(&n, "func") || chars_eq_str(
        &n,
        "function",
    ) {
        Ok(Type::Callback)
    } else {
        Err(CallError::UnknownType(string_from(name)))
    }
}

/// A value passed to or returned from a C function. Floating-point values
/// are held as the text of their literal; pointers as their address.
#[derive(Debug)]
pub enum Value {
    I8(i8),
    U8(u8),
    I16(i16),
    U16(u16),
    I32(i32),
    U32(u32),
    I64(i64),
    U64(u64),
    Isize(isize),
    Usize(usize),
    F32(String),
    F64(String),
    Ptr(usize),
    CStr(String),
    Array { elem_type: Type, values: Vec<Value> },
    Callback { signature: String, body: String },
}

/// [`Value`] with its strings and element vectors as sequences.
pub enum ValueView {
    I8(i8),
    U8(u8),
    I16(i16),
    U16(u16),
    I32(i32),
    U32(u32),
    I64(i64),
    U64(u64),
    Isize(isize),
    Usize(usize),
    F32(Seq<char>),
    F64(Seq<char>),
    Ptr(usize),
    CStr(Seq<char>),
    Array { elem_type: Type, values: Seq<ValueView> },
    Callback { signature: Seq<char>, body: Seq<char> },
}

/// The view of a value.
pub open spec fn value_view(v: Value) -> ValueView
    decreases v,
{
    match v {
        Value::I8(x) => ValueView::I8(x),
        Value::U8(x) => ValueView::U8(x),
        Value::I16(x) => ValueView::I16(x),
        Value::U16(x) => ValueView::U16(x),
        Value::I32(x) => ValueView::I32(x),
        Value::U32(x) => ValueView::U32(x),
        Value::I64(x) => ValueView::I64(x),
        Value::U64(x) => ValueView::U64(x),
        Value::Isize(x) => ValueView::Isize(x),
        Value::Usize(x) => ValueView::Usize(x),
        Value::F32(x) => ValueView::F32(x@),
        Value::F64(x) => ValueView::F64(x@),
        Value::Ptr(x) => ValueView::Ptr(x),
        Value::CStr(x) => ValueView::CStr(x@),
        Value::Array { elem_type, values } => ValueView::Array {
            elem_type,
            values: Seq::new(
                values@.len(),
                |i: int|
                    if 0 <= i < values@.len() {
                        value_view(values@[i])
                    } else {
                        ValueView::I8(0)
                    },
            ),
        },
        Value::Callback { signature, body } => ValueView::Callback {
            signature: signature@,
            body: body@,
        },
    }
}

impl View for Value {
    type V = ValueView;

    open spec fn view(&self) -> ValueView {
        value_view(*self)
    }
}

/// A copy of a value, element by element.
pub fn copy_value(v: &Value) -> (r: Value)
    ensures
        r@ == v@,
    decreases v,
{
    match v {
        Value::I8(x) => Value::I8(*x),
        Value::U8(x) => Value::U8(*x),
        Value::I16(x) => Value::I16(*x),
        Value::U16(x) => Value::U16(*x),
        Value::I32(x) => Value::I32(*x),
        Value::U32(x) => Value::U32(*x),
        Value::I64(x) => Value::I64(*x),
        Value::U64(x) => Value::U64(*x),
        Value::Isize(x) => Value::Isize(*x),
        Value::Usize(x) => Value::Usize(*x),
        Value::F32(s) => Value::F32(s.clone()),
        Value::F64(s) => Value::F64(s.clone()),
        Value::Ptr(a) => Value::Ptr(*a),
        Value::CStr(s) => Value::CStr(s.clone()),
        Value::Array { elem_type, values } => {
            let mut out: Vec<Value> = Vec::new();
            let mut i: usize = 0;
            while i < values.len()
                invariant
                    i <= values.len(),
                    out@.len() == i,
                    forall|j: int| 0 <= j < i ==> #[trigger] value_view(out@[j]) == value_view(values@[j]),
                    forall|j: int| 0 <= j < values@.len() ==> decreases_to!(*v => values@[j]),
                decreases values.len() - i,
            {
                assert(decreases_to!(*v => values@[i as int]));
                let c = copy_value(&values[i]);
                out.push(c);
                i = i + 1;
            }
            proof {
                lemma_array_view(*elem_type, *values);
                lemma_array_view(*elem_type, out);
                assert(values_view(out@) =~= values_view(values@));
            }
            Value::Array { elem_type: *elem_type, values: out }
        },
        Value::Callback { signature, body } => Value::Callback {
            signature: signature.clone(),
            body: body.clone(),
        },
    }
}

impl Clone for Value {
    fn clone(&self) -> (r: Self)
        ensures
            r@ == self@,
    {
        copy_value(self)
    }
}

/// The views of a vector of values.
pub open spec fn values_view(vs: Seq<Value>) -> Seq<ValueView> {
    Seq::new(vs.len(), |i: int| value_view(vs[i]))
}

/// The view of an array value lists the views of its elements.
pub proof fn lemma_array_view(t: Type, vs: Vec<Value>)
    ensures
        value_view(Value::Array { elem_type: t, values: vs }) == (ValueView::Array {
            elem_type: t,
            values: values_view(vs@),
        }),
{
    let a = value_view(Value::Array { elem_type: t, values: vs });
    assert(a->values =~= values_view(vs@));
}

/// The type a value is passed as: arrays travel as pointers.
pub open spec fn value_type(v: ValueView) -> Type {
    match v {
        ValueView::I8(_) => Type::I8,
        ValueView::U8(_) => Type::U8,
        ValueView::I16(_) => Type::I16,
        ValueView::U16(_) => Type::U16,
        ValueView::I32(_) => Type::I32,
        ValueView::U32(_) => Type::U32,
        ValueView::I64(_) => Type::I64,
        ValueView::U64(_) => Type::U64,
        ValueView::Isize(_) => Type::Isize,
        ValueView::Usize(_) => Type::Usize,
        ValueView::F32(_) => Type::F32,
        ValueView::F64(_) => Type::F64,
        ValueView::Ptr(_) => Type::Ptr,
        ValueView::CStr(_) => Type::CStr,
        ValueView::Array { .. } => Type::Ptr,
        ValueView::Callback { .. } => Type::Callback,
    }
}

/// The zero value of a type that has one.
pub open spec fn default_value(t: Type) -> ValueView
    recommends
        t != Type::Void && t != Type::Callback,
{
    match t {
        Type::I8 => ValueView::I8(0),
        Type::U8 => ValueView::U8(0),
        Type::I16 => ValueView::I16(0),
        Type::U16 => ValueView::U16(0),
        Type::I32 => ValueView::I32(0),
        Type::U32 => ValueView::U32(0),
        Type::I64 => ValueView::I64(0),
        Type::U64 => ValueView::U64(0),
        Type::Isize => ValueView::Isize(0),
        Type::Usize => ValueView::Usize(0),
        Type::F32 => ValueView::F32("0"@),
        Type::F64 => ValueView::F64("0"@),
        Type::Ptr => ValueView::Ptr(0),
        Type::CStr => ValueView::CStr(Seq::empty()),
        _ => ValueView::I8(0),
    }
}

impl Value {
    /// The type the value is passed as.
    pub fn get_type(&self) -> (r: Type)
        ensures
            r == value_type(self@),
    {
        match self {
            Value::I8(_) => Type::I8,
            Value::U8(_) => Type::U8,
            Value::I16(_) => Type::I16,
            Value::U16(_) => Type::U16,
            Value::I32(_) => Type::I32,
            Value::U32(_) => Type::U32,
            Value::I64(_) => Type::I64,
            Value::U64(_) => Type::U64,
            Value::Isize(_) => Type::Isize,
            Value::Usize(_) => Type::Usize,
            Value::F32(_) => Type::F32,
            Value::F64(_) => Type::F64,
            Value::Ptr(_) => Type::Ptr,
            Value::CStr(_) => Type::CStr,
            Value::Array { .. } => Type::Ptr,
            Value::Callback { .. } => Type::Callback,
        }
    }

    /// The zero value of a type; `void` and `callback` have none.
    pub fn default_for_type(ty: Type) -> (r: Value)
        requires
            ty != Type::Void,
            ty != Type::Callback,
        ensures
            r@ == default_value(ty),
    {
        match ty {
            Type::I8 => Value::I8(0),
            Type::U8 => Value::U8(0),
            Type::I16 => Value::I16(0),
            Type::U16 => Value::U16(0),
            Type::I32 => Value::I32(0),
            Type::U32 => Value::U32(0),
            Type::I64 => Value::I64(0),
            Type::U64 => Value::U64(0),
            Type::Isize => Value::Isize(0),
            Type::Usize => Value::Usize(0),
            Type::F32 => Value::F32(string_from("0")),
            Type::F64 => Value::F64(string_from("0")),
            Type::Ptr => Value::Ptr(0),
            _ => Value::CStr(String::new()),
        }
    }
}

/// The range of an integer type.
pub open spec fn int_bounds(t: Type) -> (int, int) {
    match t {
        Type::I8 => (-0x80, 0x7f),
        Type::U8 => (0, 0xff),
        Type::I16 => (-0x8000, 0x7fff),
        Type::U16 => (0, 0xffff),
        Type::I32 => (-0x8000_0000, 0x7fff_ffff),
        Type::U32 => (0, 0xffff_ffff),
        Type::I64 => (-0x8000_0000_0000_0000, 0x7fff_ffff_ffff_ffff),
        Type::U64 => (0, 0xffff_ffff_ffff_ffff),
        Type::Isize => (isize::MIN as int, isize::MAX as int),
        _ => (0, usize::MAX as int),
    }
}

/// Whether a type is one of the integer types.
pub open spec fn is_int_type(t: Type) -> bool {
    match t {
        Type::I8 | Type::U8 | Type::I16 | Type::U16 | Type::I32 | Type::U32 | Type::I64
        | Type::U64 | Type::Isize | Type::Usize => true,
        _ => false,
    }
}

/// Whether a type is a signed integer type.
pub open spec fn is_signed_type(t: Type) -> bool {
    t == Type::I8 || t == Type::I16 || t == Type::I32 || t == Type::I64 || t == Type::Isize
}

/// The integer value `n` as a value of integer type `t`.
pub open spec fn int_value(t: Type, n: int) -> ValueView {
    match t {
        Type::I8 => ValueView::I8(n as i8),
        Type::U8 => ValueView::U8(n as u8),
        Type::I16 => ValueView::I16(n as i16),
        Type::U16 => ValueView::U16(n as u16),
        Type::I32 => ValueView::I32(n as i32),
        Type::U32 => ValueView::U32(n as u32),
        Type::I64 => ValueView::I64(n as i64),
        Type::U64 => ValueView::U64(n as u64),
        Type::Isize => ValueView::Isize(n as isize),
        _ => ValueView::Usize(n as usize),
    }
}

/// Parsing a decimal integer of type `t` (`str::parse`).
pub open spec fn parse_decimal_spec(t: Type, v: Seq<char>) -> Result<ValueView, ErrorView> {
    match parse_int_spec(v, 10, is_signed_type(t), int_bounds(t).0, int_bounds(t).1) {
        Ok(n) => Ok(int_value(t, n)),
        Err(k) => Err(ErrorView::ParseInt(k)),
    }
}

/// Parsing an address: `null`, `0x` and hexadecimal digits, or decimal.
pub open spec fn parse_address_spec(v: Seq<char>) -> Result<ValueView, ErrorView> {
    if v == "null"@ {
        Ok(ValueView::Ptr(0))
    } else {
        let r = if has_prefix(v, "0x"@) {
            parse_int_spec(v.skip(2), 16, false, 0, usize::MAX as int)
        } else {
            parse_int_spec(v, 10, false, 0, usize::MAX as int)
        };
        match r {
            Ok(n) => Ok(ValueView::Ptr(n as usize)),
            Err(k) => Err(ErrorView::ParseInt(k)),
        }
    }
}

/// A string value: the text, without one pair of surrounding double quotes.
pub open spec fn cstr_text(v: Seq<char>) -> Seq<char> {
    if has_prefix(v, seq!['"']) && has_suffix(v, seq!['"']) {
        v.subrange(1, v.len() - 1)
    } else {
        v
    }
}

/// Parsing a string value panics when the trimmed text is a lone `"`
/// (it both starts and ends with a quote, and the slice between is empty).
pub open spec fn cstr_panics(s: Seq<char>) -> bool {
    trim(s) == seq!['"']
}

/// The value of type `ty` that the text `s` stands for.
pub open spec fn parse_value_spec(s: Seq<char>, ty: Type) -> Result<ValueView, ErrorView> {
    let v = trim(s);
    match ty {
        Type::I32 => if v == "true"@ {
            Ok(ValueView::I32(1))
        } else if v == "false"@ {
            Ok(ValueView::I32(0))
        } else {
            parse_decimal_spec(ty, v)
        },
        Type::F32 => match parse_float_spec(v) {
            Ok(_) => Ok(ValueView::F32(v)),
            Err(k) => Err(ErrorView::ParseFloat(k)),
        },
        Type::F64 => match parse_float_spec(v) {
            Ok(_) => Ok(ValueView::F64(v)),
            Err(k) => Err(ErrorView::ParseFloat(k)),
        },
        Type::Ptr => parse_address_spec(v),
        Type::CStr => Ok(ValueView::CStr(cstr_text(v))),
        Type::Void => Err(ErrorView::VoidValue),
        Type::Callback => Err(ErrorView::CallbackValue),
        _ => parse_decimal_spec(ty, v),
    }
}

/// The type inferred for an untyped value.
pub open spec fn infer_type_spec(s: Seq<char>) -> Type {
    let v = trim(s);
    if v == "null"@ {
        Type::Ptr
    } else if v == "true"@ || v == "false"@ {
        Type::I32
    } else if parse_int_spec(v, 10, true, int_bounds(Type::I64).0, int_bounds(Type::I64).1) is Ok {
        let n = parse_int_spec(v, 10, true, int_bounds(Type::I64).0, int_bounds(Type::I64).1)->Ok_0;
        if int_bounds(Type::I32).0 <= n <= int_bounds(Type::I32).1 {
            Type::I32
        } else {
            Type::I64
        }
    } else if parse_int_spec(v, 10, false, 0, int_bounds(Type::U64).1) is Ok {
        Type::U64
    } else if parse_float_spec(v) is Ok {
        Type::F64
    } else {
        Type::CStr
    }
}

/// The view of a parse result.
pub open spec fn result_view(r: Result<Value, CallError>) -> Result<ValueView, ErrorView> {
    match r {
        Ok(v) => Ok(v@),
        Err(e) => Err(e@),
    }
}

fn bounds_of(t: Type) -> (r: (i128, i128))
    requires
        is_int_type(t),
    ensures
        r.0 as int == int_bounds(t).0,
        r.1 as int == int_bounds(t).1,
        -0x1_0000_0000_0000_0000 <= r.0 <= 0 <= r.1 <= 0x1_0000_0000_0000_0000,
{
    match t {
        Type::I8 => (-0x80, 0x7f),
        Type::U8 => (0, 0xff),
        Type::I16 => (-0x8000, 0x7fff),
        Type::U16 => (0, 0xffff),
        Type::I32 => (-0x8000_0000, 0x7fff_ffff),
        Type::U32 => (0, 0xffff_ffff),
        Type::I64 => (-0x8000_0000_0000_0000, 0x7fff_ffff_ffff_ffff),
        Type::U64 => (0, 0xffff_ffff_ffff_ffff),
        Type::Isize => (isize::MIN as i128, isize::MAX as i128),
        _ => (0, usize::MAX as i128),
    }
}

fn make_int(t: Type, n: i128) -> (r: Value)
    requires
        is_int_type(t),
        int_bounds(t).0 <= n <= int_bounds(t).1,
    ensures
        r@ == int_value(t, n as int),
{
    match t {
        Type::I8 => Value::I8(n as i8),
        Type::U8 => Value::U8(n as u8),
        Type::I16 => Value::I16(n as i16),
        Type::U16 => Value::U16(n as u16),
        Type::I32 => Value::I32(n as i32),
        Type::U32 => Value::U32(n as u32),
        Type::I64 => Value::I64(n as i64),
        Type::U64 => Value::U64(n as u64),
        Type::Isize => Value::Isize(n as isize),
        _ => Value::Usize(n as usize),
    }
}

fn parse_decimal(t: Type, v: &Vec<char>) -> (r: Result<Value, CallError>)
    requires
        is_int_type(t),
    ensures
        result_view(r) == parse_decimal_spec(t, v@),
{
    let (lo, hi) = bounds_of(t);
    let signed = matches!(t, Type::I8 | Type::I16 | Type::I32 | Type::I64 | Type::Isize);
    match parse_int(v, 10, signed, lo, hi) {
        Ok(n) => Ok(make_int(t, n)),
        Err(k) => Err(CallError::ParseInt(k)),
    }
}

fn parse_address(v: &Vec<char>) -> (r: Result<Value, CallError>)
    ensures
        result_view(r) == parse_address_spec(v@),
{
    if chars_eq_str(v, "null") {
        return Ok(Value::Ptr(0));
    }
    let r = if prefix_at(v, 0, "0x") {
        proof {
            reveal_strlit("0x");
        }
        assert(v@.skip(0) == v@);
        let digits = slice_chars(v, 2, v.len());
        assert(digits@ == v@.skip(2));
        parse_int(&digits, 16, false, 0, usize::MAX as i128)
    } else {
        assert(v@.skip(0) == v@);
        parse_int(v, 10, false, 0, usize::MAX as i128)
    };
    match r {
        Ok(n) => Ok(Value::Ptr(n as usize)),
        Err(k) => Err(CallError::ParseInt(k)),
    }
}

/// Infers the type of an untyped value: `null` is a pointer, `true` and
/// `false` and the integers that fit are `i32`, larger integers `i64` and
/// then `u64`, other numbers `f64`, and anything else a string.
pub fn infer_type(value: &str) -> (r: Result<Type, CallError>)
    ensures
        r == Ok::<Type, CallError>(infer_type_spec(value@)),
{
    let v = trimmed(value);
    if chars_eq_str(&v, "null") {
        return Ok(Type::Ptr);
    }
    if chars_eq_str(&v, "true") || chars_eq_str(&v, "false") {
        return Ok(Type::I32);
    }
    if let Ok(n) = parse_int(&v, 10, true, -0x8000_0000_0000_0000, 0x7fff_ffff_ffff_ffff) {
        if -0x8000_0000 <= n && n <= 0x7fff_ffff {
            return Ok(Type::I32);
        }
        return Ok(Type::I64);
    }
    if parse_int(&v, 10, false, 0, 0xffff_ffff_ffff_ffff).is_ok() {
        return Ok(Type::U64);
    }
    if parse_float(&v).is_ok() {
        return Ok(Type::F64);
    }
    Ok(Type::CStr)
}

/// An untyped value always parses as the type inferred for it, and the
/// value it gives has that type (a lone `"`, on which the tool panics, is
/// left out).
pub proof fn law_inferred_type_parses(s: Seq<char>)
    requires
        !(infer_type_spec(s) == Type::CStr && cstr_panics(s)),
    ensures
        parse_value_spec(s, infer_type_spec(s)) is Ok,
        value_type(parse_value_spec(s, infer_type_spec(s))->Ok_0) == infer_type_spec(s),
{
    let v = trim(s);
    let t = infer_type_spec(s);
    let (lo64, hi64) = int_bounds(Type::I64);
    if v != "null"@ && v != "true"@ && v != "false"@ {
        if parse_int_spec(v, 10, true, lo64, hi64) is Ok {
            let n = parse_int_spec(v, 10, true, lo64, hi64)->Ok_0;
            if int_bounds(Type::I32).0 <= n <= int_bounds(Type::I32).1 {
                lemma_parse_int_narrow(
                    v,
                    true,
                    lo64,
                    hi64,
                    int_bounds(Type::I32).0,
                    int_bounds(Type::I32).1,
                    n,
                );
            }
        }
    }
}

/// A floating-point literal with a fractional part is inferred as `f64`
/// and read, as `f64` or `f32`, as the same literal.
pub proof fn law_fraction_is_float(s: Seq<char>)
    requires
        parse_float_spec(trim(s)) is Ok,
        trim(s).contains('.'),
    ensures
        infer_type_spec(s) == Type::F64,
        parse_value_spec(s, Type::F64) == Ok::<ValueView, ErrorView>(ValueView::F64(trim(s))),
        parse_value_spec(s, Type::F32) == Ok::<ValueView, ErrorView>(ValueView::F32(trim(s))),
{
    let v = trim(s);
    reveal_strlit("null");
    reveal_strlit("true");
    reveal_strlit("false");
    let i = choose|i: int| 0 <= i < v.len() && v[i] == '.';
    assert(v != "null"@ && v != "true"@ && v != "false"@) by {
        if v == "null"@ || v == "true"@ || v == "false"@ {
            assert(v[i] == '.');
        }
    }
    let (lo, hi) = int_bounds(Type::I64);
    if parse_int_spec(v, 10, true, lo, hi) is Ok {
        lemma_int_text_has_no_point(v, true, lo, hi);
    }
    if parse_int_spec(v, 10, false, 0, int_bounds(Type::U64).1) is Ok {
        lemma_int_text_has_no_point(v, false, 0, int_bounds(Type::U64).1);
    }
}

/// Decimal numbers with a fractional part, signed or not (such as
/// `-2.5`), are inferred as `f64` and read as themselves.
pub proof fn law_decimal_fraction_is_f64(a: Seq<char>, b: Seq<char>, negative: bool)
    requires
        a.len() > 0,
        b.len() > 0,
        all_ascii_digits(a),
        all_ascii_digits(b),
    ensures
        ({
            let s = if negative {
                seq!['-'] + (a + seq!['.'] + b)
            } else {
                a + seq!['.'] + b
            };
            &&& infer_type_spec(s) == Type::F64
            &&& parse_value_spec(s, Type::F64) == Ok::<ValueView, ErrorView>(ValueView::F64(s))
        }),
{
    let m = a + seq!['.'] + b;
    let s = if negative {
        seq!['-'] + m
    } else {
        m
    };
    law_decimal_floats(a, b);
    assert(is_ascii_digit(a[0]));
    assert(is_ascii_digit(b[b.len() - 1]));
    assert(s[0] == '-' || s[0] == a[0]);
    assert(s.last() == b[b.len() - 1]);
    lemma_trim_unchanged(s);
    assert(s[s.len() - b.len() - 1] == '.');
    law_fraction_is_float(s);
}

/// Parses the text of a value of type `ty` (surrounding white space is
/// ignored). A lone `"` as a string value is left out: the tool panics on
/// it.
pub fn parse_value(value_str: &str, ty: Type) -> (r: Result<Value, CallError>)
    requires
        !(ty == Type::CStr && cstr_panics(value_str@)),
    ensures
        result_view(r) == parse_value_spec(value_str@, ty),
{
    let v = trimmed(value_str);
    parse_value_chars(&v, ty)
}

fn parse_float_value(v: &Vec<char>, ty: Type) -> (r: Result<Value, CallError>)
    requires
        ty == Type::F32 || ty == Type::F64,
        trim(v@) == v@,
    ensures
        result_view(r) == parse_value_spec(v@, ty),
{
    match parse_float(v) {
        Ok(_) => {
            if ty == Type::F32 {
                Ok(Value::F32(string_of(v)))
            } else {
                Ok(Value::F64(string_of(v)))
            }
        },
        Err(k) => Err(CallError::ParseFloat(k)),
    }
}

fn parse_cstr_value(v: &Vec<char>) -> (r: Result<Value, CallError>)
    requires
        v@ != seq!['"'],
    ensures
        r matches Ok(x) && x@ == ValueView::CStr(cstr_text(v@)),
{
    assert(v@.skip(0) == v@);
    proof {
        reveal_strlit("\"");
    }
    assert("\""@ =~= seq!['"']);
    if prefix_at(v, 0, "\"") && ends_with_str(v, "\"") {
        assert(v.len() >= 2) by {
            if v.len() == 1 {
                assert(v@ =~= seq!['"']);
            }
        }
        let inner = slice_chars(v, 1, v.len() - 1);
        Ok(Value::CStr(string_of(&inner)))
    } else {
        Ok(Value::CStr(string_of(v)))
    }
}

/// [`parse_value`] on already trimmed characters.
pub fn parse_value_chars(v: &Vec<char>, ty: Type) -> (r: Result<Value, CallError>)
    requires
        !(ty == Type::CStr && v@ == seq!['"']),
        trim(v@) == v@,
    ensures
        result_view(r) == parse_value_spec(v@, ty),
{
    match ty {
        Type::I32 => {
            if chars_eq_str(v, "true") {
                Ok(Value::I32(1))
            } else if chars_eq_str(v, "false") {
                Ok(Value::I32(0))
            } else {
                parse_decimal(ty, v)
            }
        },
        Type::F32 | Type::F64 => parse_float_value(v, ty),
        Type::Ptr => parse_address(v),
        Type::CStr => parse_cstr_value(v),
        Type::Void => Err(CallError::VoidValue),
        Type::Callback => Err(CallError::CallbackValue),
        _ => parse_decimal(ty, v),
    }
}

/// Whether parsing `s` as a string value panics (see [`cstr_panics`]).
pub fn cstr_value_panics(s: &str) -> (r: bool)
    ensures
        r == cstr_panics(s@),
{
    let v = trimmed(s);
    proof {
        reveal_strlit("\"");
    }
    let r = chars_eq_str(&v, "\"");
    assert(r == (v@ == seq!['"'])) by {
        assert("\""@ =~= seq!['"']);
    }
    r
}

/// Parsing the parts in order; the first part that fails gives the error.
pub open spec fn parse_parts_spec(parts: Seq<Seq<char>>, t: Type) -> Result<Seq<ValueView>, ErrorView>
    decreases parts.len(),
{
    if parts.len() == 0 {
        Ok(Seq::empty())
    } else {
        match parse_parts_spec(parts.drop_last(), t) {
            Err(e) => Err(e),
            Ok(vs) => match parse_value_spec(parts.last(), t) {
                Ok(v) => Ok(vs.push(v)),
                Err(e) => Err(e),
            },
        }
    }
}

/// A comma-separated list of exactly `n` values of type `t`.
pub open spec fn parse_array_spec(s: Seq<char>, t: Type, n: nat) -> Result<Seq<ValueView>, ErrorView> {
    let parts = split_on(s, ',');
    if parts.len() != n {
        Err(ErrorView::ArrayLengthMismatch { expected: n, got: parts.len() })
    } else {
        parse_parts_spec(parts, t)
    }
}

/// Parsing a list of strings panics when the counts agree and one of the
/// parts is a lone `"`.
pub open spec fn array_panics(s: Seq<char>, t: Type, n: nat) -> bool {
    &&& t == Type::CStr
    &&& split_on(s, ',').len() == n
    &&& exists|i: int| 0 <= i < n && cstr_panics(#[trigger] split_on(s, ',')[i])
}

/// Whether parsing a list of `expected_count` values of type `elem_type`
/// panics (see [`array_panics`]).
pub fn array_values_panic(values_str: &str, elem_type: Type, expected_count: usize) -> (r: bool)
    ensures
        r == array_panics(values_str@, elem_type, expected_count as nat),
{
    if elem_type != Type::CStr {
        return false;
    }
    let parts = split_chars(&chars_of(values_str), ',');
    let ghost ps = split_on(values_str@, ',');
    if parts.len() != expected_count {
        return false;
    }
    proof {
        reveal_strlit("\"");
    }
    assert("\""@ =~= seq!['"']);
    let mut i: usize = 0;
    while i < parts.len()
        invariant
            i <= parts.len() == ps.len() == expected_count,
            ps == split_on(values_str@, ','),
            forall|k: int| 0 <= k < parts@.len() ==> #[trigger] parts@[k]@ == ps[k],
            forall|k: int| 0 <= k < i ==> !cstr_panics(#[trigger] ps[k]),
            "\""@ == seq!['"'],
            elem_type == Type::CStr,
        decreases parts.len() - i,
    {
        let part = trim_chars(&parts[i]);
        if chars_eq_str(&part, "\"") {
            assert(cstr_panics(split_on(values_str@, ',')[i as int]));
            return true;
        }
        i = i + 1;
    }
    false
}

/// The view of a list parse result.
pub open spec fn values_result_view(r: Result<Vec<Value>, CallError>) -> Result<
    Seq<ValueView>,
    ErrorView,
> {
    match r {
        Ok(vs) => Ok(values_view(vs@)),
        Err(e) => Err(e@),
    }
}

/// Parses a comma-separated list of `expected_count` values of type
/// `elem_type`.
pub fn parse_array_values(values_str: &str, elem_type: Type, expected_count: usize) -> (r: Result<
    Vec<Value>,
    CallError,
>)
    requires
        !array_panics(values_str@, elem_type, expected_count as nat),
    ensures
        values_result_view(r) == parse_array_spec(values_str@, elem_type, expected_count as nat),
{
    let cs = chars_of(values_str);
    let parts = split_chars(&cs, ',');
    if parts.len() != expected_count {
        return Err(CallError::ArrayLengthMismatch { expected: expected_count, got: parts.len() });
    }
    let ghost ps = split_on(values_str@, ',');
    let mut out: Vec<Value> = Vec::new();
    let mut i: usize = 0;
    assert(ps.take(0) =~= Seq::<Seq<char>>::empty());
    assert(values_view(out@) =~= Seq::<ValueView>::empty());
    while i < parts.len()
        invariant
            i <= parts.len() == ps.len() == expected_count,
            ps == split_on(values_str@, ','),
            forall|k: int| 0 <= k < parts@.len() ==> #[trigger] parts@[k]@ == ps[k],
            !array_panics(values_str@, elem_type, expected_count as nat),
            parse_parts_spec(ps.take(i as int), elem_type) == Ok::<Seq<ValueView>, ErrorView>(
                values_view(out@),
            ),
        decreases parts.len() - i,
    {
        let part = trim_chars(&parts[i]);
        proof {
            lemma_trim_idempotent(ps[i as int]);
            if elem_type == Type::CStr && part@ == seq!['"'] {
                assert(cstr_panics(split_on(values_str@, ',')[i as int]));
            }
            assert(ps.take(i + 1).drop_last() == ps.take(i as int));
            assert(ps.take(i + 1).last() == ps[i as int]);
        }
        match parse_value_chars(&part, elem_type) {
            Ok(v) => {
                let ghost before = out@;
                out.push(v);
                assert(values_view(out@) =~= values_view(before).push(v@));
            },
            Err(e) => {
                proof {
                    lemma_parse_parts_error(ps, i as int, elem_type);
                }
                return Err(e);
            },
        }
        i = i + 1;
    }
    assert(ps.take(parts.len() as int) == ps);
    Ok(out)
}

/// An error among the first `i + 1` parts is the error of the whole list.
pub proof fn lemma_parse_parts_error(ps: Seq<Seq<char>>, i: int, t: Type)
    requires
        0 <= i < ps.len(),
        parse_parts_spec(ps.take(i + 1), t) is Err,
    ensures
        parse_parts_spec(ps, t) == parse_parts_spec(ps.take(i + 1), t),
    decreases ps.len() - i,
{
    if i + 1 < ps.len() {
        assert(ps.take(i + 2).drop_last() == ps.take(i + 1));
        lemma_parse_parts_error(ps, i + 1, t);
    } else {
        assert(ps.take(i + 1) == ps);
    }
}

} // verus!
