//! Turning command-line tokens into typed call arguments and a return type.
use vstd::prelude::*;

use crate::error::{CallError, ErrorView};
use crate::grammar::{
    callback_like, callback_shape, input_array_shape, match_callback, match_callback_like,
    match_input_array, match_output_array, match_output_scalar, match_return_type,
    match_typed_value, output_array_shape, output_scalar_shape, return_type_shape,
    typed_value_shape,
};
use crate::number::{parse_int, parse_int_spec};
use crate::text::{chars_of, slice_chars, string_of, trim, trim_chars};
use crate::types::{
    array_panics, array_values_panic, cstr_panics, cstr_value_panics, default_value, infer_type,
    infer_type_spec, name_key, parse_array_spec, parse_array_values, parse_type_name, parse_value,
    parse_value_spec, type_for_name, type_label, value_view, values_view, Type, Value, ValueView,
};

verus! {

/// One argument of a call, and whether the C function writes into it.
#[derive(Debug)]
pub struct Argument {
    pub value: Value,
    pub is_output: bool,
}

/// [`Argument`] with its value as a view.
pub struct ArgumentView {
    pub value: ValueView,
    pub is_output: bool,
}

impl View for Argument {
    type V = ArgumentView;

    open spec fn view(&self) -> ArgumentView {
        ArgumentView { value: self.value@, is_output: self.is_output }
    }
}

/// A parsed call: function name, arguments in order, return type.
#[derive(Debug)]
pub struct CallSpec {
    pub function: String,
    pub args: Vec<Argument>,
    pub return_type: Type,
}

/// Looking up a type name (what `parse_type_name` returns).
pub open spec fn type_name_spec(name: Seq<char>) -> Result<Type, ErrorView> {
    match type_for_name(name_key(name)) {
        Some(t) => Ok(t),
        None => Err(ErrorView::UnknownType(name)),
    }
}

/// Reading an element count (`str::parse::<usize>`).
pub open spec fn count_spec(digits: Seq<char>) -> Result<nat, ErrorView> {
    match parse_int_spec(digits, 10, false, 0, usize::MAX as int) {
        Ok(n) => Ok(n as nat),
        Err(k) => Err(ErrorView::ParseInt(k)),
    }
}

/// An array argument of element type `t`.
pub open spec fn array_arg(t: Type, values: Seq<ValueView>, is_output: bool) -> ArgumentView {
    ArgumentView { value: ValueView::Array { elem_type: t, values }, is_output }
}

/// `n` zero values of type `t`.
pub open spec fn defaults(t: Type, n: nat) -> Seq<ValueView> {
    Seq::new(n, |i: int| default_value(t))
}

/// An array token: a count, an element type, and the text of initial
/// values if there is one.
pub open spec fn array_token_spec(
    count: Seq<char>,
    name: Seq<char>,
    init: Option<Seq<char>>,
    is_output: bool,
) -> Result<ArgumentView, ErrorView> {
    match count_spec(count) {
        Err(e) => Err(e),
        Ok(n) => match type_name_spec(name) {
            Err(e) => Err(e),
            Ok(t) => match init {
                Some(s) => match parse_array_spec(s, t, n) {
                    Ok(vs) => Ok(array_arg(t, vs, is_output)),
                    Err(e) => Err(e),
                },
                None => Ok(array_arg(t, defaults(t, n), is_output)),
            },
        },
    }
}

/// Whether parsing an array token reaches the panicking string value.
pub open spec fn array_token_panics(count: Seq<char>, name: Seq<char>, init: Option<Seq<char>>) -> bool {
    &&& init is Some
    &&& count_spec(count) is Ok
    &&& type_name_spec(name) is Ok
    &&& array_panics(init->Some_0, type_name_spec(name)->Ok_0, count_spec(count)->Ok_0)
}

/// The signature text of a callback token: return type and parameters,
/// trimmed, as `RET(PARAMS)`.
pub open spec fn callback_signature(t: Seq<char>, p: int, q: int) -> Seq<char> {
    trim(t.subrange(1, p)) + seq!['('] + trim(t.subrange(p + 1, q)) + seq![')']
}

/// The argument a token stands for. The token shapes are tried in order:
/// output scalar `@TYPE`, output array `@NTYPE[:VALUES]`, input array
/// `NTYPE:VALUES`, callback `'RET(PARAMS){BODY}'` (a quoted token that
/// only looks like one is an error), typed value `TYPE:VALUE`, and last an
/// untyped value whose type is inferred.
pub open spec fn parse_token_spec(t: Seq<char>) -> Result<ArgumentView, ErrorView> {
    if output_scalar_shape(t) is Some {
        match type_name_spec(output_scalar_shape(t)->Some_0) {
            Err(e) => Err(e),
            Ok(ty) => Ok(array_arg(ty, seq![default_value(ty)], true)),
        }
    } else if output_array_shape(t) is Some {
        let (de, ne, has_init) = output_array_shape(t)->Some_0;
        array_token_spec(
            t.subrange(1, de),
            t.subrange(de, ne),
            if has_init {
                Some(t.skip(ne + 1))
            } else {
                None
            },
            true,
        )
    } else if input_array_shape(t) is Some {
        let (de, ne) = input_array_shape(t)->Some_0;
        array_token_spec(t.take(de), t.subrange(de, ne), Some(t.skip(ne + 1)), false)
    } else if callback_shape(t) is Some {
        let (p, q) = callback_shape(t)->Some_0;
        Ok(
            ArgumentView {
                value: ValueView::Callback {
                    signature: callback_signature(t, p, q),
                    body: trim(t.subrange(q + 2, t.len() - 2)),
                },
                is_output: false,
            },
        )
    } else if callback_like(t) {
        Err(ErrorView::InvalidCallbackSpec(t))
    } else if typed_value_shape(t) is Some {
        let ne = typed_value_shape(t)->Some_0;
        match type_name_spec(t.take(ne)) {
            Err(e) => Err(e),
            Ok(ty) => match parse_value_spec(t.skip(ne + 1), ty) {
                Ok(v) => Ok(ArgumentView { value: v, is_output: false }),
                Err(e) => Err(e),
            },
        }
    } else {
        match parse_value_spec(t, infer_type_spec(t)) {
            Ok(v) => Ok(ArgumentView { value: v, is_output: false }),
            Err(e) => Err(e),
        }
    }
}

/// Whether parsing the token reaches a string value that is a lone `"`,
/// on which the tool panics.
pub open spec fn token_panics(t: Seq<char>) -> bool {
    if output_scalar_shape(t) is Some {
        false
    } else if output_array_shape(t) is Some {
        let (de, ne, has_init) = output_array_shape(t)->Some_0;
        array_token_panics(
            t.subrange(1, de),
            t.subrange(de, ne),
            if has_init {
                Some(t.skip(ne + 1))
            } else {
                None
            },
        )
    } else if input_array_shape(t) is Some {
        let (de, ne) = input_array_shape(t)->Some_0;
        array_token_panics(t.take(de), t.subrange(de, ne), Some(t.skip(ne + 1)))
    } else if callback_shape(t) is Some || callback_like(t) {
        false
    } else if typed_value_shape(t) is Some {
        let ne = typed_value_shape(t)->Some_0;
        type_name_spec(t.take(ne)) == Ok::<Type, ErrorView>(Type::CStr) && cstr_panics(
            t.skip(ne + 1),
        )
    } else {
        infer_type_spec(t) == Type::CStr && cstr_panics(t)
    }
}

/// The view of an argument parse result.
pub open spec fn argument_result_view(r: Result<Argument, CallError>) -> Result<
    ArgumentView,
    ErrorView,
> {
    match r {
        Ok(a) => Ok(a@),
        Err(e) => Err(e@),
    }
}

/// Each scalar type name that token shapes capture names a type that has
/// a zero value.
pub proof fn lemma_scalar_name_type(n: Seq<char>)
    requires
        n == "i8"@ || n == "u8"@ || n == "i16"@ || n == "u16"@ || n == "i32"@ || n == "u32"@
            || n == "i64"@ || n == "u64"@ || n == "isize"@ || n == "usize"@ || n == "f32"@
            || n == "f64"@ || n == "cstr"@ || n == "ptr"@,
    ensures
        type_name_spec(n) is Ok,
        type_name_spec(n)->Ok_0 != Type::Void,
        type_name_spec(n)->Ok_0 != Type::Callback,
        type_name_spec(n)->Ok_0 == Type::CStr <==> n == "cstr"@,
        n == "i8"@ ==> type_name_spec(n) == Ok::<Type, ErrorView>(Type::I8),
        n == "u8"@ ==> type_name_spec(n) == Ok::<Type, ErrorView>(Type::U8),
        n == "i16"@ ==> type_name_spec(n) == Ok::<Type, ErrorView>(Type::I16),
        n == "u16"@ ==> type_name_spec(n) == Ok::<Type, ErrorView>(Type::U16),
        n == "i32"@ ==> type_name_spec(n) == Ok::<Type, ErrorView>(Type::I32),
        n == "u32"@ ==> type_name_spec(n) == Ok::<Type, ErrorView>(Type::U32),
        n == "i64"@ ==> type_name_spec(n) == Ok::<Type, ErrorView>(Type::I64),
        n == "u64"@ ==> type_name_spec(n) == Ok::<Type, ErrorView>(Type::U64),
        n == "isize"@ ==> type_name_spec(n) == Ok::<Type, ErrorView>(Type::Isize),
        n == "usize"@ ==> type_name_spec(n) == Ok::<Type, ErrorView>(Type::Usize),
        n == "f32"@ ==> type_name_spec(n) == Ok::<Type, ErrorView>(Type::F32),
        n == "f64"@ ==> type_name_spec(n) == Ok::<Type, ErrorView>(Type::F64),
        n == "cstr"@ ==> type_name_spec(n) == Ok::<Type, ErrorView>(Type::CStr),
        n == "ptr"@ ==> type_name_spec(n) == Ok::<Type, ErrorView>(Type::Ptr),
{
    reveal_strlit("i8");
    reveal_strlit("char");
    reveal_strlit("int8");
    reveal_strlit("int8_t");
    reveal_strlit("u8");
    reveal_strlit("uchar");
    reveal_strlit("uint8");
    reveal_strlit("uint8_t");
    reveal_strlit("byte");
    reveal_strlit("i16");
    reveal_strlit("short");
    reveal_strlit("int16");
    reveal_strlit("int16_t");
    reveal_strlit("u16");
    reveal_strlit("ushort");
    reveal_strlit("uint16");
    reveal_strlit("uint16_t");
    reveal_strlit("i32");
    reveal_strlit("int");
    reveal_strlit("int32");
    reveal_strlit("int32_t");
    reveal_strlit("u32");
    reveal_strlit("uint");
    reveal_strlit("uint32");
    reveal_strlit("uint32_t");
    reveal_strlit("i64");
    reveal_strlit("long_long");
    reveal_strlit("int64");
    reveal_strlit("int64_t");
    reveal_strlit("u64");
    reveal_strlit("ulong_long");
    reveal_strlit("uint64");
    reveal_strlit("uint64_t");
    reveal_strlit("isize");
    reveal_strlit("ssize");
    reveal_strlit("ssize_t");
    reveal_strlit("long");
    reveal_strlit("usize");
    reveal_strlit("size");
    reveal_strlit("size_t");
    reveal_strlit("ulong");
    reveal_strlit("f32");
    reveal_strlit("float");
    reveal_strlit("f64");
    reveal_strlit("double");
    reveal_strlit("ptr");
    reveal_strlit("pointer");
    reveal_strlit("voidp");
    reveal_strlit("void*");
    reveal_strlit("cstr");
    reveal_strlit("string");
    reveal_strlit("str");
    reveal_strlit("char*");
    reveal_strlit("void");
    reveal_strlit("callback");
    reveal_strlit("func");
    reveal_strlit("function");

    assert(name_key(n) =~= n);
    if n == "cstr"@ {
        assert("cstr"@[1] != "char"@[1]);
        assert("cstr"@[0] != "int8"@[0]);
        assert("cstr"@[0] != "byte"@[0]);
        assert("cstr"@[0] != "uint"@[0]);
        assert("cstr"@[0] != "long"@[0]);
        assert("cstr"@[0] != "size"@[0]);
        assert(type_for_name(name_key(n)) == Some(Type::CStr));
    } else if n == "ptr"@ {
        assert("ptr"@[0] != "i16"@[0]);
        assert("ptr"@[0] != "u16"@[0]);
        assert("ptr"@[0] != "i32"@[0]);
        assert("ptr"@[0] != "int"@[0]);
        assert("ptr"@[0] != "u32"@[0]);
        assert("ptr"@[0] != "i64"@[0]);
        assert("ptr"@[0] != "u64"@[0]);
        assert("ptr"@[0] != "f32"@[0]);
        assert("ptr"@[0] != "f64"@[0]);
        assert(type_for_name(name_key(n)) == Some(Type::Ptr));
    } else if n == "f64"@ {
        assert("f64"@[0] != "i16"@[0]);
        assert("f64"@[0] != "u16"@[0]);
        assert("f64"@[0] != "i32"@[0]);
        assert("f64"@[0] != "int"@[0]);
        assert("f64"@[0] != "u32"@[0]);
        assert("f64"@[0] != "i64"@[0]);
        assert("f64"@[0] != "u64"@[0]);
        assert("f64"@[1] != "f32"@[1]);
        assert(type_for_name(name_key(n)) == Some(Type::F64));
    } else if n == "f32"@ {
        assert("f32"@[0] != "i16"@[0]);
        assert("f32"@[0] != "u16"@[0]);
        assert("f32"@[0] != "i32"@[0]);
        assert("f32"@[0] != "int"@[0]);
        assert("f32"@[0] != "u32"@[0]);
        assert("f32"@[0] != "i64"@[0]);
        assert("f32"@[0] != "u64"@[0]);
        assert(type_for_name(name_key(n)) == Some(Type::F32));
    } else if n == "usize"@ {
        assert("usize"@[1] != "uchar"@[1]);
        assert("usize"@[1] != "uint8"@[1]);
        assert("usize"@[0] != "short"@[0]);
        assert("usize"@[0] != "int16"@[0]);
        assert("usize"@[0] != "int32"@[0]);
        assert("usize"@[0] != "int64"@[0]);
        assert("usize"@[0] != "isize"@[0]);
        assert("usize"@[0] != "ssize"@[0]);
        assert(type_for_name(name_key(n)) == Some(Type::Usize));
    } else if n == "isize"@ {
        assert("isize"@[0] != "uchar"@[0]);
        assert("isize"@[0] != "uint8"@[0]);
        assert("isize"@[0] != "short"@[0]);
        assert("isize"@[1] != "int16"@[1]);
        assert("isize"@[1] != "int32"@[1]);
        assert("isize"@[1] != "int64"@[1]);
        assert(type_for_name(name_key(n)) == Some(Type::Isize));
    } else if n == "u64"@ {
        assert("u64"@[0] != "i16"@[0]);
        assert("u64"@[1] != "u16"@[1]);
        assert("u64"@[0] != "i32"@[0]);
        assert("u64"@[0] != "int"@[0]);
        assert("u64"@[1] != "u32"@[1]);
        assert("u64"@[0] != "i64"@[0]);
        assert(type_for_name(name_key(n)) == Some(Type::U64));
    } else if n == "i64"@ {
        assert("i64"@[1] != "i16"@[1]);
        assert("i64"@[0] != "u16"@[0]);
        assert("i64"@[1] != "i32"@[1]);
        assert("i64"@[1] != "int"@[1]);
        assert("i64"@[0] != "u32"@[0]);
        assert(type_for_name(name_key(n)) == Some(Type::I64));
    } else if n == "u32"@ {
        assert("u32"@[0] != "i16"@[0]);
        assert("u32"@[1] != "u16"@[1]);
        assert("u32"@[0] != "i32"@[0]);
        assert("u32"@[0] != "int"@[0]);
        assert(type_for_name(name_key(n)) == Some(Type::U32));
    } else if n == "i32"@ {
        assert("i32"@[1] != "i16"@[1]);
        assert("i32"@[0] != "u16"@[0]);
        assert(type_for_name(name_key(n)) == Some(Type::I32));
    } else if n == "u16"@ {
        assert("u16"@[0] != "i16"@[0]);
        assert(type_for_name(name_key(n)) == Some(Type::U16));
    } else if n == "i16"@ {
        assert(type_for_name(name_key(n)) == Some(Type::I16));
    } else if n == "u8"@ {
        assert("u8"@[0] != "i8"@[0]);
        assert(type_for_name(name_key(n)) == Some(Type::U8));
    } else {
        assert(n == "i8"@);
        assert(type_for_name(name_key(n)) == Some(Type::I8));
    }
}

/// Every type is read back from the name it prints as: parsing
/// `t.to_string()` as a type name gives `t`.
pub proof fn law_type_name_round_trip(t: Type)
    ensures
        type_name_spec(type_label(t)) == Ok::<Type, ErrorView>(t),
{
    reveal_strlit("i8");
    reveal_strlit("u8");
    reveal_strlit("i16");
    reveal_strlit("u16");
    reveal_strlit("i32");
    reveal_strlit("u32");
    reveal_strlit("i64");
    reveal_strlit("u64");
    reveal_strlit("isize");
    reveal_strlit("usize");
    reveal_strlit("f32");
    reveal_strlit("f64");
    reveal_strlit("ptr");
    reveal_strlit("cstr");
    reveal_strlit("void");
    reveal_strlit("callback");
    if t == Type::Void || t == Type::Callback {
        lemma_void_callback_names(t);
    } else {
        lemma_scalar_name_type(type_label(t));
    }
}

proof fn lemma_void_callback_names(t: Type)
    requires
        t == Type::Void || t == Type::Callback,
    ensures
        type_name_spec(type_label(t)) == Ok::<Type, ErrorView>(t),
{
    reveal_strlit("i8");
    reveal_strlit("char");
    reveal_strlit("int8");
    reveal_strlit("int8_t");
    reveal_strlit("u8");
    reveal_strlit("uchar");
    reveal_strlit("uint8");
    reveal_strlit("uint8_t");
    reveal_strlit("byte");
    reveal_strlit("i16");
    reveal_strlit("short");
    reveal_strlit("int16");
    reveal_strlit("int16_t");
    reveal_strlit("u16");
    reveal_strlit("ushort");
    reveal_strlit("uint16");
    reveal_strlit("uint16_t");
    reveal_strlit("i32");
    reveal_strlit("int");
    reveal_strlit("int32");
    reveal_strlit("int32_t");
    reveal_strlit("u32");
    reveal_strlit("uint");
    reveal_strlit("uint32");
    reveal_strlit("uint32_t");
    reveal_strlit("i64");
    reveal_strlit("long_long");
    reveal_strlit("int64");
    reveal_strlit("int64_t");
    reveal_strlit("u64");
    reveal_strlit("ulong_long");
    reveal_strlit("uint64");
    reveal_strlit("uint64_t");
    reveal_strlit("isize");
    reveal_strlit("ssize");
    reveal_strlit("ssize_t");
    reveal_strlit("long");
    reveal_strlit("usize");
    reveal_strlit("size");
    reveal_strlit("size_t");
    reveal_strlit("ulong");
    reveal_strlit("f32");
    reveal_strlit("float");
    reveal_strlit("f64");
    reveal_strlit("double");
    reveal_strlit("ptr");
    reveal_strlit("pointer");
    reveal_strlit("voidp");
    reveal_strlit("void*");
    reveal_strlit("cstr");
    reveal_strlit("string");
    reveal_strlit("str");
    reveal_strlit("char*");
    reveal_strlit("void");
    reveal_strlit("callback");
    let n = type_label(t);
    assert(name_key(n) =~= n);
    if t == Type::Void {
        assert("void"@[0] != "i8"@[0]);
        assert("void"@[0] != "char"@[0]);
        assert("void"@[0] != "int8"@[0]);
        assert("void"@[0] != "uint"@[0]);
        assert("void"@[0] != "byte"@[0]);
        assert("void"@[0] != "long"@[0]);
        assert("void"@[0] != "size"@[0]);
        assert("void"@[0] != "cstr"@[0]);
        assert(type_for_name(name_key(n)) == Some(Type::Void));
    } else {
        assert("callback"@[0] != "int8_t"@[0]);
        assert("callback"@[0] != "uint8_t"@[0]);
        assert("callback"@[0] != "int16_t"@[0]);
        assert("callback"@[0] != "int32_t"@[0]);
        assert("callback"@[0] != "int64_t"@[0]);
        assert("callback"@[0] != "uint16_t"@[0]);
        assert("callback"@[0] != "uint32_t"@[0]);
        assert("callback"@[0] != "uint64_t"@[0]);
        assert(type_for_name(name_key(n)) == Some(Type::Callback));
    }
}

/// Every C type name and alias names the type of its C width and kind:
/// `char`/`int8_t` the signed byte, `uchar`/`byte`/`uint8_t` the unsigned
/// one, `short`/`ushort` 16 bits, `int`/`uint` 32 bits, `long_long`/
/// `ulong_long` 64 bits, `long`/`ssize_t` and `ulong`/`size_t` the
/// pointer-sized integers, `float` the 32-bit and `double` the 64-bit
/// floating-point type, `pointer`/`voidp`/`void*` a pointer, `string`/
/// `str`/`char*` a C string, and `func`/`function` a callback.
pub proof fn law_c_type_aliases()
    ensures
        type_name_spec("i8"@) == Ok::<Type, ErrorView>(Type::I8),
        type_name_spec("char"@) == Ok::<Type, ErrorView>(Type::I8),
        type_name_spec("int8"@) == Ok::<Type, ErrorView>(Type::I8),
        type_name_spec("int8_t"@) == Ok::<Type, ErrorView>(Type::I8),
        type_name_spec("u8"@) == Ok::<Type, ErrorView>(Type::U8),
        type_name_spec("uchar"@) == Ok::<Type, ErrorView>(Type::U8),
        type_name_spec("uint8"@) == Ok::<Type, ErrorView>(Type::U8),
        type_name_spec("uint8_t"@) == Ok::<Type, ErrorView>(Type::U8),
        type_name_spec("byte"@) == Ok::<Type, ErrorView>(Type::U8),
        type_name_spec("i16"@) == Ok::<Type, ErrorView>(Type::I16),
        type_name_spec("short"@) == Ok::<Type, ErrorView>(Type::I16),
        type_name_spec("int16"@) == Ok::<Type, ErrorView>(Type::I16),
        type_name_spec("int16_t"@) == Ok::<Type, ErrorView>(Type::I16),
        type_name_spec("u16"@) == Ok::<Type, ErrorView>(Type::U16),
        type_name_spec("ushort"@) == Ok::<Type, ErrorView>(Type::U16),
        type_name_spec("uint16"@) == Ok::<Type, ErrorView>(Type::U16),
        type_name_spec("uint16_t"@) == Ok::<Type, ErrorView>(Type::U16),
        type_name_spec("i32"@) == Ok::<Type, ErrorView>(Type::I32),
        type_name_spec("int"@) == Ok::<Type, ErrorView>(Type::I32),
        type_name_spec("int32"@) == Ok::<Type, ErrorView>(Type::I32),
        type_name_spec("int32_t"@) == Ok::<Type, ErrorView>(Type::I32),
        type_name_spec("u32"@) == Ok::<Type, ErrorView>(Type::U32),
        type_name_spec("uint"@) == Ok::<Type, ErrorView>(Type::U32),
        type_name_spec("uint32"@) == Ok::<Type, ErrorView>(Type::U32),
        type_name_spec("uint32_t"@) == Ok::<Type, ErrorView>(Type::U32),
        type_name_spec("i64"@) == Ok::<Type, ErrorView>(Type::I64),
        type_name_spec("long_long"@) == Ok::<Type, ErrorView>(Type::I64),
        type_name_spec("int64"@) == Ok::<Type, ErrorView>(Type::I64),
        type_name_spec("int64_t"@) == Ok::<Type, ErrorView>(Type::I64),
        type_name_spec("u64"@) == Ok::<Type, ErrorView>(Type::U64),
        type_name_spec("ulong_long"@) == Ok::<Type, ErrorView>(Type::U64),
        type_name_spec("uint64"@) == Ok::<Type, ErrorView>(Type::U64),
        type_name_spec("uint64_t"@) == Ok::<Type, ErrorView>(Type::U64),
        type_name_spec("isize"@) == Ok::<Type, ErrorView>(Type::Isize),
        type_name_spec("ssize"@) == Ok::<Type, ErrorView>(Type::Isize),
        type_name_spec("ssize_t"@) == Ok::<Type, ErrorView>(Type::Isize),
        type_name_spec("long"@) == Ok::<Type, ErrorView>(Type::Isize),
        type_name_spec("usize"@) == Ok::<Type, ErrorView>(Type::Usize),
        type_name_spec("size"@) == Ok::<Type, ErrorView>(Type::Usize),
        type_name_spec("size_t"@) == Ok::<Type, ErrorView>(Type::Usize),
        type_name_spec("ulong"@) == Ok::<Type, ErrorView>(Type::Usize),
        type_name_spec("f32"@) == Ok::<Type, ErrorView>(Type::F32),
        type_name_spec("float"@) == Ok::<Type, ErrorView>(Type::F32),
        type_name_spec("f64"@) == Ok::<Type, ErrorView>(Type::F64),
        type_name_spec("double"@) == Ok::<Type, ErrorView>(Type::F64),
        type_name_spec("ptr"@) == Ok::<Type, ErrorView>(Type::Ptr),
        type_name_spec("pointer"@) == Ok::<Type, ErrorView>(Type::Ptr),
        type_name_spec("voidp"@) == Ok::<Type, ErrorView>(Type::Ptr),
        type_name_spec("void*"@) == Ok::<Type, ErrorView>(Type::Ptr),
        type_name_spec("cstr"@) == Ok::<Type, ErrorView>(Type::CStr),
        type_name_spec("string"@) == Ok::<Type, ErrorView>(Type::CStr),
        type_name_spec("str"@) == Ok::<Type, ErrorView>(Type::CStr),
        type_name_spec("char*"@) == Ok::<Type, ErrorView>(Type::CStr),
        type_name_spec("void"@) == Ok::<Type, ErrorView>(Type::Void),
        type_name_spec("callback"@) == Ok::<Type, ErrorView>(Type::Callback),
        type_name_spec("func"@) == Ok::<Type, ErrorView>(Type::Callback),
        type_name_spec("function"@) == Ok::<Type, ErrorView>(Type::Callback),
{
    lemma_aliases_i8();
    lemma_aliases_u8();
    lemma_aliases_i16();
    lemma_aliases_u16();
    lemma_aliases_i32();
    lemma_aliases_u32();
    lemma_aliases_i64();
    lemma_aliases_u64();
    lemma_aliases_isize();
    lemma_aliases_usize();
    lemma_aliases_f32();
    lemma_aliases_f64();
    lemma_aliases_ptr();
    lemma_aliases_cstr();
    lemma_aliases_void();
    lemma_aliases_callback();
}

proof fn lemma_aliases_i8()
    ensures
        type_name_spec("i8"@) == Ok::<Type, ErrorView>(Type::I8),
        type_name_spec("char"@) == Ok::<Type, ErrorView>(Type::I8),
        type_name_spec("int8"@) == Ok::<Type, ErrorView>(Type::I8),
        type_name_spec("int8_t"@) == Ok::<Type, ErrorView>(Type::I8),
{
    reveal_strlit("i8");
    reveal_strlit("char");
    reveal_strlit("int8");
    reveal_strlit("int8_t");
    reveal_strlit("u8");
    reveal_strlit("uchar");
    reveal_strlit("uint8");
    reveal_strlit("uint8_t");
    reveal_strlit("byte");
    reveal_strlit("i16");
    reveal_strlit("short");
    reveal_strlit("int16");
    reveal_strlit("int16_t");
    reveal_strlit("u16");
    reveal_strlit("ushort");
    reveal_strlit("uint16");
    reveal_strlit("uint16_t");
    reveal_strlit("i32");
    reveal_strlit("int");
    reveal_strlit("int32");
    reveal_strlit("int32_t");
    reveal_strlit("u32");
    reveal_strlit("uint");
    reveal_strlit("uint32");
    reveal_strlit("uint32_t");
    reveal_strlit("i64");
    reveal_strlit("long_long");
    reveal_strlit("int64");
    reveal_strlit("int64_t");
    reveal_strlit("u64");
    reveal_strlit("ulong_long");
    reveal_strlit("uint64");
    reveal_strlit("uint64_t");
    reveal_strlit("isize");
    reveal_strlit("ssize");
    reveal_strlit("ssize_t");
    reveal_strlit("long");
    reveal_strlit("usize");
    reveal_strlit("size");
    reveal_strlit("size_t");
    reveal_strlit("ulong");
    reveal_strlit("f32");
    reveal_strlit("float");
    reveal_strlit("f64");
    reveal_strlit("double");
    reveal_strlit("ptr");
    reveal_strlit("pointer");
    reveal_strlit("voidp");
    reveal_strlit("void*");
    reveal_strlit("cstr");
    reveal_strlit("string");
    reveal_strlit("str");
    reveal_strlit("char*");
    reveal_strlit("void");
    reveal_strlit("callback");
    reveal_strlit("func");
    reveal_strlit("function");
    assert(name_key("i8"@) =~= "i8"@);
    assert(type_name_spec("i8"@) == Ok::<Type, ErrorView>(Type::I8));
    assert(name_key("char"@) =~= "char"@);
    assert(type_name_spec("char"@) == Ok::<Type, ErrorView>(Type::I8));
    assert(name_key("int8"@) =~= "int8"@);
    assert(type_name_spec("int8"@) == Ok::<Type, ErrorView>(Type::I8));
    assert(name_key("int8_t"@) =~= "int8_t"@);
    assert(type_name_spec("int8_t"@) == Ok::<Type, ErrorView>(Type::I8));
}

proof fn lemma_aliases_u8()
    ensures
        type_name_spec("u8"@) == Ok::<Type, ErrorView>(Type::U8),
        type_name_spec("uchar"@) == Ok::<Type, ErrorView>(Type::U8),
        type_name_spec("uint8"@) == Ok::<Type, ErrorView>(Type::U8),
        type_name_spec("uint8_t"@) == Ok::<Type, ErrorView>(Type::U8),
        type_name_spec("byte"@) == Ok::<Type, ErrorView>(Type::U8),
{
    reveal_strlit("i8");
    reveal_strlit("char");
    reveal_strlit("int8");
    reveal_strlit("int8_t");
    reveal_strlit("u8");
    reveal_strlit("uchar");
    reveal_strlit("uint8");
    reveal_strlit("uint8_t");
    reveal_strlit("byte");
    reveal_strlit("i16");
    reveal_strlit("short");
    reveal_strlit("int16");
    reveal_strlit("int16_t");
    reveal_strlit("u16");
    reveal_strlit("ushort");
    reveal_strlit("uint16");
    reveal_strlit("uint16_t");
    reveal_strlit("i32");
    reveal_strlit("int");
    reveal_strlit("int32");
    reveal_strlit("int32_t");
    reveal_strlit("u32");
    reveal_strlit("uint");
    reveal_strlit("uint32");
    reveal_strlit("uint32_t");
    reveal_strlit("i64");
    reveal_strlit("long_long");
    reveal_strlit("int64");
    reveal_strlit("int64_t");
    reveal_strlit("u64");
    reveal_strlit("ulong_long");
    reveal_strlit("uint64");
    reveal_strlit("uint64_t");
    reveal_strlit("isize");
    reveal_strlit("ssize");
    reveal_strlit("ssize_t");
    reveal_strlit("long");
    reveal_strlit("usize");
    reveal_strlit("size");
    reveal_strlit("size_t");
    reveal_strlit("ulong");
    reveal_strlit("f32");
    reveal_strlit("float");
    reveal_strlit("f64");
    reveal_strlit("double");
    reveal_strlit("ptr");
    reveal_strlit("pointer");
    reveal_strlit("voidp");
    reveal_strlit("void*");
    reveal_strlit("cstr");
    reveal_strlit("string");
    reveal_strlit("str");
    reveal_strlit("char*");
    reveal_strlit("void");
    reveal_strlit("callback");
    reveal_strlit("func");
    reveal_strlit("function");
    assert(name_key("u8"@) =~= "u8"@);
    assert("u8"@[0] != "i8"@[0]);
    assert(type_name_spec("u8"@) == Ok::<Type, ErrorView>(Type::U8));
    assert(name_key("uchar"@) =~= "uchar"@);
    assert(type_name_spec("uchar"@) == Ok::<Type, ErrorView>(Type::U8));
    assert(name_key("uint8"@) =~= "uint8"@);
    assert(type_name_spec("uint8"@) == Ok::<Type, ErrorView>(Type::U8));
    assert(name_key("uint8_t"@) =~= "uint8_t"@);
    assert(type_name_spec("uint8_t"@) == Ok::<Type, ErrorView>(Type::U8));
    assert(name_key("byte"@) =~= "byte"@);
    assert("byte"@[0] != "char"@[0]);
    assert("byte"@[0] != "int8"@[0]);
    assert(type_name_spec("byte"@) == Ok::<Type, ErrorView>(Type::U8));
}

proof fn lemma_aliases_i16()
    ensures
        type_name_spec("i16"@) == Ok::<Type, ErrorView>(Type::I16),
        type_name_spec("short"@) == Ok::<Type, ErrorView>(Type::I16),
        type_name_spec("int16"@) == Ok::<Type, ErrorView>(Type::I16),
        type_name_spec("int16_t"@) == Ok::<Type, ErrorView>(Type::I16),
{
    reveal_strlit("i8");
    reveal_strlit("char");
    reveal_strlit("int8");
    reveal_strlit("int8_t");
    reveal_strlit("u8");
    reveal_strlit("uchar");
    reveal_strlit("uint8");
    reveal_strlit("uint8_t");
    reveal_strlit("byte");
    reveal_strlit("i16");
    reveal_strlit("short");
    reveal_strlit("int16");
    reveal_strlit("int16_t");
    reveal_strlit("u16");
    reveal_strlit("ushort");
    reveal_strlit("uint16");
    reveal_strlit("uint16_t");
    reveal_strlit("i32");
    reveal_strlit("int");
    reveal_strlit("int32");
    reveal_strlit("int32_t");
    reveal_strlit("u32");
    reveal_strlit("uint");
    reveal_strlit("uint32");
    reveal_strlit("uint32_t");
    reveal_strlit("i64");
    reveal_strlit("long_long");
    reveal_strlit("int64");
    reveal_strlit("int64_t");
    reveal_strlit("u64");
    reveal_strlit("ulong_long");
    reveal_strlit("uint64");
    reveal_strlit("uint64_t");
    reveal_strlit("isize");
    reveal_strlit("ssize");
    reveal_strlit("ssize_t");
    reveal_strlit("long");
    reveal_strlit("usize");
    reveal_strlit("size");
    reveal_strlit("size_t");
    reveal_strlit("ulong");
    reveal_strlit("f32");
    reveal_strlit("float");
    reveal_strlit("f64");
    reveal_strlit("double");
    reveal_strlit("ptr");
    reveal_strlit("pointer");
    reveal_strlit("voidp");
    reveal_strlit("void*");
    reveal_strlit("cstr");
    reveal_strlit("string");
    reveal_strlit("str");
    reveal_strlit("char*");
    reveal_strlit("void");
    reveal_strlit("callback");
    reveal_strlit("func");
    reveal_strlit("function");
    assert(name_key("i16"@) =~= "i16"@);
    assert(type_name_spec("i16"@) == Ok::<Type, ErrorView>(Type::I16));
    assert(name_key("short"@) =~= "short"@);
    assert("short"@[0] != "uchar"@[0]);
    assert("short"@[0] != "uint8"@[0]);
    assert(type_name_spec("short"@) == Ok::<Type, ErrorView>(Type::I16));
    assert(name_key("int16"@) =~= "int16"@);
    assert("int16"@[0] != "uchar"@[0]);
    assert("int16"@[0] != "uint8"@[0]);
    assert(type_name_spec("int16"@) == Ok::<Type, ErrorView>(Type::I16));
    assert(name_key("int16_t"@) =~= "int16_t"@);
    assert("int16_t"@[0] != "uint8_t"@[0]);
    assert(type_name_spec("int16_t"@) == Ok::<Type, ErrorView>(Type::I16));
}

proof fn lemma_aliases_u16()
    ensures
        type_name_spec("u16"@) == Ok::<Type, ErrorView>(Type::U16),
        type_name_spec("ushort"@) == Ok::<Type, ErrorView>(Type::U16),
        type_name_spec("uint16"@) == Ok::<Type, ErrorView>(Type::U16),
        type_name_spec("uint16_t"@) == Ok::<Type, ErrorView>(Type::U16),
{
    reveal_strlit("i8");
    reveal_strlit("char");
    reveal_strlit("int8");
    reveal_strlit("int8_t");
    reveal_strlit("u8");
    reveal_strlit("uchar");
    reveal_strlit("uint8");
    reveal_strlit("uint8_t");
    reveal_strlit("byte");
    reveal_strlit("i16");
    reveal_strlit("short");
    reveal_strlit("int16");
    reveal_strlit("int16_t");
    reveal_strlit("u16");
    reveal_strlit("ushort");
    reveal_strlit("uint16");
    reveal_strlit("uint16_t");
    reveal_strlit("i32");
    reveal_strlit("int");
    reveal_strlit("int32");
    reveal_strlit("int32_t");
    reveal_strlit("u32");
    reveal_strlit("uint");
    reveal_strlit("uint32");
    reveal_strlit("uint32_t");
    reveal_strlit("i64");
    reveal_strlit("long_long");
    reveal_strlit("int64");
    reveal_strlit("int64_t");
    reveal_strlit("u64");
    reveal_strlit("ulong_long");
    reveal_strlit("uint64");
    reveal_strlit("uint64_t");
    reveal_strlit("isize");
    reveal_strlit("ssize");
    reveal_strlit("ssize_t");
    reveal_strlit("long");
    reveal_strlit("usize");
    reveal_strlit("size");
    reveal_strlit("size_t");
    reveal_strlit("ulong");
    reveal_strlit("f32");
    reveal_strlit("float");
    reveal_strlit("f64");
    reveal_strlit("double");
    reveal_strlit("ptr");
    reveal_strlit("pointer");
    reveal_strlit("voidp");
    reveal_strlit("void*");
    reveal_strlit("cstr");
    reveal_strlit("string");
    reveal_strlit("str");
    reveal_strlit("char*");
    reveal_strlit("void");
    reveal_strlit("callback");
    reveal_strlit("func");
    reveal_strlit("function");
    assert(name_key("u16"@) =~= "u16"@);
    assert("u16"@[0] != "i16"@[0]);
    assert(type_name_spec("u16"@) == Ok::<Type, ErrorView>(Type::U16));
    assert(name_key("ushort"@) =~= "ushort"@);
    assert("ushort"@[0] != "int8_t"@[0]);
    assert(type_name_spec("ushort"@) == Ok::<Type, ErrorView>(Type::U16));
    assert(name_key("uint16"@) =~= "uint16"@);
    assert("uint16"@[0] != "int8_t"@[0]);
    assert(type_name_spec("uint16"@) == Ok::<Type, ErrorView>(Type::U16));
    assert(name_key("uint16_t"@) =~= "uint16_t"@);
    assert(type_name_spec("uint16_t"@) == Ok::<Type, ErrorView>(Type::U16));
}

proof fn lemma_aliases_i32()
    ensures
        type_name_spec("i32"@) == Ok::<Type, ErrorView>(Type::I32),
        type_name_spec("int"@) == Ok::<Type, ErrorView>(Type::I32),
        type_name_spec("int32"@) == Ok::<Type, ErrorView>(Type::I32),
        type_name_spec("int32_t"@) == Ok::<Type, ErrorView>(Type::I32),
{
    reveal_strlit("i8");
    reveal_strlit("char");
    reveal_strlit("int8");
    reveal_strlit("int8_t");
    reveal_strlit("u8");
    reveal_strlit("uchar");
    reveal_strlit("uint8");
    reveal_strlit("uint8_t");
    reveal_strlit("byte");
    reveal_strlit("i16");
    reveal_strlit("short");
    reveal_strlit("int16");
    reveal_strlit("int16_t");
    reveal_strlit("u16");
    reveal_strlit("ushort");
    reveal_strlit("uint16");
    reveal_strlit("uint16_t");
    reveal_strlit("i32");
    reveal_strlit("int");
    reveal_strlit("int32");
    reveal_strlit("int32_t");
    reveal_strlit("u32");
    reveal_strlit("uint");
    reveal_strlit("uint32");
    reveal_strlit("uint32_t");
    reveal_strlit("i64");
    reveal_strlit("long_long");
    reveal_strlit("int64");
    reveal_strlit("int64_t");
    reveal_strlit("u64");
    reveal_strlit("ulong_long");
    reveal_strlit("uint64");
    reveal_strlit("uint64_t");
    reveal_strlit("isize");
    reveal_strlit("ssize");
    reveal_strlit("ssize_t");
    reveal_strlit("long");
    reveal_strlit("usize");
    reveal_strlit("size");
    reveal_strlit("size_t");
    reveal_strlit("ulong");
    reveal_strlit("f32");
    reveal_strlit("float");
    reveal_strlit("f64");
    reveal_strlit("double");
    reveal_strlit("ptr");
    reveal_strlit("pointer");
    reveal_strlit("voidp");
    reveal_strlit("void*");
    reveal_strlit("cstr");
    reveal_strlit("string");
    reveal_strlit("str");
    reveal_strlit("char*");
    reveal_strlit("void");
    reveal_strlit("callback");
    reveal_strlit("func");
    reveal_strlit("function");
    assert(name_key("i32"@) =~= "i32"@);
    assert("i32"@[1] != "i16"@[1]);
    assert("i32"@[0] != "u16"@[0]);
    assert(type_name_spec("i32"@) == Ok::<Type, ErrorView>(Type::I32));
    assert(name_key("int"@) =~= "int"@);
    assert("int"@[1] != "i16"@[1]);
    assert("int"@[0] != "u16"@[0]);
    assert(type_name_spec("int"@) == Ok::<Type, ErrorView>(Type::I32));
    assert(name_key("int32"@) =~= "int32"@);
    assert("int32"@[0] != "uchar"@[0]);
    assert("int32"@[0] != "uint8"@[0]);
    assert("int32"@[0] != "short"@[0]);
    assert("int32"@[3] != "int16"@[3]);
    assert(type_name_spec("int32"@) == Ok::<Type, ErrorView>(Type::I32));
    assert(name_key("int32_t"@) =~= "int32_t"@);
    assert("int32_t"@[0] != "uint8_t"@[0]);
    assert("int32_t"@[3] != "int16_t"@[3]);
    assert(type_name_spec("int32_t"@) == Ok::<Type, ErrorView>(Type::I32));
}

proof fn lemma_aliases_u32()
    ensures
        type_name_spec("u32"@) == Ok::<Type, ErrorView>(Type::U32),
        type_name_spec("uint"@) == Ok::<Type, ErrorView>(Type::U32),
        type_name_spec("uint32"@) == Ok::<Type, ErrorView>(Type::U32),
        type_name_spec("uint32_t"@) == Ok::<Type, ErrorView>(Type::U32),
{
    reveal_strlit("i8");
    reveal_strlit("char");
    reveal_strlit("int8");
    reveal_strlit("int8_t");
    reveal_strlit("u8");
    reveal_strlit("uchar");
    reveal_strlit("uint8");
    reveal_strlit("uint8_t");
    reveal_strlit("byte");
    reveal_strlit("i16");
    reveal_strlit("short");
    reveal_strlit("int16");
    reveal_strlit("int16_t");
    reveal_strlit("u16");
    reveal_strlit("ushort");
    reveal_strlit("uint16");
    reveal_strlit("uint16_t");
    reveal_strlit("i32");
    reveal_strlit("int");
    reveal_strlit("int32");
    reveal_strlit("int32_t");
    reveal_strlit("u32");
    reveal_strlit("uint");
    reveal_strlit("uint32");
    reveal_strlit("uint32_t");
    reveal_strlit("i64");
    reveal_strlit("long_long");
    reveal_strlit("int64");
    reveal_strlit("int64_t");
    reveal_strlit("u64");
    reveal_strlit("ulong_long");
    reveal_strlit("uint64");
    reveal_strlit("uint64_t");
    reveal_strlit("isize");
    reveal_strlit("ssize");
    reveal_strlit("ssize_t");
    reveal_strlit("long");
    reveal_strlit("usize");
    reveal_strlit("size");
    reveal_strlit("size_t");
    reveal_strlit("ulong");
    reveal_strlit("f32");
    reveal_strlit("float");
    reveal_strlit("f64");
    reveal_strlit("double");
    reveal_strlit("ptr");
    reveal_strlit("pointer");
    reveal_strlit("voidp");
    reveal_strlit("void*");
    reveal_strlit("cstr");
    reveal_strlit("string");
    reveal_strlit("str");
    reveal_strlit("char*");
    reveal_strlit("void");
    reveal_strlit("callback");
    reveal_strlit("func");
    reveal_strlit("function");
    assert(name_key("u32"@) =~= "u32"@);
    assert("u32"@[0] != "i16"@[0]);
    assert("u32"@[1] != "u16"@[1]);
    assert("u32"@[0] != "i32"@[0]);
    assert("u32"@[0] != "int"@[0]);
    assert(type_name_spec("u32"@) == Ok::<Type, ErrorView>(Type::U32));
    assert(name_key("uint"@) =~= "uint"@);
    assert("uint"@[0] != "char"@[0]);
    assert("uint"@[0] != "int8"@[0]);
    assert("uint"@[0] != "byte"@[0]);
    assert(type_name_spec("uint"@) == Ok::<Type, ErrorView>(Type::U32));
    assert(name_key("uint32"@) =~= "uint32"@);
    assert("uint32"@[0] != "int8_t"@[0]);
    assert("uint32"@[1] != "ushort"@[1]);
    assert("uint32"@[4] != "uint16"@[4]);
    assert(type_name_spec("uint32"@) == Ok::<Type, ErrorView>(Type::U32));
    assert(name_key("uint32_t"@) =~= "uint32_t"@);
    assert("uint32_t"@[4] != "uint16_t"@[4]);
    assert(type_name_spec("uint32_t"@) == Ok::<Type, ErrorView>(Type::U32));
}

proof fn lemma_aliases_i64()
    ensures
        type_name_spec("i64"@) == Ok::<Type, ErrorView>(Type::I64),
        type_name_spec("long_long"@) == Ok::<Type, ErrorView>(Type::I64),
        type_name_spec("int64"@) == Ok::<Type, ErrorView>(Type::I64),
        type_name_spec("int64_t"@) == Ok::<Type, ErrorView>(Type::I64),
{
    reveal_strlit("i8");
    reveal_strlit("char");
    reveal_strlit("int8");
    reveal_strlit("int8_t");
    reveal_strlit("u8");
    reveal_strlit("uchar");
    reveal_strlit("uint8");
    reveal_strlit("uint8_t");
    reveal_strlit("byte");
    reveal_strlit("i16");
    reveal_strlit("short");
    reveal_strlit("int16");
    reveal_strlit("int16_t");
    reveal_strlit("u16");
    reveal_strlit("ushort");
    reveal_strlit("uint16");
    reveal_strlit("uint16_t");
    reveal_strlit("i32");
    reveal_strlit("int");
    reveal_strlit("int32");
    reveal_strlit("int32_t");
    reveal_strlit("u32");
    reveal_strlit("uint");
    reveal_strlit("uint32");
    reveal_strlit("uint32_t");
    reveal_strlit("i64");
    reveal_strlit("long_long");
    reveal_strlit("int64");
    reveal_strlit("int64_t");
    reveal_strlit("u64");
    reveal_strlit("ulong_long");
    reveal_strlit("uint64");
    reveal_strlit("uint64_t");
    reveal_strlit("isize");
    reveal_strlit("ssize");
    reveal_strlit("ssize_t");
    reveal_strlit("long");
    reveal_strlit("usize");
    reveal_strlit("size");
    reveal_strlit("size_t");
    reveal_strlit("ulong");
    reveal_strlit("f32");
    reveal_strlit("float");
    reveal_strlit("f64");
    reveal_strlit("double");
    reveal_strlit("ptr");
    reveal_strlit("pointer");
    reveal_strlit("voidp");
    reveal_strlit("void*");
    reveal_strlit("cstr");
    reveal_strlit("string");
    reveal_strlit("str");
    reveal_strlit("char*");
    reveal_strlit("void");
    reveal_strlit("callback");
    reveal_strlit("func");
    reveal_strlit("function");
    assert(name_key("i64"@) =~= "i64"@);
    assert("i64"@[1] != "i16"@[1]);
    assert("i64"@[0] != "u16"@[0]);
    assert("i64"@[1] != "i32"@[1]);
    assert("i64"@[1] != "int"@[1]);
    assert("i64"@[0] != "u32"@[0]);
    assert(type_name_spec("i64"@) == Ok::<Type, ErrorView>(Type::I64));
    assert(name_key("long_long"@) =~= "long_long"@);
    assert(type_name_spec("long_long"@) == Ok::<Type, ErrorView>(Type::I64));
    assert(name_key("int64"@) =~= "int64"@);
    assert("int64"@[0] != "uchar"@[0]);
    assert("int64"@[0] != "uint8"@[0]);
    assert("int64"@[0] != "short"@[0]);
    assert("int64"@[3] != "int16"@[3]);
    assert("int64"@[3] != "int32"@[3]);
    assert(type_name_spec("int64"@) == Ok::<Type, ErrorView>(Type::I64));
    assert(name_key("int64_t"@) =~= "int64_t"@);
    assert("int64_t"@[0] != "uint8_t"@[0]);
    assert("int64_t"@[3] != "int16_t"@[3]);
    assert("int64_t"@[3] != "int32_t"@[3]);
    assert(type_name_spec("int64_t"@) == Ok::<Type, ErrorView>(Type::I64));
}

proof fn lemma_aliases_u64()
    ensures
        type_name_spec("u64"@) == Ok::<Type, ErrorView>(Type::U64),
        type_name_spec("ulong_long"@) == Ok::<Type, ErrorView>(Type::U64),
        type_name_spec("uint64"@) == Ok::<Type, ErrorView>(Type::U64),
        type_name_spec("uint64_t"@) == Ok::<Type, ErrorView>(Type::U64),
{
    reveal_strlit("i8");
    reveal_strlit("char");
    reveal_strlit("int8");
    reveal_strlit("int8_t");
    reveal_strlit("u8");
    reveal_strlit("uchar");
    reveal_strlit("uint8");
    reveal_strlit("uint8_t");
    reveal_strlit("byte");
    reveal_strlit("i16");
    reveal_strlit("short");
    reveal_strlit("int16");
    reveal_strlit("int16_t");
    reveal_strlit("u16");
    reveal_strlit("ushort");
    reveal_strlit("uint16");
    reveal_strlit("uint16_t");
    reveal_strlit("i32");
    reveal_strlit("int");
    reveal_strlit("int32");
    reveal_strlit("int32_t");
    reveal_strlit("u32");
    reveal_strlit("uint");
    reveal_strlit("uint32");
    reveal_strlit("uint32_t");
    reveal_strlit("i64");
    reveal_strlit("long_long");
    reveal_strlit("int64");
    reveal_strlit("int64_t");
    reveal_strlit("u64");
    reveal_strlit("ulong_long");
    reveal_strlit("uint64");
    reveal_strlit("uint64_t");
    reveal_strlit("isize");
    reveal_strlit("ssize");
    reveal_strlit("ssize_t");
    reveal_strlit("long");
    reveal_strlit("usize");
    reveal_strlit("size");
    reveal_strlit("size_t");
    reveal_strlit("ulong");
    reveal_strlit("f32");
    reveal_strlit("float");
    reveal_strlit("f64");
    reveal_strlit("double");
    reveal_strlit("ptr");
    reveal_strlit("pointer");
    reveal_strlit("voidp");
    reveal_strlit("void*");
    reveal_strlit("cstr");
    reveal_strlit("string");
    reveal_strlit("str");
    reveal_strlit("char*");
    reveal_strlit("void");
    reveal_strlit("callback");
    reveal_strlit("func");
    reveal_strlit("function");
    assert(name_key("u64"@) =~= "u64"@);
    assert("u64"@[0] != "i16"@[0]);
    assert("u64"@[1] != "u16"@[1]);
    assert("u64"@[0] != "i32"@[0]);
    assert("u64"@[0] != "int"@[0]);
    assert("u64"@[1] != "u32"@[1]);
    assert("u64"@[0] != "i64"@[0]);
    assert(type_name_spec("u64"@) == Ok::<Type, ErrorView>(Type::U64));
    assert(name_key("ulong_long"@) =~= "ulong_long"@);
    assert(type_name_spec("ulong_long"@) == Ok::<Type, ErrorView>(Type::U64));
    assert(name_key("uint64"@) =~= "uint64"@);
    assert("uint64"@[0] != "int8_t"@[0]);
    assert("uint64"@[1] != "ushort"@[1]);
    assert("uint64"@[4] != "uint16"@[4]);
    assert("uint64"@[4] != "uint32"@[4]);
    assert(type_name_spec("uint64"@) == Ok::<Type, ErrorView>(Type::U64));
    assert(name_key("uint64_t"@) =~= "uint64_t"@);
    assert("uint64_t"@[4] != "uint16_t"@[4]);
    assert("uint64_t"@[4] != "uint32_t"@[4]);
    assert(type_name_spec("uint64_t"@) == Ok::<Type, ErrorView>(Type::U64));
}

proof fn lemma_aliases_isize()
    ensures
        type_name_spec("isize"@) == Ok::<Type, ErrorView>(Type::Isize),
        type_name_spec("ssize"@) == Ok::<Type, ErrorView>(Type::Isize),
        type_name_spec("ssize_t"@) == Ok::<Type, ErrorView>(Type::Isize),
        type_name_spec("long"@) == Ok::<Type, ErrorView>(Type::Isize),
{
    reveal_strlit("i8");
    reveal_strlit("char");
    reveal_strlit("int8");
    reveal_strlit("int8_t");
    reveal_strlit("u8");
    reveal_strlit("uchar");
    reveal_strlit("uint8");
    reveal_strlit("uint8_t");
    reveal_strlit("byte");
    reveal_strlit("i16");
    reveal_strlit("short");
    reveal_strlit("int16");
    reveal_strlit("int16_t");
    reveal_strlit("u16");
    reveal_strlit("ushort");
    reveal_strlit("uint16");
    reveal_strlit("uint16_t");
    reveal_strlit("i32");
    reveal_strlit("int");
    reveal_strlit("int32");
    reveal_strlit("int32_t");
    reveal_strlit("u32");
    reveal_strlit("uint");
    reveal_strlit("uint32");
    reveal_strlit("uint32_t");
    reveal_strlit("i64");
    reveal_strlit("long_long");
    reveal_strlit("int64");
    reveal_strlit("int64_t");
    reveal_strlit("u64");
    reveal_strlit("ulong_long");
    reveal_strlit("uint64");
    reveal_strlit("uint64_t");
    reveal_strlit("isize");
    reveal_strlit("ssize");
    reveal_strlit("ssize_t");
    reveal_strlit("long");
    reveal_strlit("usize");
    reveal_strlit("size");
    reveal_strlit("size_t");
    reveal_strlit("ulong");
    reveal_strlit("f32");
    reveal_strlit("float");
    reveal_strlit("f64");
    reveal_strlit("double");
    reveal_strlit("ptr");
    reveal_strlit("pointer");
    reveal_strlit("voidp");
    reveal_strlit("void*");
    reveal_strlit("cstr");
    reveal_strlit("string");
    reveal_strlit("str");
    reveal_strlit("char*");
    reveal_strlit("void");
    reveal_strlit("callback");
    reveal_strlit("func");
    reveal_strlit("function");
    assert(name_key("isize"@) =~= "isize"@);
    assert("isize"@[0] != "uchar"@[0]);
    assert("isize"@[0] != "uint8"@[0]);
    assert("isize"@[0] != "short"@[0]);
    assert("isize"@[1] != "int16"@[1]);
    assert("isize"@[1] != "int32"@[1]);
    assert("isize"@[1] != "int64"@[1]);
    assert(type_name_spec("isize"@) == Ok::<Type, ErrorView>(Type::Isize));
    assert(name_key("ssize"@) =~= "ssize"@);
    assert("ssize"@[0] != "uchar"@[0]);
    assert("ssize"@[0] != "uint8"@[0]);
    assert("ssize"@[1] != "short"@[1]);
    assert("ssize"@[0] != "int16"@[0]);
    assert("ssize"@[0] != "int32"@[0]);
    assert("ssize"@[0] != "int64"@[0]);
    assert(type_name_spec("ssize"@) == Ok::<Type, ErrorView>(Type::Isize));
    assert(name_key("ssize_t"@) =~= "ssize_t"@);
    assert("ssize_t"@[0] != "uint8_t"@[0]);
    assert("ssize_t"@[0] != "int16_t"@[0]);
    assert("ssize_t"@[0] != "int32_t"@[0]);
    assert("ssize_t"@[0] != "int64_t"@[0]);
    assert(type_name_spec("ssize_t"@) == Ok::<Type, ErrorView>(Type::Isize));
    assert(name_key("long"@) =~= "long"@);
    assert("long"@[0] != "char"@[0]);
    assert("long"@[0] != "int8"@[0]);
    assert("long"@[0] != "byte"@[0]);
    assert("long"@[0] != "uint"@[0]);
    assert(type_name_spec("long"@) == Ok::<Type, ErrorView>(Type::Isize));
}

proof fn lemma_aliases_usize()
    ensures
        type_name_spec("usize"@) == Ok::<Type, ErrorView>(Type::Usize),
        type_name_spec("size"@) == Ok::<Type, ErrorView>(Type::Usize),
        type_name_spec("size_t"@) == Ok::<Type, ErrorView>(Type::Usize),
        type_name_spec("ulong"@) == Ok::<Type, ErrorView>(Type::Usize),
{
    reveal_strlit("i8");
    reveal_strlit("char");
    reveal_strlit("int8");
    reveal_strlit("int8_t");
    reveal_strlit("u8");
    reveal_strlit("uchar");
    reveal_strlit("uint8");
    reveal_strlit("uint8_t");
    reveal_strlit("byte");
    reveal_strlit("i16");
    reveal_strlit("short");
    reveal_strlit("int16");
    reveal_strlit("int16_t");
    reveal_strlit("u16");
    reveal_strlit("ushort");
    reveal_strlit("uint16");
    reveal_strlit("uint16_t");
    reveal_strlit("i32");
    reveal_strlit("int");
    reveal_strlit("int32");
    reveal_strlit("int32_t");
    reveal_strlit("u32");
    reveal_strlit("uint");
    reveal_strlit("uint32");
    reveal_strlit("uint32_t");
    reveal_strlit("i64");
    reveal_strlit("long_long");
    reveal_strlit("int64");
    reveal_strlit("int64_t");
    reveal_strlit("u64");
    reveal_strlit("ulong_long");
    reveal_strlit("uint64");
    reveal_strlit("uint64_t");
    reveal_strlit("isize");
    reveal_strlit("ssize");
    reveal_strlit("ssize_t");
    reveal_strlit("long");
    reveal_strlit("usize");
    reveal_strlit("size");
    reveal_strlit("size_t");
    reveal_strlit("ulong");
    reveal_strlit("f32");
    reveal_strlit("float");
    reveal_strlit("f64");
    reveal_strlit("double");
    reveal_strlit("ptr");
    reveal_strlit("pointer");
    reveal_strlit("voidp");
    reveal_strlit("void*");
    reveal_strlit("cstr");
    reveal_strlit("string");
    reveal_strlit("str");
    reveal_strlit("char*");
    reveal_strlit("void");
    reveal_strlit("callback");
    reveal_strlit("func");
    reveal_strlit("function");
    assert(name_key("usize"@) =~= "usize"@);
    assert("usize"@[1] != "uchar"@[1]);
    assert("usize"@[1] != "uint8"@[1]);
    assert("usize"@[0] != "short"@[0]);
    assert("usize"@[0] != "int16"@[0]);
    assert("usize"@[0] != "int32"@[0]);
    assert("usize"@[0] != "int64"@[0]);
    assert("usize"@[0] != "isize"@[0]);
    assert("usize"@[0] != "ssize"@[0]);
    assert(type_name_spec("usize"@) == Ok::<Type, ErrorView>(Type::Usize));
    assert(name_key("size"@) =~= "size"@);
    assert("size"@[0] != "char"@[0]);
    assert("size"@[0] != "int8"@[0]);
    assert("size"@[0] != "byte"@[0]);
    assert("size"@[0] != "uint"@[0]);
    assert("size"@[0] != "long"@[0]);
    assert(type_name_spec("size"@) == Ok::<Type, ErrorView>(Type::Usize));
    assert(name_key("size_t"@) =~= "size_t"@);
    assert("size_t"@[0] != "int8_t"@[0]);
    assert("size_t"@[0] != "ushort"@[0]);
    assert("size_t"@[0] != "uint16"@[0]);
    assert("size_t"@[0] != "uint32"@[0]);
    assert("size_t"@[0] != "uint64"@[0]);
    assert(type_name_spec("size_t"@) == Ok::<Type, ErrorView>(Type::Usize));
    assert(name_key("ulong"@) =~= "ulong"@);
    assert("ulong"@[1] != "uchar"@[1]);
    assert("ulong"@[1] != "uint8"@[1]);
    assert("ulong"@[0] != "short"@[0]);
    assert("ulong"@[0] != "int16"@[0]);
    assert("ulong"@[0] != "int32"@[0]);
    assert("ulong"@[0] != "int64"@[0]);
    assert("ulong"@[0] != "isize"@[0]);
    assert("ulong"@[0] != "ssize"@[0]);
    assert(type_name_spec("ulong"@) == Ok::<Type, ErrorView>(Type::Usize));
}

proof fn lemma_aliases_f32()
    ensures
        type_name_spec("f32"@) == Ok::<Type, ErrorView>(Type::F32),
        type_name_spec("float"@) == Ok::<Type, ErrorView>(Type::F32),
{
    reveal_strlit("i8");
    reveal_strlit("char");
    reveal_strlit("int8");
    reveal_strlit("int8_t");
    reveal_strlit("u8");
    reveal_strlit("uchar");
    reveal_strlit("uint8");
    reveal_strlit("uint8_t");
    reveal_strlit("byte");
    reveal_strlit("i16");
    reveal_strlit("short");
    reveal_strlit("int16");
    reveal_strlit("int16_t");
    reveal_strlit("u16");
    reveal_strlit("ushort");
    reveal_strlit("uint16");
    reveal_strlit("uint16_t");
    reveal_strlit("i32");
    reveal_strlit("int");
    reveal_strlit("int32");
    reveal_strlit("int32_t");
    reveal_strlit("u32");
    reveal_strlit("uint");
    reveal_strlit("uint32");
    reveal_strlit("uint32_t");
    reveal_strlit("i64");
    reveal_strlit("long_long");
    reveal_strlit("int64");
    reveal_strlit("int64_t");
    reveal_strlit("u64");
    reveal_strlit("ulong_long");
    reveal_strlit("uint64");
    reveal_strlit("uint64_t");
    reveal_strlit("isize");
    reveal_strlit("ssize");
    reveal_strlit("ssize_t");
    reveal_strlit("long");
    reveal_strlit("usize");
    reveal_strlit("size");
    reveal_strlit("size_t");
    reveal_strlit("ulong");
    reveal_strlit("f32");
    reveal_strlit("float");
    reveal_strlit("f64");
    reveal_strlit("double");
    reveal_strlit("ptr");
    reveal_strlit("pointer");
    reveal_strlit("voidp");
    reveal_strlit("void*");
    reveal_strlit("cstr");
    reveal_strlit("string");
    reveal_strlit("str");
    reveal_strlit("char*");
    reveal_strlit("void");
    reveal_strlit("callback");
    reveal_strlit("func");
    reveal_strlit("function");
    assert(name_key("f32"@) =~= "f32"@);
    assert("f32"@[0] != "i16"@[0]);
    assert("f32"@[0] != "u16"@[0]);
    assert("f32"@[0] != "i32"@[0]);
    assert("f32"@[0] != "int"@[0]);
    assert("f32"@[0] != "u32"@[0]);
    assert("f32"@[0] != "i64"@[0]);
    assert("f32"@[0] != "u64"@[0]);
    assert(type_name_spec("f32"@) == Ok::<Type, ErrorView>(Type::F32));
    assert(name_key("float"@) =~= "float"@);
    assert("float"@[0] != "uchar"@[0]);
    assert("float"@[0] != "uint8"@[0]);
    assert("float"@[0] != "short"@[0]);
    assert("float"@[0] != "int16"@[0]);
    assert("float"@[0] != "int32"@[0]);
    assert("float"@[0] != "int64"@[0]);
    assert("float"@[0] != "isize"@[0]);
    assert("float"@[0] != "ssize"@[0]);
    assert("float"@[0] != "usize"@[0]);
    assert("float"@[0] != "ulong"@[0]);
    assert(type_name_spec("float"@) == Ok::<Type, ErrorView>(Type::F32));
}

proof fn lemma_aliases_f64()
    ensures
        type_name_spec("f64"@) == Ok::<Type, ErrorView>(Type::F64),
        type_name_spec("double"@) == Ok::<Type, ErrorView>(Type::F64),
{
    reveal_strlit("i8");
    reveal_strlit("char");
    reveal_strlit("int8");
    reveal_strlit("int8_t");
    reveal_strlit("u8");
    reveal_strlit("uchar");
    reveal_strlit("uint8");
    reveal_strlit("uint8_t");
    reveal_strlit("byte");
    reveal_strlit("i16");
    reveal_strlit("short");
    reveal_strlit("int16");
    reveal_strlit("int16_t");
    reveal_strlit("u16");
    reveal_strlit("ushort");
    reveal_strlit("uint16");
    reveal_strlit("uint16_t");
    reveal_strlit("i32");
    reveal_strlit("int");
    reveal_strlit("int32");
    reveal_strlit("int32_t");
    reveal_strlit("u32");
    reveal_strlit("uint");
    reveal_strlit("uint32");
    reveal_strlit("uint32_t");
    reveal_strlit("i64");
    reveal_strlit("long_long");
    reveal_strlit("int64");
    reveal_strlit("int64_t");
    reveal_strlit("u64");
    reveal_strlit("ulong_long");
    reveal_strlit("uint64");
    reveal_strlit("uint64_t");
    reveal_strlit("isize");
    reveal_strlit("ssize");
    reveal_strlit("ssize_t");
    reveal_strlit("long");
    reveal_strlit("usize");
    reveal_strlit("size");
    reveal_strlit("size_t");
    reveal_strlit("ulong");
    reveal_strlit("f32");
    reveal_strlit("float");
    reveal_strlit("f64");
    reveal_strlit("double");
    reveal_strlit("ptr");
    reveal_strlit("pointer");
    reveal_strlit("voidp");
    reveal_strlit("void*");
    reveal_strlit("cstr");
    reveal_strlit("string");
    reveal_strlit("str");
    reveal_strlit("char*");
    reveal_strlit("void");
    reveal_strlit("callback");
    reveal_strlit("func");
    reveal_strlit("function");
    assert(name_key("f64"@) =~= "f64"@);
    assert("f64"@[0] != "i16"@[0]);
    assert("f64"@[0] != "u16"@[0]);
    assert("f64"@[0] != "i32"@[0]);
    assert("f64"@[0] != "int"@[0]);
    assert("f64"@[0] != "u32"@[0]);
    assert("f64"@[0] != "i64"@[0]);
    assert("f64"@[0] != "u64"@[0]);
    assert("f64"@[1] != "f32"@[1]);
    assert(type_name_spec("f64"@) == Ok::<Type, ErrorView>(Type::F64));
    assert(name_key("double"@) =~= "double"@);
    assert("double"@[0] != "int8_t"@[0]);
    assert("double"@[0] != "ushort"@[0]);
    assert("double"@[0] != "uint16"@[0]);
    assert("double"@[0] != "uint32"@[0]);
    assert("double"@[0] != "uint64"@[0]);
    assert("double"@[0] != "size_t"@[0]);
    assert(type_name_spec("double"@) == Ok::<Type, ErrorView>(Type::F64));
}

proof fn lemma_aliases_ptr()
    ensures
        type_name_spec("ptr"@) == Ok::<Type, ErrorView>(Type::Ptr),
        type_name_spec("pointer"@) == Ok::<Type, ErrorView>(Type::Ptr),
        type_name_spec("voidp"@) == Ok::<Type, ErrorView>(Type::Ptr),
        type_name_spec("void*"@) == Ok::<Type, ErrorView>(Type::Ptr),
{
    reveal_strlit("i8");
    reveal_strlit("char");
    reveal_strlit("int8");
    reveal_strlit("int8_t");
    reveal_strlit("u8");
    reveal_strlit("uchar");
    reveal_strlit("uint8");
    reveal_strlit("uint8_t");
    reveal_strlit("byte");
    reveal_strlit("i16");
    reveal_strlit("short");
    reveal_strlit("int16");
    reveal_strlit("int16_t");
    reveal_strlit("u16");
    reveal_strlit("ushort");
    reveal_strlit("uint16");
    reveal_strlit("uint16_t");
    reveal_strlit("i32");
    reveal_strlit("int");
    reveal_strlit("int32");
    reveal_strlit("int32_t");
    reveal_strlit("u32");
    reveal_strlit("uint");
    reveal_strlit("uint32");
    reveal_strlit("uint32_t");
    reveal_strlit("i64");
    reveal_strlit("long_long");
    reveal_strlit("int64");
    reveal_strlit("int64_t");
    reveal_strlit("u64");
    reveal_strlit("ulong_long");
    reveal_strlit("uint64");
    reveal_strlit("uint64_t");
    reveal_strlit("isize");
    reveal_strlit("ssize");
    reveal_strlit("ssize_t");
    reveal_strlit("long");
    reveal_strlit("usize");
    reveal_strlit("size");
    reveal_strlit("size_t");
    reveal_strlit("ulong");
    reveal_strlit("f32");
    reveal_strlit("float");
    reveal_strlit("f64");
    reveal_strlit("double");
    reveal_strlit("ptr");
    reveal_strlit("pointer");
    reveal_strlit("voidp");
    reveal_strlit("void*");
    reveal_strlit("cstr");
    reveal_strlit("string");
    reveal_strlit("str");
    reveal_strlit("char*");
    reveal_strlit("void");
    reveal_strlit("callback");
    reveal_strlit("func");
    reveal_strlit("function");
    assert(name_key("ptr"@) =~= "ptr"@);
    assert("ptr"@[0] != "i16"@[0]);
    assert("ptr"@[0] != "u16"@[0]);
    assert("ptr"@[0] != "i32"@[0]);
    assert("ptr"@[0] != "int"@[0]);
    assert("ptr"@[0] != "u32"@[0]);
    assert("ptr"@[0] != "i64"@[0]);
    assert("ptr"@[0] != "u64"@[0]);
    assert("ptr"@[0] != "f32"@[0]);
    assert("ptr"@[0] != "f64"@[0]);
    assert(type_name_spec("ptr"@) == Ok::<Type, ErrorView>(Type::Ptr));
    assert(name_key("pointer"@) =~= "pointer"@);
    assert("pointer"@[0] != "uint8_t"@[0]);
    assert("pointer"@[0] != "int16_t"@[0]);
    assert("pointer"@[0] != "int32_t"@[0]);
    assert("pointer"@[0] != "int64_t"@[0]);
    assert("pointer"@[0] != "ssize_t"@[0]);
    assert(type_name_spec("pointer"@) == Ok::<Type, ErrorView>(Type::Ptr));
    assert(name_key("voidp"@) =~= "voidp"@);
    assert("voidp"@[0] != "uchar"@[0]);
    assert("voidp"@[0] != "uint8"@[0]);
    assert("voidp"@[0] != "short"@[0]);
    assert("voidp"@[0] != "int16"@[0]);
    assert("voidp"@[0] != "int32"@[0]);
    assert("voidp"@[0] != "int64"@[0]);
    assert("voidp"@[0] != "isize"@[0]);
    assert("voidp"@[0] != "ssize"@[0]);
    assert("voidp"@[0] != "usize"@[0]);
    assert("voidp"@[0] != "ulong"@[0]);
    assert("voidp"@[0] != "float"@[0]);
    assert(type_name_spec("voidp"@) == Ok::<Type, ErrorView>(Type::Ptr));
    assert(name_key("void*"@) =~= "void*"@);
    assert("void*"@[0] != "uchar"@[0]);
    assert("void*"@[0] != "uint8"@[0]);
    assert("void*"@[0] != "short"@[0]);
    assert("void*"@[0] != "int16"@[0]);
    assert("void*"@[0] != "int32"@[0]);
    assert("void*"@[0] != "int64"@[0]);
    assert("void*"@[0] != "isize"@[0]);
    assert("void*"@[0] != "ssize"@[0]);
    assert("void*"@[0] != "usize"@[0]);
    assert("void*"@[0] != "ulong"@[0]);
    assert("void*"@[0] != "float"@[0]);
    assert(type_name_spec("void*"@) == Ok::<Type, ErrorView>(Type::Ptr));
}

proof fn lemma_aliases_cstr()
    ensures
        type_name_spec("cstr"@) == Ok::<Type, ErrorView>(Type::CStr),
        type_name_spec("string"@) == Ok::<Type, ErrorView>(Type::CStr),
        type_name_spec("str"@) == Ok::<Type, ErrorView>(Type::CStr),
        type_name_spec("char*"@) == Ok::<Type, ErrorView>(Type::CStr),
{
    reveal_strlit("i8");
    reveal_strlit("char");
    reveal_strlit("int8");
    reveal_strlit("int8_t");
    reveal_strlit("u8");
    reveal_strlit("uchar");
    reveal_strlit("uint8");
    reveal_strlit("uint8_t");
    reveal_strlit("byte");
    reveal_strlit("i16");
    reveal_strlit("short");
    reveal_strlit("int16");
    reveal_strlit("int16_t");
    reveal_strlit("u16");
    reveal_strlit("ushort");
    reveal_strlit("uint16");
    reveal_strlit("uint16_t");
    reveal_strlit("i32");
    reveal_strlit("int");
    reveal_strlit("int32");
    reveal_strlit("int32_t");
    reveal_strlit("u32");
    reveal_strlit("uint");
    reveal_strlit("uint32");
    reveal_strlit("uint32_t");
    reveal_strlit("i64");
    reveal_strlit("long_long");
    reveal_strlit("int64");
    reveal_strlit("int64_t");
    reveal_strlit("u64");
    reveal_strlit("ulong_long");
    reveal_strlit("uint64");
    reveal_strlit("uint64_t");
    reveal_strlit("isize");
    reveal_strlit("ssize");
    reveal_strlit("ssize_t");
    reveal_strlit("long");
    reveal_strlit("usize");
    reveal_strlit("size");
    reveal_strlit("size_t");
    reveal_strlit("ulong");
    reveal_strlit("f32");
    reveal_strlit("float");
    reveal_strlit("f64");
    reveal_strlit("double");
    reveal_strlit("ptr");
    reveal_strlit("pointer");
    reveal_strlit("voidp");
    reveal_strlit("void*");
    reveal_strlit("cstr");
    reveal_strlit("string");
    reveal_strlit("str");
    reveal_strlit("char*");
    reveal_strlit("void");
    reveal_strlit("callback");
    reveal_strlit("func");
    reveal_strlit("function");
    assert(name_key("cstr"@) =~= "cstr"@);
    assert("cstr"@[1] != "char"@[1]);
    assert("cstr"@[0] != "int8"@[0]);
    assert("cstr"@[0] != "byte"@[0]);
    assert("cstr"@[0] != "uint"@[0]);
    assert("cstr"@[0] != "long"@[0]);
    assert("cstr"@[0] != "size"@[0]);
    assert(type_name_spec("cstr"@) == Ok::<Type, ErrorView>(Type::CStr));
    assert(name_key("string"@) =~= "string"@);
    assert("string"@[0] != "int8_t"@[0]);
    assert("string"@[0] != "ushort"@[0]);
    assert("string"@[0] != "uint16"@[0]);
    assert("string"@[0] != "uint32"@[0]);
    assert("string"@[0] != "uint64"@[0]);
    assert("string"@[1] != "size_t"@[1]);
    assert("string"@[0] != "double"@[0]);
    assert(type_name_spec("string"@) == Ok::<Type, ErrorView>(Type::CStr));
    assert(name_key("str"@) =~= "str"@);
    assert("str"@[0] != "i16"@[0]);
    assert("str"@[0] != "u16"@[0]);
    assert("str"@[0] != "i32"@[0]);
    assert("str"@[0] != "int"@[0]);
    assert("str"@[0] != "u32"@[0]);
    assert("str"@[0] != "i64"@[0]);
    assert("str"@[0] != "u64"@[0]);
    assert("str"@[0] != "f32"@[0]);
    assert("str"@[0] != "f64"@[0]);
    assert("str"@[0] != "ptr"@[0]);
    assert(type_name_spec("str"@) == Ok::<Type, ErrorView>(Type::CStr));
    assert(name_key("char*"@) =~= "char*"@);
    assert("char*"@[0] != "uchar"@[0]);
    assert("char*"@[0] != "uint8"@[0]);
    assert("char*"@[0] != "short"@[0]);
    assert("char*"@[0] != "int16"@[0]);
    assert("char*"@[0] != "int32"@[0]);
    assert("char*"@[0] != "int64"@[0]);
    assert("char*"@[0] != "isize"@[0]);
    assert("char*"@[0] != "ssize"@[0]);
    assert("char*"@[0] != "usize"@[0]);
    assert("char*"@[0] != "ulong"@[0]);
    assert("char*"@[0] != "float"@[0]);
    assert("char*"@[0] != "voidp"@[0]);
    assert("char*"@[0] != "void*"@[0]);
    assert(type_name_spec("char*"@) == Ok::<Type, ErrorView>(Type::CStr));
}

proof fn lemma_aliases_void()
    ensures
        type_name_spec("void"@) == Ok::<Type, ErrorView>(Type::Void),
{
    reveal_strlit("i8");
    reveal_strlit("char");
    reveal_strlit("int8");
    reveal_strlit("int8_t");
    reveal_strlit("u8");
    reveal_strlit("uchar");
    reveal_strlit("uint8");
    reveal_strlit("uint8_t");
    reveal_strlit("byte");
    reveal_strlit("i16");
    reveal_strlit("short");
    reveal_strlit("int16");
    reveal_strlit("int16_t");
    reveal_strlit("u16");
    reveal_strlit("ushort");
    reveal_strlit("uint16");
    reveal_strlit("uint16_t");
    reveal_strlit("i32");
    reveal_strlit("int");
    reveal_strlit("int32");
    reveal_strlit("int32_t");
    reveal_strlit("u32");
    reveal_strlit("uint");
    reveal_strlit("uint32");
    reveal_strlit("uint32_t");
    reveal_strlit("i64");
    reveal_strlit("long_long");
    reveal_strlit("int64");
    reveal_strlit("int64_t");
    reveal_strlit("u64");
    reveal_strlit("ulong_long");
    reveal_strlit("uint64");
    reveal_strlit("uint64_t");
    reveal_strlit("isize");
    reveal_strlit("ssize");
    reveal_strlit("ssize_t");
    reveal_strlit("long");
    reveal_strlit("usize");
    reveal_strlit("size");
    reveal_strlit("size_t");
    reveal_strlit("ulong");
    reveal_strlit("f32");
    reveal_strlit("float");
    reveal_strlit("f64");
    reveal_strlit("double");
    reveal_strlit("ptr");
    reveal_strlit("pointer");
    reveal_strlit("voidp");
    reveal_strlit("void*");
    reveal_strlit("cstr");
    reveal_strlit("string");
    reveal_strlit("str");
    reveal_strlit("char*");
    reveal_strlit("void");
    reveal_strlit("callback");
    reveal_strlit("func");
    reveal_strlit("function");
    assert(name_key("void"@) =~= "void"@);
    assert("void"@[0] != "char"@[0]);
    assert("void"@[0] != "int8"@[0]);
    assert("void"@[0] != "byte"@[0]);
    assert("void"@[0] != "uint"@[0]);
    assert("void"@[0] != "long"@[0]);
    assert("void"@[0] != "size"@[0]);
    assert("void"@[0] != "cstr"@[0]);
    assert(type_name_spec("void"@) == Ok::<Type, ErrorView>(Type::Void));
}

proof fn lemma_aliases_callback()
    ensures
        type_name_spec("callback"@) == Ok::<Type, ErrorView>(Type::Callback),
        type_name_spec("func"@) == Ok::<Type, ErrorView>(Type::Callback),
        type_name_spec("function"@) == Ok::<Type, ErrorView>(Type::Callback),
{
    reveal_strlit("i8");
    reveal_strlit("char");
    reveal_strlit("int8");
    reveal_strlit("int8_t");
    reveal_strlit("u8");
    reveal_strlit("uchar");
    reveal_strlit("uint8");
    reveal_strlit("uint8_t");
    reveal_strlit("byte");
    reveal_strlit("i16");
    reveal_strlit("short");
    reveal_strlit("int16");
    reveal_strlit("int16_t");
    reveal_strlit("u16");
    reveal_strlit("ushort");
    reveal_strlit("uint16");
    reveal_strlit("uint16_t");
    reveal_strlit("i32");
    reveal_strlit("int");
    reveal_strlit("int32");
    reveal_strlit("int32_t");
    reveal_strlit("u32");
    reveal_strlit("uint");
    reveal_strlit("uint32");
    reveal_strlit("uint32_t");
    reveal_strlit("i64");
    reveal_strlit("long_long");
    reveal_strlit("int64");
    reveal_strlit("int64_t");
    reveal_strlit("u64");
    reveal_strlit("ulong_long");
    reveal_strlit("uint64");
    reveal_strlit("uint64_t");
    reveal_strlit("isize");
    reveal_strlit("ssize");
    reveal_strlit("ssize_t");
    reveal_strlit("long");
    reveal_strlit("usize");
    reveal_strlit("size");
    reveal_strlit("size_t");
    reveal_strlit("ulong");
    reveal_strlit("f32");
    reveal_strlit("float");
    reveal_strlit("f64");
    reveal_strlit("double");
    reveal_strlit("ptr");
    reveal_strlit("pointer");
    reveal_strlit("voidp");
    reveal_strlit("void*");
    reveal_strlit("cstr");
    reveal_strlit("string");
    reveal_strlit("str");
    reveal_strlit("char*");
    reveal_strlit("void");
    reveal_strlit("callback");
    reveal_strlit("func");
    reveal_strlit("function");
    assert(name_key("callback"@) =~= "callback"@);
    assert("callback"@[0] != "uint16_t"@[0]);
    assert("callback"@[0] != "uint32_t"@[0]);
    assert("callback"@[0] != "uint64_t"@[0]);
    assert(type_name_spec("callback"@) == Ok::<Type, ErrorView>(Type::Callback));
    assert(name_key("func"@) =~= "func"@);
    assert("func"@[0] != "char"@[0]);
    assert("func"@[0] != "int8"@[0]);
    assert("func"@[0] != "byte"@[0]);
    assert("func"@[0] != "uint"@[0]);
    assert("func"@[0] != "long"@[0]);
    assert("func"@[0] != "size"@[0]);
    assert("func"@[0] != "cstr"@[0]);
    assert("func"@[0] != "void"@[0]);
    assert(type_name_spec("func"@) == Ok::<Type, ErrorView>(Type::Callback));
    assert(name_key("function"@) =~= "function"@);
    assert("function"@[0] != "uint16_t"@[0]);
    assert("function"@[0] != "uint32_t"@[0]);
    assert("function"@[0] != "uint64_t"@[0]);
    assert(type_name_spec("function"@) == Ok::<Type, ErrorView>(Type::Callback));
}

/// Only the names of the type table are read as types: a name whose
/// case-folded form is none of them is refused.
pub proof fn law_only_table_names(n: Seq<char>)
    ensures
        type_name_spec(n) is Ok ==> {
            let k = name_key(n);
            k == "i8"@ || k == "char"@ || k == "int8"@ || k == "int8_t"@ || k == "u8"@ || k == "uchar"@
            || k == "uint8"@ || k == "uint8_t"@ || k == "byte"@ || k == "i16"@ || k == "short"@ || k == "int16"@
            || k == "int16_t"@ || k == "u16"@ || k == "ushort"@ || k == "uint16"@ || k == "uint16_t"@ || k == "i32"@
            || k == "int"@ || k == "int32"@ || k == "int32_t"@ || k == "u32"@ || k == "uint"@ || k == "uint32"@
            || k == "uint32_t"@ || k == "i64"@ || k == "long_long"@ || k == "int64"@ || k == "int64_t"@ || k == "u64"@
            || k == "ulong_long"@ || k == "uint64"@ || k == "uint64_t"@ || k == "isize"@ || k == "ssize"@ || k == "ssize_t"@
            || k == "long"@ || k == "usize"@ || k == "size"@ || k == "size_t"@ || k == "ulong"@ || k == "f32"@
            || k == "float"@ || k == "f64"@ || k == "double"@ || k == "ptr"@ || k == "pointer"@ || k == "voidp"@
            || k == "void*"@ || k == "cstr"@ || k == "string"@ || k == "str"@ || k == "char*"@ || k == "void"@
            || k == "callback"@ || k == "func"@ || k == "function"@
        },
{
}

fn defaults_vec(t: Type, n: usize) -> (r: Vec<Value>)
    requires
        t != Type::Void,
        t != Type::Callback,
    ensures
        values_view(r@) == defaults(t, n as nat),
{
    let mut r: Vec<Value> = Vec::new();
    let mut i: usize = 0;
    while i < n
        invariant
            i <= n,
            t != Type::Void,
            t != Type::Callback,
            values_view(r@) == defaults(t, i as nat),
            r@.len() == i,
        decreases n - i,
    {
        let ghost before = r@;
        let d = Value::default_for_type(t);
        let ghost dv = d@;
        r.push(d);
        assert(r@.len() == i + 1);
        assert(values_view(before).len() == i);
        assert(value_view(r@[i as int]) == dv);
        assert(values_view(r@) =~= defaults(t, (i + 1) as nat)) by {
            assert forall|k: int| 0 <= k < i + 1 implies #[trigger] values_view(r@)[k] == defaults(
                t,
                (i + 1) as nat,
            )[k] by {
                if k < i {
                    assert(r@[k] == before[k]);
                    assert(values_view(before)[k] == defaults(t, i as nat)[k]);
                }
            }
        }
        i = i + 1;
    }
    r
}

fn parse_array_token(
    v: &Vec<char>,
    count_from: usize,
    count_to: usize,
    name_to: usize,
    has_init: bool,
    is_output: bool,
) -> (r: Result<Argument, CallError>)
    requires
        count_from <= count_to <= name_to <= v.len(),
        has_init ==> name_to < v.len(),
        crate::grammar::scalar_prefix(v@.skip(count_to as int)) == Some(
            v@.subrange(count_to as int, name_to as int),
        ),
        !array_token_panics(
            v@.subrange(count_from as int, count_to as int),
            v@.subrange(count_to as int, name_to as int),
            if has_init {
                Some(v@.skip(name_to + 1))
            } else {
                None
            },
        ),
    ensures
        argument_result_view(r) == array_token_spec(
            v@.subrange(count_from as int, count_to as int),
            v@.subrange(count_to as int, name_to as int),
            if has_init {
                Some(v@.skip(name_to + 1))
            } else {
                None
            },
            is_output,
        ),
{
    let digits = slice_chars(v, count_from, count_to);
    let count = match parse_int(&digits, 10, false, 0, usize::MAX as i128) {
        Ok(n) => n as usize,
        Err(k) => {
            return Err(CallError::ParseInt(k));
        },
    };
    let name = string_of(&slice_chars(v, count_to, name_to));
    proof {
        crate::grammar::lemma_scalar_prefix_names(v@.skip(count_to as int));
        lemma_scalar_name_type(name@);
    }
    let elem_type = match parse_type_name(name.as_str()) {
        Ok(t) => t,
        Err(e) => {
            return Err(e);
        },
    };
    let values = if has_init {
        let init = string_of(&slice_chars(v, name_to + 1, v.len()));
        assert(init@ == v@.skip(name_to + 1));
        match parse_array_values(init.as_str(), elem_type, count) {
            Ok(vs) => vs,
            Err(e) => {
                return Err(e);
            },
        }
    } else {
        defaults_vec(elem_type, count)
    };
    proof {
        crate::types::lemma_array_view(elem_type, values);
    }
    Ok(Argument { value: Value::Array { elem_type, values }, is_output })
}

/// Parses one argument token (see [`parse_token_spec`] for the shapes).
/// Tokens that reach a string value that is a lone `"` are left out: the
/// tool panics on them.
pub fn parse_type_token(token: &str) -> (r: Result<Argument, CallError>)
    requires
        !token_panics(token@),
    ensures
        argument_result_view(r) == parse_token_spec(token@),
{
    let v = chars_of(token);
    let n = v.len();
    if match_output_scalar(&v) {
        let name = string_of(&slice_chars(&v, 1, n));
        proof {
            crate::grammar::lemma_scalar_prefix_names(v@.drop_first());
            lemma_scalar_name_type(name@);
        }
        let elem_type = match parse_type_name(name.as_str()) {
            Ok(t) => t,
            Err(e) => {
                return Err(e);
            },
        };
        let mut values: Vec<Value> = Vec::new();
        values.push(Value::default_for_type(elem_type));
        proof {
            crate::types::lemma_array_view(elem_type, values);
            assert(values_view(values@) =~= seq![default_value(elem_type)]);
        }
        return Ok(Argument { value: Value::Array { elem_type, values }, is_output: true });
    }
    proof {
        crate::grammar::lemma_array_shape_names(v@);
    }
    if let Some((de, ne, has_init)) = match_output_array(&v) {
        return parse_array_token(&v, 1, de, ne, has_init, true);
    }
    if let Some((de, ne)) = match_input_array(&v) {
        assert(v@.take(de as int) == v@.subrange(0, de as int));
        return parse_array_token(&v, 0, de, ne, true, false);
    }
    proof {
        crate::grammar::lemma_callback_shape_bounds(v@);
    }
    if let Some((p, q)) = match_callback(&v) {
        let mut sig = trim_chars(&slice_chars(&v, 1, p));
        let ghost a = sig@;
        sig.push('(');
        let params = trim_chars(&slice_chars(&v, p + 1, q));
        crate::text::extend_chars(&mut sig, &params);
        sig.push(')');
        assert(sig@ =~= a + seq!['('] + params@ + seq![')']);
        let body = trim_chars(&slice_chars(&v, q + 2, n - 2));
        let signature = string_of(&sig);
        let body = string_of(&body);
        return Ok(
            Argument { value: Value::Callback { signature, body }, is_output: false },
        );
    }
    if match_callback_like(&v) {
        return Err(CallError::InvalidCallbackSpec(string_of(&v)));
    }
    if let Some(ne) = match_typed_value(&v) {
        let name = string_of(&slice_chars(&v, 0, ne));
        assert(name@ == v@.take(ne as int));
        let ty = match parse_type_name(name.as_str()) {
            Ok(t) => t,
            Err(e) => {
                return Err(e);
            },
        };
        let text = string_of(&slice_chars(&v, ne + 1, n));
        assert(text@ == v@.skip(ne + 1));
        return match parse_value(text.as_str(), ty) {
            Ok(value) => Ok(Argument { value, is_output: false }),
            Err(e) => Err(e),
        };
    }
    let ty = match infer_type(token) {
        Ok(t) => t,
        Err(e) => {
            return Err(e);
        },
    };
    match parse_value(token, ty) {
        Ok(value) => Ok(Argument { value, is_output: false }),
        Err(e) => Err(e),
    }
}

fn array_token_would_panic(
    v: &Vec<char>,
    count_from: usize,
    count_to: usize,
    name_to: usize,
    has_init: bool,
) -> (r: bool)
    requires
        count_from <= count_to <= name_to <= v.len(),
        has_init ==> name_to < v.len(),
    ensures
        r == array_token_panics(
            v@.subrange(count_from as int, count_to as int),
            v@.subrange(count_to as int, name_to as int),
            if has_init {
                Some(v@.skip(name_to + 1))
            } else {
                None
            },
        ),
{
    if !has_init {
        return false;
    }
    let digits = slice_chars(v, count_from, count_to);
    let count = match parse_int(&digits, 10, false, 0, usize::MAX as i128) {
        Ok(n) => n as usize,
        Err(_) => {
            return false;
        },
    };
    let name = string_of(&slice_chars(v, count_to, name_to));
    let elem_type = match parse_type_name(name.as_str()) {
        Ok(t) => t,
        Err(_) => {
            return false;
        },
    };
    let init = string_of(&slice_chars(v, name_to + 1, v.len()));
    assert(init@ == v@.skip(name_to + 1));
    array_values_panic(init.as_str(), elem_type, count)
}

/// Whether parsing the token panics (see [`token_panics`]): the test to
/// make before [`parse_type_token`].
pub fn token_would_panic(token: &str) -> (r: bool)
    ensures
        r == token_panics(token@),
{
    let v = chars_of(token);
    let n = v.len();
    if match_output_scalar(&v) {
        return false;
    }
    proof {
        crate::grammar::lemma_array_shape_names(v@);
    }
    if let Some((de, ne, has_init)) = match_output_array(&v) {
        return array_token_would_panic(&v, 1, de, ne, has_init);
    }
    if let Some((de, ne)) = match_input_array(&v) {
        assert(v@.take(de as int) == v@.subrange(0, de as int));
        return array_token_would_panic(&v, 0, de, ne, true);
    }
    proof {
        crate::grammar::lemma_callback_shape_bounds(v@);
    }
    if match_callback(&v).is_some() || match_callback_like(&v) {
        return false;
    }
    if let Some(ne) = match_typed_value(&v) {
        let name = string_of(&slice_chars(&v, 0, ne));
        assert(name@ == v@.take(ne as int));
        return match parse_type_name(name.as_str()) {
            Ok(Type::CStr) => {
                let text = string_of(&slice_chars(&v, ne + 1, n));
                assert(text@ == v@.skip(ne + 1));
                cstr_value_panics(text.as_str())
            },
            _ => false,
        };
    }
    match infer_type(token) {
        Ok(Type::CStr) => cstr_value_panics(token),
        _ => false,
    }
}

/// The return type a `:TYPE` token names.
pub open spec fn parse_return_type_spec(t: Seq<char>) -> Result<Type, ErrorView> {
    match return_type_shape(t) {
        Some(name) => type_name_spec(name),
        None => Err(ErrorView::InvalidReturnType(t)),
    }
}

/// Parses a return-type token `:TYPE` (`void` or a scalar type).
pub fn parse_return_type(token: &str) -> (r: Result<Type, CallError>)
    ensures
        match r {
            Ok(t) => parse_return_type_spec(token@) == Ok::<Type, ErrorView>(t),
            Err(e) => parse_return_type_spec(token@) == Err::<Type, ErrorView>(e@),
        },
{
    let v = chars_of(token);
    if match_return_type(&v) {
        let name = string_of(&slice_chars(&v, 1, v.len()));
        assert(name@ == v@.drop_first());
        parse_type_name(name.as_str())
    } else {
        Err(CallError::InvalidReturnType(string_of(&v)))
    }
}

/// A token that starts with `:` names the return type.
pub open spec fn is_return_token(t: Seq<char>) -> bool {
    t.len() > 0 && t[0] == ':'
}

/// Parsing the tokens of a call in order: arguments, and the return type
/// of the last `:TYPE` token (`void` when there is none). The first token
/// that fails gives the error.
pub open spec fn call_args_spec(tokens: Seq<Seq<char>>) -> Result<(Seq<ArgumentView>, Type), ErrorView>
    decreases tokens.len(),
{
    if tokens.len() == 0 {
        Ok((Seq::empty(), Type::Void))
    } else {
        match call_args_spec(tokens.drop_last()) {
            Err(e) => Err(e),
            Ok((args, ret)) => {
                let t = tokens.last();
                if is_return_token(t) {
                    match parse_return_type_spec(t) {
                        Ok(r) => Ok((args, r)),
                        Err(e) => Err(e),
                    }
                } else {
                    match parse_token_spec(t) {
                        Ok(a) => Ok((args.push(a), ret)),
                        Err(e) => Err(e),
                    }
                }
            },
        }
    }
}

/// Whether parsing the tokens in order reaches a token that panics.
pub open spec fn call_tokens_panic(tokens: Seq<Seq<char>>) -> bool
    decreases tokens.len(),
{
    if tokens.len() == 0 {
        false
    } else {
        call_tokens_panic(tokens.drop_last()) || (call_args_spec(tokens.drop_last()) is Ok
            && !is_return_token(tokens.last()) && token_panics(tokens.last()))
    }
}

/// A call whose tokens name no return type returns `void`.
pub proof fn law_void_without_return_token(tokens: Seq<Seq<char>>)
    requires
        forall|i: int| 0 <= i < tokens.len() ==> !is_return_token(#[trigger] tokens[i]),
        call_args_spec(tokens) is Ok,
    ensures
        call_args_spec(tokens)->Ok_0.1 == Type::Void,
    decreases tokens.len(),
{
    if tokens.len() > 0 {
        let front = tokens.drop_last();
        assert forall|i: int| 0 <= i < front.len() implies !is_return_token(#[trigger] front[i]) by {
            assert(front[i] == tokens[i]);
        }
        assert(!is_return_token(tokens[tokens.len() - 1]));
        law_void_without_return_token(front);
    }
}

/// The number of tokens that are not `:TYPE` tokens.
pub open spec fn argument_token_count(tokens: Seq<Seq<char>>) -> nat
    decreases tokens.len(),
{
    if tokens.len() == 0 {
        0
    } else {
        argument_token_count(tokens.drop_last()) + if is_return_token(tokens.last()) {
            0nat
        } else {
            1nat
        }
    }
}

/// A parsed call has one argument for each token that is not a `:TYPE`
/// token.
pub proof fn law_one_argument_per_token(tokens: Seq<Seq<char>>)
    requires
        call_args_spec(tokens) is Ok,
    ensures
        call_args_spec(tokens)->Ok_0.0.len() == argument_token_count(tokens),
    decreases tokens.len(),
{
    if tokens.len() > 0 {
        law_one_argument_per_token(tokens.drop_last());
    }
}

/// The tokens of a call that are arguments (those that do not start with
/// `:`), in order.
pub open spec fn argument_tokens(tokens: Seq<Seq<char>>) -> Seq<Seq<char>>
    decreases tokens.len(),
{
    if tokens.len() == 0 {
        Seq::empty()
    } else if is_return_token(tokens.last()) {
        argument_tokens(tokens.drop_last())
    } else {
        argument_tokens(tokens.drop_last()).push(tokens.last())
    }
}

/// The tokens of a call that name a return type (those that start with
/// `:`), in order.
pub open spec fn return_tokens(tokens: Seq<Seq<char>>) -> Seq<Seq<char>>
    decreases tokens.len(),
{
    if tokens.len() == 0 {
        Seq::empty()
    } else if is_return_token(tokens.last()) {
        return_tokens(tokens.drop_last()).push(tokens.last())
    } else {
        return_tokens(tokens.drop_last())
    }
}

/// Whether one token of a call reads: a `:TYPE` token as a return type,
/// any other as an argument.
pub open spec fn token_ok(t: Seq<char>) -> bool {
    if is_return_token(t) {
        parse_return_type_spec(t) is Ok
    } else {
        parse_token_spec(t) is Ok
    }
}

/// The error of a token that does not read.
pub open spec fn token_error(t: Seq<char>) -> ErrorView {
    if is_return_token(t) {
        parse_return_type_spec(t)->Err_0
    } else {
        parse_token_spec(t)->Err_0
    }
}

/// Parsing a call fails exactly when one of its tokens fails, and then
/// with the error of the first token that fails. Otherwise its arguments
/// are the arguments the non-`:` tokens stand for, one each and in order,
/// and its return type is the one the last `:TYPE` token names, or `void`
/// when there is none.
pub proof fn law_call_tokens_split(tokens: Seq<Seq<char>>)
    ensures
        call_args_spec(tokens) is Ok <==> forall|i: int|
            0 <= i < tokens.len() ==> token_ok(#[trigger] tokens[i]),
        call_args_spec(tokens) is Err ==> exists|i: int|
            0 <= i < tokens.len() && !token_ok(#[trigger] tokens[i]) && token_error(tokens[i])
                == call_args_spec(tokens)->Err_0 && forall|j: int| 0 <= j < i ==> token_ok(tokens[j]),
        call_args_spec(tokens) is Ok ==> {
            let (args, ret) = call_args_spec(tokens)->Ok_0;
            &&& args.len() == argument_tokens(tokens).len()
            &&& forall|k: int|
                0 <= k < args.len() ==> #[trigger] args[k] == parse_token_spec(
                    argument_tokens(tokens)[k],
                )->Ok_0
            &&& ret == if return_tokens(tokens).len() == 0 {
                Type::Void
            } else {
                parse_return_type_spec(return_tokens(tokens).last())->Ok_0
            }
        },
    decreases tokens.len(),
{
    if tokens.len() > 0 {
        let front = tokens.drop_last();
        let t = tokens.last();
        let n = tokens.len() - 1;
        law_call_tokens_split(front);
        assert forall|i: int| 0 <= i < front.len() implies #[trigger] front[i] == tokens[i] by {}
        match call_args_spec(front) {
            Err(e) => {
                let i = choose|i: int|
                    0 <= i < front.len() && !token_ok(#[trigger] front[i]) && token_error(front[i])
                        == e && forall|j: int| 0 <= j < i ==> token_ok(front[j]);
                assert(tokens[i] == front[i]);
                assert forall|j: int| 0 <= j < i implies token_ok(tokens[j]) by {
                    assert(tokens[j] == front[j]);
                }
            },
            Ok((args, ret)) => {
                assert forall|j: int| 0 <= j < n implies token_ok(tokens[j]) by {
                    assert(tokens[j] == front[j]);
                    assert(token_ok(front[j]));
                }
                if !token_ok(t) {
                    assert(tokens[n] == t);
                    assert(!token_ok(tokens[n]));
                } else {
                    assert forall|i: int| 0 <= i < tokens.len() implies token_ok(
                        #[trigger] tokens[i],
                    ) by {
                        if i < n {
                            assert(tokens[i] == front[i]);
                            assert(token_ok(front[i]));
                        }
                    }
                    if !is_return_token(t) {
                        let a = parse_token_spec(t)->Ok_0;
                        assert(argument_tokens(tokens) == argument_tokens(front).push(t));
                        assert forall|k: int| 0 <= k < args.push(a).len() implies #[trigger] args.push(
                            a,
                        )[k] == parse_token_spec(argument_tokens(tokens)[k])->Ok_0 by {
                            if k < args.len() {
                                assert(args.push(a)[k] == args[k]);
                            }
                        }
                    }
                }
            },
        }
    }
}

/// [`CallSpec`] as a view.
pub struct CallSpecView {
    pub function: Seq<char>,
    pub args: Seq<ArgumentView>,
    pub return_type: Type,
}

impl View for CallSpec {
    type V = CallSpecView;

    open spec fn view(&self) -> CallSpecView {
        CallSpecView {
            function: self.function@,
            args: self.args@.map_values(|a: Argument| a@),
            return_type: self.return_type,
        }
    }
}

/// The views of a list of strings.
pub open spec fn strings_view(v: Seq<String>) -> Seq<Seq<char>> {
    v.map_values(|s: String| s@)
}

proof fn lemma_call_prefix(tokens: Seq<Seq<char>>, i: int)
    requires
        0 <= i < tokens.len(),
    ensures
        call_tokens_panic(tokens.take(i + 1)) ==> call_tokens_panic(tokens),
        call_args_spec(tokens.take(i + 1)) is Err ==> call_args_spec(tokens) == call_args_spec(
            tokens.take(i + 1),
        ),
    decreases tokens.len() - i,
{
    if i + 1 < tokens.len() {
        assert(tokens.take(i + 2).drop_last() == tokens.take(i + 1));
        lemma_call_prefix(tokens, i + 1);
    } else {
        assert(tokens.take(i + 1) == tokens);
    }
}

proof fn lemma_error_stops_panic(tokens: Seq<Seq<char>>, i: int)
    requires
        0 <= i <= tokens.len(),
        call_args_spec(tokens.take(i)) is Err,
        !call_tokens_panic(tokens.take(i)),
    ensures
        !call_tokens_panic(tokens),
    decreases tokens.len() - i,
{
    if i < tokens.len() {
        assert(tokens.take(i + 1).drop_last() == tokens.take(i));
        lemma_error_stops_panic(tokens, i + 1);
    } else {
        assert(tokens.take(i) == tokens);
    }
}

/// Whether parsing the tokens of a call panics (see
/// [`call_tokens_panic`]): the test to make before [`parse_call_spec`].
pub fn call_tokens_would_panic(arg_tokens: &Vec<String>) -> (r: bool)
    ensures
        r == call_tokens_panic(strings_view(arg_tokens@)),
{
    let ghost ts = strings_view(arg_tokens@);
    let mut i: usize = 0;
    assert(ts.take(0) =~= Seq::<Seq<char>>::empty());
    while i < arg_tokens.len()
        invariant
            i <= arg_tokens.len(),
            ts == strings_view(arg_tokens@),
            !call_tokens_panic(ts.take(i as int)),
            call_args_spec(ts.take(i as int)) is Ok,
        decreases arg_tokens.len() - i,
    {
        let token = arg_tokens[i].as_str();
        proof {
            lemma_call_prefix(ts, i as int);
            assert(ts.take(i + 1).drop_last() == ts.take(i as int));
            assert(ts.take(i + 1).last() == token@);
        }
        let cs = chars_of(token);
        if cs.len() > 0 && cs[0] == ':' {
            if parse_return_type(token).is_err() {
                proof {
                    lemma_error_stops_panic(ts, i + 1);
                }
                return false;
            }
        } else {
            if token_would_panic(token) {
                return true;
            }
            if parse_type_token(token).is_err() {
                proof {
                    lemma_error_stops_panic(ts, i + 1);
                }
                return false;
            }
        }
        i = i + 1;
    }
    assert(ts.take(arg_tokens.len() as int) == ts);
    false
}

/// Parses the tokens that follow the function name on the command line
/// into a call: `:TYPE` tokens set the return type, every other token is
/// an argument.
pub fn parse_call_spec(function: String, arg_tokens: Vec<String>) -> (r: Result<CallSpec, CallError>)
    requires
        !call_tokens_panic(strings_view(arg_tokens@)),
    ensures
        match r {
            Ok(c) => c@.function == function@ && call_args_spec(strings_view(arg_tokens@)) == Ok::<
                (Seq<ArgumentView>, Type),
                ErrorView,
            >((c@.args, c@.return_type)),
            Err(e) => call_args_spec(strings_view(arg_tokens@)) == Err::<
                (Seq<ArgumentView>, Type),
                ErrorView,
            >(e@),
        },
{
    let ghost ts = strings_view(arg_tokens@);
    let mut args: Vec<Argument> = Vec::new();
    let mut return_type = Type::Void;
    let mut i: usize = 0;
    assert(ts.take(0) =~= Seq::<Seq<char>>::empty());
    assert(args@.map_values(|a: Argument| a@) =~= Seq::<ArgumentView>::empty());
    while i < arg_tokens.len()
        invariant
            i <= arg_tokens.len(),
            ts == strings_view(arg_tokens@),
            !call_tokens_panic(ts),
            call_args_spec(ts.take(i as int)) == Ok::<(Seq<ArgumentView>, Type), ErrorView>(
                (args@.map_values(|a: Argument| a@), return_type),
            ),
        decreases arg_tokens.len() - i,
    {
        let token = arg_tokens[i].as_str();
        proof {
            lemma_call_prefix(ts, i as int);
            assert(ts.take(i + 1).drop_last() == ts.take(i as int));
            assert(ts.take(i + 1).last() == token@);
        }
        let cs = chars_of(token);
        if cs.len() > 0 && cs[0] == ':' {
            match parse_return_type(token) {
                Ok(t) => {
                    return_type = t;
                },
                Err(e) => {
                    return Err(e);
                },
            }
        } else {
            match parse_type_token(token) {
                Ok(a) => {
                    let ghost before = args@;
                    let ghost av = a@;
                    args.push(a);
                    assert(args@.map_values(|a: Argument| a@) =~= before.map_values(
                        |a: Argument| a@,
                    ).push(av));
                },
                Err(e) => {
                    return Err(e);
                },
            }
        }
        i = i + 1;
    }
    assert(ts.take(arg_tokens.len() as int) == ts);
    Ok(CallSpec { function, args, return_type })
}

} // verus!
