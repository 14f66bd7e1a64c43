//! Planning of a foreign call: how each argument is passed, which C
//! prototype the call uses, and which arguments are read back afterwards.
use vstd::prelude::*;

use crate::error::{CallError, ErrorView};
use crate::parser::{Argument, ArgumentView};
use crate::text::string_from;
use crate::types::{Type, Value, ValueView};

verus! {

/// How one argument travels to the C function: by value as a scalar of
/// the given kind, or as a pointer.
#[derive(Clone, Copy, Debug, PartialEq, Eq, Structural)]
pub enum ArgKind {
    I8,
    U8,
    I16,
    U16,
    I32,
    U32,
    I64,
    U64,
    Isize,
    Usize,
    F32,
    F64,
    Ptr,
}

/// The name of an argument kind, as error messages show it.
pub open spec fn arg_kind_name(k: ArgKind) -> Seq<char> {
    match k {
        ArgKind::I8 => "i8"@,
        ArgKind::U8 => "u8"@,
        ArgKind::I16 => "i16"@,
        ArgKind::U16 => "u16"@,
        ArgKind::I32 => "i32"@,
        ArgKind::U32 => "u32"@,
        ArgKind::I64 => "i64"@,
        ArgKind::U64 => "u64"@,
        ArgKind::Isize => "isize"@,
        ArgKind::Usize => "usize"@,
        ArgKind::F32 => "f32"@,
        ArgKind::F64 => "f64"@,
        ArgKind::Ptr => "ptr"@,
    }
}

impl ArgKind {
    /// The name of the kind.
    pub fn to_string(&self) -> (r: String)
        ensures
            r@ == arg_kind_name(*self),
    {
        match self {
            ArgKind::I8 => string_from("i8"),
            ArgKind::U8 => string_from("u8"),
            ArgKind::I16 => string_from("i16"),
            ArgKind::U16 => string_from("u16"),
            ArgKind::I32 => string_from("i32"),
            ArgKind::U32 => string_from("u32"),
            ArgKind::I64 => string_from("i64"),
            ArgKind::U64 => string_from("u64"),
            ArgKind::Isize => string_from("isize"),
            ArgKind::Usize => string_from("usize"),
            ArgKind::F32 => string_from("f32"),
            ArgKind::F64 => string_from("f64"),
            ArgKind::Ptr => string_from("ptr"),
        }
    }
}

/// How the next argument of a call is handed to the C function.
#[derive(Clone, Copy, Debug, PartialEq, Eq, Structural)]
pub enum Marshal {
    /// Passed by value as a scalar of this kind (a raw pointer is `Ptr`).
    Scalar(ArgKind),
    /// Copied into a NUL-terminated buffer, passed as a pointer.
    CString,
    /// Laid out in a buffer of elements, passed as a pointer.
    Array,
    /// Passed as a pointer to the C entry point of the callback.
    Callback,
}

/// How a value is passed, given whether the call already has a callback:
/// only one callback argument is supported per call.
pub open spec fn marshal_spec(v: ValueView, have_callback: bool) -> Result<Marshal, ErrorView> {
    match v {
        ValueView::I8(_) => Ok(Marshal::Scalar(ArgKind::I8)),
        ValueView::U8(_) => Ok(Marshal::Scalar(ArgKind::U8)),
        ValueView::I16(_) => Ok(Marshal::Scalar(ArgKind::I16)),
        ValueView::U16(_) => Ok(Marshal::Scalar(ArgKind::U16)),
        ValueView::I32(_) => Ok(Marshal::Scalar(ArgKind::I32)),
        ValueView::U32(_) => Ok(Marshal::Scalar(ArgKind::U32)),
        ValueView::I64(_) => Ok(Marshal::Scalar(ArgKind::I64)),
        ValueView::U64(_) => Ok(Marshal::Scalar(ArgKind::U64)),
        ValueView::Isize(_) => Ok(Marshal::Scalar(ArgKind::Isize)),
        ValueView::Usize(_) => Ok(Marshal::Scalar(ArgKind::Usize)),
        ValueView::F32(_) => Ok(Marshal::Scalar(ArgKind::F32)),
        ValueView::F64(_) => Ok(Marshal::Scalar(ArgKind::F64)),
        ValueView::Ptr(_) => Ok(Marshal::Scalar(ArgKind::Ptr)),
        ValueView::CStr(_) => Ok(Marshal::CString),
        ValueView::Array { .. } => Ok(Marshal::Array),
        ValueView::Callback { .. } => if have_callback {
            Err(ErrorView::MultipleCallbacks)
        } else {
            Ok(Marshal::Callback)
        },
    }
}

/// The kind an argument travels as once marshalled: everything but a
/// scalar is a pointer.
pub open spec fn marshal_kind(m: Marshal) -> ArgKind {
    match m {
        Marshal::Scalar(k) => k,
        _ => ArgKind::Ptr,
    }
}

/// Decides how the next argument of a call is passed.
pub fn marshal_step(value: &Value, have_callback: bool) -> (r: Result<Marshal, CallError>)
    ensures
        match r {
            Ok(m) => marshal_spec(value@, have_callback) == Ok::<Marshal, ErrorView>(m),
            Err(e) => marshal_spec(value@, have_callback) == Err::<Marshal, ErrorView>(e@),
        },
{
    match value {
        Value::I8(_) => Ok(Marshal::Scalar(ArgKind::I8)),
        Value::U8(_) => Ok(Marshal::Scalar(ArgKind::U8)),
        Value::I16(_) => Ok(Marshal::Scalar(ArgKind::I16)),
        Value::U16(_) => Ok(Marshal::Scalar(ArgKind::U16)),
        Value::I32(_) => Ok(Marshal::Scalar(ArgKind::I32)),
        Value::U32(_) => Ok(Marshal::Scalar(ArgKind::U32)),
        Value::I64(_) => Ok(Marshal::Scalar(ArgKind::I64)),
        Value::U64(_) => Ok(Marshal::Scalar(ArgKind::U64)),
        Value::Isize(_) => Ok(Marshal::Scalar(ArgKind::Isize)),
        Value::Usize(_) => Ok(Marshal::Scalar(ArgKind::Usize)),
        Value::F32(_) => Ok(Marshal::Scalar(ArgKind::F32)),
        Value::F64(_) => Ok(Marshal::Scalar(ArgKind::F64)),
        Value::Ptr(_) => Ok(Marshal::Scalar(ArgKind::Ptr)),
        Value::CStr(_) => Ok(Marshal::CString),
        Value::Array { .. } => Ok(Marshal::Array),
        Value::Callback { .. } => {
            if have_callback {
                Err(CallError::MultipleCallbacks)
            } else {
                Ok(Marshal::Callback)
            }
        },
    }
}

/// The C prototypes the dispatcher can call, by argument list.
#[derive(Clone, Copy, Debug, PartialEq, Eq, Structural)]
pub enum CallShape {
    Nullary,
    Unary(ArgKind),
    PtrPtr,
    I32I32,
    F32F32,
    F64F64,
    F64Ptr,
    PtrUsize,
    PtrI32,
    PtrUsizeU32,
    PtrPtrI32,
    PtrUsizeUsizePtr,
}

/// The prototype an argument list fits, if any.
pub open spec fn shape_of(k: Seq<ArgKind>) -> Option<CallShape> {
    if k.len() == 0 {
        Some(CallShape::Nullary)
    } else if k.len() == 1 {
        Some(CallShape::Unary(k[0]))
    } else if k.len() == 2 {
        if k[0] == ArgKind::Ptr && k[1] == ArgKind::Ptr {
            Some(CallShape::PtrPtr)
        } else if k[0] == ArgKind::I32 && k[1] == ArgKind::I32 {
            Some(CallShape::I32I32)
        } else if k[0] == ArgKind::F32 && k[1] == ArgKind::F32 {
            Some(CallShape::F32F32)
        } else if k[0] == ArgKind::F64 && k[1] == ArgKind::F64 {
            Some(CallShape::F64F64)
        } else if k[0] == ArgKind::F64 && k[1] == ArgKind::Ptr {
            Some(CallShape::F64Ptr)
        } else if k[0] == ArgKind::Ptr && k[1] == ArgKind::Usize {
            Some(CallShape::PtrUsize)
        } else if k[0] == ArgKind::Ptr && k[1] == ArgKind::I32 {
            Some(CallShape::PtrI32)
        } else {
            None
        }
    } else if k.len() == 3 {
        if k[0] == ArgKind::Ptr && k[1] == ArgKind::Usize && k[2] == ArgKind::U32 {
            Some(CallShape::PtrUsizeU32)
        } else if k[0] == ArgKind::Ptr && k[1] == ArgKind::Ptr && k[2] == ArgKind::I32 {
            Some(CallShape::PtrPtrI32)
        } else {
            None
        }
    } else if k.len() == 4 && k[0] == ArgKind::Ptr && k[1] == ArgKind::Usize && k[2]
        == ArgKind::Usize && k[3] == ArgKind::Ptr {
        Some(CallShape::PtrUsizeUsizePtr)
    } else {
        None
    }
}

/// Whether the dispatcher has a prototype for this shape and return type:
/// `void` functions take every shape, functions returning a scalar every
/// shape but the four-argument one, and functions returning a string only
/// one pointer.
pub open spec fn shape_supported(ret: Type, s: CallShape) -> bool {
    match ret {
        Type::Void => true,
        Type::CStr => s == CallShape::Unary(ArgKind::Ptr),
        Type::Callback => false,
        _ => s != CallShape::PtrUsizeUsizePtr,
    }
}

/// The prototype a call uses, or why there is none. A callback return
/// type is refused whatever the arguments.
pub open spec fn select_signature_spec(ret: Type, kinds: Seq<ArgKind>) -> Result<CallShape, ErrorView> {
    if ret == Type::Callback {
        Err(ErrorView::UnsupportedReturnType(ret))
    } else {
        match shape_of(kinds) {
            Some(s) => if shape_supported(ret, s) {
                Ok(s)
            } else {
                Err(ErrorView::UnsupportedSignature { args: kinds, ret })
            },
            None => Err(ErrorView::UnsupportedSignature { args: kinds, ret }),
        }
    }
}

/// The parameter kinds of a C prototype, in order.
pub open spec fn shape_params(s: CallShape) -> Seq<ArgKind> {
    match s {
        CallShape::Nullary => seq![],
        CallShape::Unary(k) => seq![k],
        CallShape::PtrPtr => seq![ArgKind::Ptr, ArgKind::Ptr],
        CallShape::I32I32 => seq![ArgKind::I32, ArgKind::I32],
        CallShape::F32F32 => seq![ArgKind::F32, ArgKind::F32],
        CallShape::F64F64 => seq![ArgKind::F64, ArgKind::F64],
        CallShape::F64Ptr => seq![ArgKind::F64, ArgKind::Ptr],
        CallShape::PtrUsize => seq![ArgKind::Ptr, ArgKind::Usize],
        CallShape::PtrI32 => seq![ArgKind::Ptr, ArgKind::I32],
        CallShape::PtrUsizeU32 => seq![ArgKind::Ptr, ArgKind::Usize, ArgKind::U32],
        CallShape::PtrPtrI32 => seq![ArgKind::Ptr, ArgKind::Ptr, ArgKind::I32],
        CallShape::PtrUsizeUsizePtr => seq![ArgKind::Ptr, ArgKind::Usize, ArgKind::Usize, ArgKind::Ptr],
    }
}

/// The argument lists a function returning a scalar can be called with:
/// none, any one argument, and these pairs and triples.
pub open spec fn in_scalar_table(k: Seq<ArgKind>) -> bool {
    ||| k.len() <= 1
    ||| k == seq![ArgKind::Ptr, ArgKind::Ptr]
    ||| k == seq![ArgKind::I32, ArgKind::I32]
    ||| k == seq![ArgKind::F32, ArgKind::F32]
    ||| k == seq![ArgKind::F64, ArgKind::F64]
    ||| k == seq![ArgKind::F64, ArgKind::Ptr]
    ||| k == seq![ArgKind::Ptr, ArgKind::Usize]
    ||| k == seq![ArgKind::Ptr, ArgKind::I32]
    ||| k == seq![ArgKind::Ptr, ArgKind::Usize, ArgKind::U32]
    ||| k == seq![ArgKind::Ptr, ArgKind::Ptr, ArgKind::I32]
}

/// The dispatcher calls exactly the prototypes of its table: the chosen
/// prototype takes the call's arguments, kind for kind; a function
/// returning a number or pointer takes any list of the scalar table, a
/// `void` function also `(ptr, usize, usize, ptr)` (the shape of
/// `qsort`), a function returning a string only one pointer, and a
/// callback is never a return type.
pub proof fn law_dispatch_table(ret: Type, kinds: Seq<ArgKind>)
    ensures
        select_signature_spec(ret, kinds) is Ok ==> shape_params(select_signature_spec(ret, kinds)->Ok_0)
            == kinds,
        ret != Type::Void && ret != Type::CStr && ret != Type::Callback ==> (select_signature_spec(
            ret,
            kinds,
        ) is Ok <==> in_scalar_table(kinds)),
        ret == Type::Void ==> (select_signature_spec(ret, kinds) is Ok <==> (in_scalar_table(kinds)
            || kinds == seq![ArgKind::Ptr, ArgKind::Usize, ArgKind::Usize, ArgKind::Ptr])),
        ret == Type::CStr ==> (select_signature_spec(ret, kinds) is Ok <==> kinds == seq![ArgKind::Ptr]),
        ret == Type::Callback ==> select_signature_spec(ret, kinds) is Err,
{
    let s = shape_of(kinds);
    if s is Some {
        assert(shape_params(s->Some_0) =~= kinds);
    }
    if kinds.len() == 2 {
        assert(kinds == seq![kinds[0], kinds[1]]);
    } else if kinds.len() == 3 {
        assert(kinds == seq![kinds[0], kinds[1], kinds[2]]);
    } else if kinds.len() == 4 {
        assert(kinds == seq![kinds[0], kinds[1], kinds[2], kinds[3]]);
    } else if kinds.len() == 1 {
        assert(kinds == seq![kinds[0]]);
    }
}

/// Chooses the C prototype for a call from the kinds of its arguments and
/// its return type.
pub fn select_signature(return_type: Type, kinds: &Vec<ArgKind>) -> (r: Result<CallShape, CallError>)
    ensures
        match r {
            Ok(s) => select_signature_spec(return_type, kinds@) == Ok::<CallShape, ErrorView>(s),
            Err(e) => select_signature_spec(return_type, kinds@) == Err::<CallShape, ErrorView>(e@),
        },
{
    if return_type == Type::Callback {
        return Err(CallError::UnsupportedReturnType(return_type));
    }
    let n = kinds.len();
    let shape: Option<CallShape> = if n == 0 {
        Some(CallShape::Nullary)
    } else if n == 1 {
        Some(CallShape::Unary(kinds[0]))
    } else if n == 2 {
        let (a, b) = (kinds[0], kinds[1]);
        if a == ArgKind::Ptr && b == ArgKind::Ptr {
            Some(CallShape::PtrPtr)
        } else if a == ArgKind::I32 && b == ArgKind::I32 {
            Some(CallShape::I32I32)
        } else if a == ArgKind::F32 && b == ArgKind::F32 {
            Some(CallShape::F32F32)
        } else if a == ArgKind::F64 && b == ArgKind::F64 {
            Some(CallShape::F64F64)
        } else if a == ArgKind::F64 && b == ArgKind::Ptr {
            Some(CallShape::F64Ptr)
        } else if a == ArgKind::Ptr && b == ArgKind::Usize {
            Some(CallShape::PtrUsize)
        } else if a == ArgKind::Ptr && b == ArgKind::I32 {
            Some(CallShape::PtrI32)
        } else {
            None
        }
    } else if n == 3 {
        let (a, b, c) = (kinds[0], kinds[1], kinds[2]);
        if a == ArgKind::Ptr && b == ArgKind::Usize && c == ArgKind::U32 {
            Some(CallShape::PtrUsizeU32)
        } else if a == ArgKind::Ptr && b == ArgKind::Ptr && c == ArgKind::I32 {
            Some(CallShape::PtrPtrI32)
        } else {
            None
        }
    } else if n == 4 && kinds[0] == ArgKind::Ptr && kinds[1] == ArgKind::Usize && kinds[2]
        == ArgKind::Usize && kinds[3] == ArgKind::Ptr {
        Some(CallShape::PtrUsizeUsizePtr)
    } else {
        None
    };
    let supported = match shape {
        Some(s) => match return_type {
            Type::Void => true,
            Type::CStr => s == CallShape::Unary(ArgKind::Ptr),
            _ => s != CallShape::PtrUsizeUsizePtr,
        },
        None => false,
    };
    match shape {
        Some(s) => {
            if supported {
                return Ok(s);
            }
        },
        None => {},
    }
    Err(CallError::UnsupportedSignature { args: kinds.clone(), ret: return_type })
}

/// Whether values of a type can be laid out in, and read back from, an
/// array buffer: the integer and floating-point types and pointers.
pub open spec fn is_storable(t: Type) -> bool {
    match t {
        Type::CStr | Type::Void | Type::Callback => false,
        _ => true,
    }
}

impl Type {
    /// Whether array elements of this type can be read back after a call.
    pub fn is_readable(&self) -> (r: bool)
        ensures
            r == is_storable(*self),
    {
        match self {
            Type::CStr | Type::Void | Type::Callback => false,
            _ => true,
        }
    }
}

impl Value {
    /// Whether the value can be written as an element of an array buffer.
    pub fn is_storable_element(&self) -> (r: bool)
        ensures
            r == (match self@ {
                ValueView::CStr(_) | ValueView::Array { .. } | ValueView::Callback { .. } => false,
                _ => true,
            }),
    {
        match self {
            Value::CStr(_) | Value::Array { .. } | Value::Callback { .. } => false,
            _ => true,
        }
    }
}

/// The outputs of a call: the arguments marked as outputs that are
/// arrays, with their positions, element types and lengths.
pub open spec fn output_slots_spec(args: Seq<ArgumentView>) -> Seq<(int, Type, nat)>
    decreases args.len(),
{
    if args.len() == 0 {
        Seq::empty()
    } else {
        let rest = output_slots_spec(args.drop_last());
        let a = args.last();
        match a.value {
            ValueView::Array { elem_type, values } => if a.is_output {
                rest.push(((args.len() - 1) as int, elem_type, values.len()))
            } else {
                rest
            },
            _ => rest,
        }
    }
}

/// Every output slot names an output argument that is an array, with
/// that array's element type and length, and the slots come in the order
/// of the arguments, each at most once: reading back after a call touches
/// only buffers laid out for output arrays, each as it was laid out.
pub proof fn law_output_slots_are_output_arrays(args: Seq<ArgumentView>)
    ensures
        forall|k: int|
            0 <= k < output_slots_spec(args).len() ==> {
                let (i, t, n) = #[trigger] output_slots_spec(args)[k];
                &&& 0 <= i < args.len()
                &&& args[i].is_output
                &&& args[i].value matches ValueView::Array { elem_type, values } && elem_type == t
                    && values.len() == n
            },
        forall|k: int, l: int|
            0 <= k < l < output_slots_spec(args).len() ==> (#[trigger] output_slots_spec(args)[k]).0
                < (#[trigger] output_slots_spec(args)[l]).0,
    decreases args.len(),
{
    if args.len() > 0 {
        let front = args.drop_last();
        law_output_slots_are_output_arrays(front);
        let rest = output_slots_spec(front);
        assert forall|k: int| 0 <= k < rest.len() implies (#[trigger] rest[k]).0 < args.len() - 1 by {
            assert(0 <= rest[k].0 < front.len());
        }
        assert forall|k: int| 0 <= k < rest.len() implies #[trigger] args[rest[k].0] == front[rest[k].0] by {
            assert(0 <= rest[k].0 < front.len());
        }
    }
}

/// Lists the arguments a call writes into, to be read back after it.
pub fn output_slots(args: &Vec<Argument>) -> (r: Vec<(usize, Type, usize)>)
    ensures
        r@.map_values(|x: (usize, Type, usize)| (x.0 as int, x.1, x.2 as nat)) == output_slots_spec(
            args@.map_values(|a: Argument| a@),
        ),
{
    let ghost av = args@.map_values(|a: Argument| a@);
    let mut r: Vec<(usize, Type, usize)> = Vec::new();
    let mut i: usize = 0;
    assert(av.take(0) =~= Seq::<ArgumentView>::empty());
    assert(r@.map_values(|x: (usize, Type, usize)| (x.0 as int, x.1, x.2 as nat)) =~= Seq::<
        (int, Type, nat),
    >::empty());
    while i < args.len()
        invariant
            i <= args.len(),
            av == args@.map_values(|a: Argument| a@),
            r@.map_values(|x: (usize, Type, usize)| (x.0 as int, x.1, x.2 as nat))
                == output_slots_spec(av.take(i as int)),
        decreases args.len() - i,
    {
        assert(av.take(i + 1).drop_last() == av.take(i as int));
        assert(av.take(i + 1).last() == args@[i as int]@);
        let ghost before = r@;
        if args[i].is_output {
            match &args[i].value {
                Value::Array { elem_type, values } => {
                    proof {
                        crate::types::lemma_array_view(*elem_type, *values);
                    }
                    r.push((i, *elem_type, values.len()));
                    assert(r@.map_values(|x: (usize, Type, usize)| (x.0 as int, x.1, x.2 as nat))
                        =~= before.map_values(
                        |x: (usize, Type, usize)| (x.0 as int, x.1, x.2 as nat),
                    ).push((i as int, *elem_type, values@.len())));
                },
                _ => {},
            }
        }
        i = i + 1;
    }
    assert(av.take(args.len() as int) == av);
    r
}

/// What a call gave back: its return value, if it has one, and the
/// contents of its output arguments with their positions.
#[derive(Debug)]
pub struct CallResult {
    pub return_value: Option<Value>,
    pub output_values: Vec<(usize, Value)>,
}

} // verus!
