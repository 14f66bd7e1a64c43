//! Errors of argument parsing, call planning and library lookup, with the
//! messages the tool prints for them.
use vstd::prelude::*;

use crate::ffi::{arg_kind_name, ArgKind};
use crate::number::{FloatErrorKind, IntErrorKind};
use crate::text::{decimal, decimal_chars, extend_chars, extend_str, string_of};
use crate::types::{type_label, Type};

verus! {

/// Everything the library can refuse.
#[derive(Debug)]
pub enum CallError {
    UnknownType(String),
    ParseInt(IntErrorKind),
    ParseFloat(FloatErrorKind),
    VoidValue,
    CallbackValue,
    ArrayLengthMismatch { expected: usize, got: usize },
    InvalidCallbackSpec(String),
    InvalidReturnType(String),
    CallbackNeedsSignature,
    CallbackNeedsBody,
    ScalarInout,
    UnknownMode(String),
    MissingValue,
    NestedArray,
    ObjectValue,
    UnsupportedExtension(String),
    MissingExtension,
    LibraryFileNotFound(String),
    LibraryNotFound { name: String, searched: Vec<String> },
    NoLibrary,
    InvalidCallbackSignature,
    UnsupportedCallbackSignature(String),
    MultipleCallbacks,
    UnsupportedSignature { args: Vec<ArgKind>, ret: Type },
    UnsupportedReturnType(Type),
    UnsupportedArrayElement,
    UnsupportedReadType,
    SpecWithCallArgs,
    MissingFunction,
    MissingLibraryAndFunction,
    UnknownFormat(String),
}

/// [`CallError`] with its strings and lists as sequences.
pub enum ErrorView {
    UnknownType(Seq<char>),
    ParseInt(IntErrorKind),
    ParseFloat(FloatErrorKind),
    VoidValue,
    CallbackValue,
    ArrayLengthMismatch { expected: nat, got: nat },
    InvalidCallbackSpec(Seq<char>),
    InvalidReturnType(Seq<char>),
    CallbackNeedsSignature,
    CallbackNeedsBody,
    ScalarInout,
    UnknownMode(Seq<char>),
    MissingValue,
    NestedArray,
    ObjectValue,
    UnsupportedExtension(Seq<char>),
    MissingExtension,
    LibraryFileNotFound(Seq<char>),
    LibraryNotFound { name: Seq<char>, searched: Seq<Seq<char>> },
    NoLibrary,
    InvalidCallbackSignature,
    UnsupportedCallbackSignature(Seq<char>),
    MultipleCallbacks,
    UnsupportedSignature { args: Seq<ArgKind>, ret: Type },
    UnsupportedReturnType(Type),
    UnsupportedArrayElement,
    UnsupportedReadType,
    SpecWithCallArgs,
    MissingFunction,
    MissingLibraryAndFunction,
    UnknownFormat(Seq<char>),
}

impl View for CallError {
    type V = ErrorView;

    open spec fn view(&self) -> ErrorView {
        match self {
            CallError::UnknownType(s) => ErrorView::UnknownType(s@),
            CallError::ParseInt(k) => ErrorView::ParseInt(*k),
            CallError::ParseFloat(k) => ErrorView::ParseFloat(*k),
            CallError::VoidValue => ErrorView::VoidValue,
            CallError::CallbackValue => ErrorView::CallbackValue,
            CallError::ArrayLengthMismatch { expected, got } => ErrorView::ArrayLengthMismatch {
                expected: *expected as nat,
                got: *got as nat,
            },
            CallError::InvalidCallbackSpec(s) => ErrorView::InvalidCallbackSpec(s@),
            CallError::InvalidReturnType(s) => ErrorView::InvalidReturnType(s@),
            CallError::CallbackNeedsSignature => ErrorView::CallbackNeedsSignature,
            CallError::CallbackNeedsBody => ErrorView::CallbackNeedsBody,
            CallError::ScalarInout => ErrorView::ScalarInout,
            CallError::UnknownMode(s) => ErrorView::UnknownMode(s@),
            CallError::MissingValue => ErrorView::MissingValue,
            CallError::NestedArray => ErrorView::NestedArray,
            CallError::ObjectValue => ErrorView::ObjectValue,
            CallError::UnsupportedExtension(s) => ErrorView::UnsupportedExtension(s@),
            CallError::MissingExtension => ErrorView::MissingExtension,
            CallError::LibraryFileNotFound(s) => ErrorView::LibraryFileNotFound(s@),
            CallError::LibraryNotFound { name, searched } => ErrorView::LibraryNotFound {
                name: name@,
                searched: searched@.map_values(|p: String| p@),
            },
            CallError::NoLibrary => ErrorView::NoLibrary,
            CallError::InvalidCallbackSignature => ErrorView::InvalidCallbackSignature,
            CallError::UnsupportedCallbackSignature(s) => ErrorView::UnsupportedCallbackSignature(
                s@,
            ),
            CallError::MultipleCallbacks => ErrorView::MultipleCallbacks,
            CallError::UnsupportedSignature { args, ret } => ErrorView::UnsupportedSignature {
                args: args@,
                ret: *ret,
            },
            CallError::UnsupportedReturnType(t) => ErrorView::UnsupportedReturnType(*t),
            CallError::UnsupportedArrayElement => ErrorView::UnsupportedArrayElement,
            CallError::UnsupportedReadType => ErrorView::UnsupportedReadType,
            CallError::SpecWithCallArgs => ErrorView::SpecWithCallArgs,
            CallError::MissingFunction => ErrorView::MissingFunction,
            CallError::MissingLibraryAndFunction => ErrorView::MissingLibraryAndFunction,
            CallError::UnknownFormat(s) => ErrorView::UnknownFormat(s@),
        }
    }
}

/// `parts` joined with `sep` between consecutive parts.
pub open spec fn join(parts: Seq<Seq<char>>, sep: Seq<char>) -> Seq<char>
    decreases parts.len(),
{
    if parts.len() == 0 {
        Seq::empty()
    } else if parts.len() == 1 {
        parts[0]
    } else {
        join(parts.drop_last(), sep) + sep + parts.last()
    }
}

/// The message `std::num::ParseIntError` shows for each kind.
pub open spec fn int_error_message(k: IntErrorKind) -> Seq<char> {
    match k {
        IntErrorKind::Empty => "cannot parse integer from empty string"@,
        IntErrorKind::InvalidDigit => "invalid digit found in string"@,
        IntErrorKind::PosOverflow => "number too large to fit in target type"@,
        IntErrorKind::NegOverflow => "number too small to fit in target type"@,
    }
}

/// The message `std::num::ParseFloatError` shows for each kind.
pub open spec fn float_error_message(k: FloatErrorKind) -> Seq<char> {
    match k {
        FloatErrorKind::Empty => "cannot parse float from empty string"@,
        FloatErrorKind::Invalid => "invalid float literal"@,
    }
}

/// One line `"  - <path>"` per searched directory.
pub open spec fn searched_lines(paths: Seq<Seq<char>>) -> Seq<Seq<char>> {
    paths.map_values(|p: Seq<char>| "  - "@ + p)
}

/// The message shown for an error.
pub open spec fn error_message(e: ErrorView) -> Seq<char> {
    match e {
        ErrorView::UnknownType(s) => "Unknown type: "@ + s,
        ErrorView::ParseInt(k) => int_error_message(k),
        ErrorView::ParseFloat(k) => float_error_message(k),
        ErrorView::VoidValue => "Cannot parse value for void type"@,
        ErrorView::CallbackValue => "Cannot parse simple value for callback type"@,
        ErrorView::ArrayLengthMismatch { expected, got } => "Array length mismatch: expected "@
            + decimal(expected) + " elements, got "@ + decimal(got),
        ErrorView::InvalidCallbackSpec(s) => "Invalid callback specification: "@ + s,
        ErrorView::InvalidReturnType(s) => "Invalid return type specification: "@ + s,
        ErrorView::CallbackNeedsSignature => "Callback argument requires signature"@,
        ErrorView::CallbackNeedsBody => "Callback argument requires body"@,
        ErrorView::ScalarInout => "Scalar inout arguments are not supported; use output or an array count"@,
        ErrorView::UnknownMode(s) => "Unknown argument mode: "@ + s,
        ErrorView::MissingValue => "Input argument requires value"@,
        ErrorView::NestedArray => "Nested arrays are not supported in spec arguments"@,
        ErrorView::ObjectValue => "Objects are not supported in spec argument values"@,
        ErrorView::UnsupportedExtension(s) => "Unsupported spec file extension: ."@ + s
            + " (expected .json, .yaml, or .yml)"@,
        ErrorView::MissingExtension => "Spec file must have an extension: .json, .yaml, or .yml"@,
        ErrorView::LibraryFileNotFound(s) => "Library file not found: "@ + s,
        ErrorView::LibraryNotFound { name, searched } => "Library not found: "@ + name
            + "\nSearched paths:\n"@ + join(searched_lines(searched), "\n"@),
        ErrorView::NoLibrary => "No library specified"@,
        ErrorView::InvalidCallbackSignature => "Invalid callback signature"@,
        ErrorView::UnsupportedCallbackSignature(s) => "Unsupported callback signature: "@ + s
            + ". Only i32(ptr, ptr) callbacks are currently supported"@,
        ErrorView::MultipleCallbacks => "Only one callback argument is currently supported per call"@,
        ErrorView::UnsupportedSignature { args, ret } => "Unsupported signature: ("@ + join(
            args.map_values(|k: ArgKind| arg_kind_name(k)),
            ", "@,
        ) + ") -> "@ + type_label(ret),
        ErrorView::UnsupportedReturnType(t) => "Unsupported return type: "@ + type_label(t),
        ErrorView::UnsupportedArrayElement => "Unsupported value type for array element"@,
        ErrorView::UnsupportedReadType => "Unsupported type for reading from pointer"@,
        ErrorView::SpecWithCallArgs => "--spec cannot be combined with -l or positional call arguments"@,
        ErrorView::MissingFunction => "Function name is required\n\nUsage: libcall -l<NAME> <FUNCTION> [ARGS...] [:RETURN_TYPE]"@,
        ErrorView::MissingLibraryAndFunction => "Library path and function name are required\n\nUsage: libcall <LIBRARY> <FUNCTION> [ARGS...] [:RETURN_TYPE]"@,
        ErrorView::UnknownFormat(s) => "Unknown format: "@ + s,
    }
}

/// Appends `join(parts, sep)` to `out`.
pub fn extend_joined(out: &mut Vec<char>, parts: &Vec<Vec<char>>, sep: &str)
    ensures
        final(out)@ == old(out)@ + join(parts@.map_values(|p: Vec<char>| p@), sep@),
{
    let ghost o = out@;
    let ghost ps = parts@.map_values(|p: Vec<char>| p@);
    let mut i: usize = 0;
    while i < parts.len()
        invariant
            i <= parts.len(),
            ps == parts@.map_values(|p: Vec<char>| p@),
            out@ == o + join(ps.take(i as int), sep@),
        decreases parts.len() - i,
    {
        if i > 0 {
            extend_str(out, sep);
        }
        extend_chars(out, &parts[i]);
        assert(ps.take(i + 1).drop_last() == ps.take(i as int));
        assert(ps.take(i + 1).last() == parts@[i as int]@);
        if i == 0 {
            assert(ps.take(1) == seq![ps[0]]);
        }
        i = i + 1;
    }
    assert(ps.take(parts.len() as int) == ps);
}

fn push_decimal(out: &mut Vec<char>, n: usize)
    ensures
        final(out)@ == old(out)@ + decimal(n as nat),
{
    let d = decimal_chars(n as u128);
    extend_chars(out, &d);
}

impl CallError {
    /// The message of the error, as the tool shows it.
    pub fn to_string(&self) -> (r: String)
        ensures
            r@ == error_message(self@),
    {
        let mut m: Vec<char> = Vec::new();
        match self {
            CallError::UnknownType(s) => {
                extend_str(&mut m, "Unknown type: ");
                extend_str(&mut m, s.as_str());
            },
            CallError::ParseInt(k) => match k {
                IntErrorKind::Empty => extend_str(&mut m, "cannot parse integer from empty string"),
                IntErrorKind::InvalidDigit => extend_str(&mut m, "invalid digit found in string"),
                IntErrorKind::PosOverflow => extend_str(
                    &mut m,
                    "number too large to fit in target type",
                ),
                IntErrorKind::NegOverflow => extend_str(
                    &mut m,
                    "number too small to fit in target type",
                ),
            },
            CallError::ParseFloat(k) => match k {
                FloatErrorKind::Empty => extend_str(&mut m, "cannot parse float from empty string"),
                FloatErrorKind::Invalid => extend_str(&mut m, "invalid float literal"),
            },
            CallError::VoidValue => extend_str(&mut m, "Cannot parse value for void type"),
            CallError::CallbackValue => extend_str(
                &mut m,
                "Cannot parse simple value for callback type",
            ),
            CallError::ArrayLengthMismatch { expected, got } => {
                extend_str(&mut m, "Array length mismatch: expected ");
                push_decimal(&mut m, *expected);
                extend_str(&mut m, " elements, got ");
                push_decimal(&mut m, *got);
            },
            CallError::InvalidCallbackSpec(s) => {
                extend_str(&mut m, "Invalid callback specification: ");
                extend_str(&mut m, s.as_str());
            },
            CallError::InvalidReturnType(s) => {
                extend_str(&mut m, "Invalid return type specification: ");
                extend_str(&mut m, s.as_str());
            },
            CallError::CallbackNeedsSignature => extend_str(
                &mut m,
                "Callback argument requires signature",
            ),
            CallError::CallbackNeedsBody => extend_str(&mut m, "Callback argument requires body"),
            CallError::ScalarInout => extend_str(
                &mut m,
                "Scalar inout arguments are not supported; use output or an array count",
            ),
            CallError::UnknownMode(s) => {
                extend_str(&mut m, "Unknown argument mode: ");
                extend_str(&mut m, s.as_str());
            },
            CallError::MissingValue => extend_str(&mut m, "Input argument requires value"),
            CallError::NestedArray => extend_str(
                &mut m,
                "Nested arrays are not supported in spec arguments",
            ),
            CallError::ObjectValue => extend_str(
                &mut m,
                "Objects are not supported in spec argument values",
            ),
            CallError::UnsupportedExtension(s) => {
                extend_str(&mut m, "Unsupported spec file extension: .");
                extend_str(&mut m, s.as_str());
                extend_str(&mut m, " (expected .json, .yaml, or .yml)");
            },
            CallError::MissingExtension => extend_str(
                &mut m,
                "Spec file must have an extension: .json, .yaml, or .yml",
            ),
            CallError::LibraryFileNotFound(s) => {
                extend_str(&mut m, "Library file not found: ");
                extend_str(&mut m, s.as_str());
            },
            CallError::LibraryNotFound { name, searched } => {
                extend_str(&mut m, "Library not found: ");
                extend_str(&mut m, name.as_str());
                extend_str(&mut m, "\nSearched paths:\n");
                let mut lines: Vec<Vec<char>> = Vec::new();
                let mut i: usize = 0;
                while i < searched.len()
                    invariant
                        i <= searched.len(),
                        lines@.map_values(|p: Vec<char>| p@) == searched_lines(
                            searched@.map_values(|p: String| p@),
                        ).take(i as int),
                    decreases searched.len() - i,
                {
                    let mut line: Vec<char> = Vec::new();
                    extend_str(&mut line, "  - ");
                    extend_str(&mut line, searched[i].as_str());
                    let ghost before = lines@;
                    lines.push(line);
                    assert(lines@.map_values(|p: Vec<char>| p@) =~= before.map_values(
                        |p: Vec<char>| p@,
                    ).push(line@));
                    assert(searched_lines(searched@.map_values(|p: String| p@)).take(i + 1)
                        =~= searched_lines(searched@.map_values(|p: String| p@)).take(
                        i as int,
                    ).push("  - "@ + searched@[i as int]@));
                    i = i + 1;
                }
                assert(searched_lines(searched@.map_values(|p: String| p@)).take(
                    searched.len() as int,
                ) =~= searched_lines(searched@.map_values(|p: String| p@)));
                extend_joined(&mut m, &lines, "\n");
            },
            CallError::NoLibrary => extend_str(&mut m, "No library specified"),
            CallError::InvalidCallbackSignature => extend_str(&mut m, "Invalid callback signature"),
            CallError::UnsupportedCallbackSignature(s) => {
                extend_str(&mut m, "Unsupported callback signature: ");
                extend_str(&mut m, s.as_str());
                extend_str(&mut m, ". Only i32(ptr, ptr) callbacks are currently supported");
            },
            CallError::MultipleCallbacks => extend_str(
                &mut m,
                "Only one callback argument is currently supported per call",
            ),
            CallError::UnsupportedSignature { args, ret } => {
                extend_str(&mut m, "Unsupported signature: (");
                let mut names: Vec<Vec<char>> = Vec::new();
                let mut i: usize = 0;
                while i < args.len()
                    invariant
                        i <= args.len(),
                        names@.map_values(|p: Vec<char>| p@) == args@.map_values(
                            |k: ArgKind| arg_kind_name(k),
                        ).take(i as int),
                    decreases args.len() - i,
                {
                    let mut n: Vec<char> = Vec::new();
                    extend_str(&mut n, args[i].to_string().as_str());
                    let ghost before = names@;
                    names.push(n);
                    assert(names@.map_values(|p: Vec<char>| p@) =~= before.map_values(
                        |p: Vec<char>| p@,
                    ).push(n@));
                    assert(args@.map_values(|k: ArgKind| arg_kind_name(k)).take(i + 1)
                        =~= args@.map_values(|k: ArgKind| arg_kind_name(k)).take(i as int).push(
                        arg_kind_name(args@[i as int]),
                    ));
                    i = i + 1;
                }
                assert(args@.map_values(|k: ArgKind| arg_kind_name(k)).take(args.len() as int)
                    =~= args@.map_values(|k: ArgKind| arg_kind_name(k)));
                extend_joined(&mut m, &names, ", ");
                extend_str(&mut m, ") -> ");
                extend_str(&mut m, ret.to_string().as_str());
            },
            CallError::UnsupportedReturnType(t) => {
                extend_str(&mut m, "Unsupported return type: ");
                extend_str(&mut m, t.to_string().as_str());
            },
            CallError::UnsupportedArrayElement => extend_str(
                &mut m,
                "Unsupported value type for array element",
            ),
            CallError::UnsupportedReadType => extend_str(
                &mut m,
                "Unsupported type for reading from pointer",
            ),
            CallError::SpecWithCallArgs => extend_str(
                &mut m,
                "--spec cannot be combined with -l or positional call arguments",
            ),
            CallError::MissingFunction => extend_str(
                &mut m,
                "Function name is required\n\nUsage: libcall -l<NAME> <FUNCTION> [ARGS...] [:RETURN_TYPE]",
            ),
            CallError::MissingLibraryAndFunction => extend_str(
                &mut m,
                "Library path and function name are required\n\nUsage: libcall <LIBRARY> <FUNCTION> [ARGS...] [:RETURN_TYPE]",
            ),
            CallError::UnknownFormat(s) => {
                extend_str(&mut m, "Unknown format: ");
                extend_str(&mut m, s.as_str());
            },
        }
        string_of(&m)
    }
}

} // verus!
