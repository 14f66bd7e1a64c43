use libcall::ffi::{marshal_step, output_slots, select_signature, ArgKind, CallShape, Marshal};
use libcall::parser::{parse_call_spec, parse_type_token};
use libcall::types::{Type, Value};

#[test]
fn values_are_marshalled_by_kind() {
    assert_eq!(marshal_step(&Value::I32(1), false).unwrap(), Marshal::Scalar(ArgKind::I32));
    assert_eq!(marshal_step(&Value::F64("1.0".to_string()), false).unwrap(), Marshal::Scalar(ArgKind::F64));
    assert_eq!(marshal_step(&Value::Ptr(0), true).unwrap(), Marshal::Scalar(ArgKind::Ptr));
    assert_eq!(marshal_step(&Value::CStr("x".to_string()), false).unwrap(), Marshal::CString);
    let arr = parse_type_token("@4u8").unwrap().value;
    assert_eq!(marshal_step(&arr, false).unwrap(), Marshal::Array);
    let cb = Value::Callback { signature: "i32(ptr a, ptr b)".to_string(), body: "return 0".to_string() };
    assert_eq!(marshal_step(&cb, false).unwrap(), Marshal::Callback);
}

#[test]
fn a_second_callback_is_refused() {
    let cb = Value::Callback { signature: "i32(ptr a, ptr b)".to_string(), body: "return 0".to_string() };
    let err = marshal_step(&cb, true).unwrap_err();
    assert_eq!(err.to_string(), "Only one callback argument is currently supported per call");
}

#[test]
fn signatures_are_chosen_by_argument_kinds() {
    assert_eq!(select_signature(Type::F64, &vec![ArgKind::F64]).unwrap(), CallShape::Unary(ArgKind::F64));
    assert_eq!(select_signature(Type::F64, &vec![ArgKind::F64, ArgKind::F64]).unwrap(), CallShape::F64F64);
    assert_eq!(select_signature(Type::I32, &vec![]).unwrap(), CallShape::Nullary);
    assert_eq!(
        select_signature(Type::Void, &vec![ArgKind::Ptr, ArgKind::Usize, ArgKind::Usize, ArgKind::Ptr]).unwrap(),
        CallShape::PtrUsizeUsizePtr
    );
    assert_eq!(select_signature(Type::Void, &vec![ArgKind::Ptr, ArgKind::Usize]).unwrap(), CallShape::PtrUsize);
    assert_eq!(select_signature(Type::CStr, &vec![ArgKind::Ptr]).unwrap(), CallShape::Unary(ArgKind::Ptr));
}

#[test]
fn unsupported_signatures_are_named() {
    let err = select_signature(Type::I32, &vec![ArgKind::Ptr, ArgKind::Usize, ArgKind::Usize, ArgKind::Ptr]).unwrap_err();
    assert_eq!(err.to_string(), "Unsupported signature: (ptr, usize, usize, ptr) -> i32");
    let err = select_signature(Type::CStr, &vec![ArgKind::I32]).unwrap_err();
    assert_eq!(err.to_string(), "Unsupported signature: (i32) -> cstr");
    let err = select_signature(Type::I32, &vec![ArgKind::U8, ArgKind::U8]).unwrap_err();
    assert_eq!(err.to_string(), "Unsupported signature: (u8, u8) -> i32");
    let err = select_signature(Type::Callback, &vec![]).unwrap_err();
    assert_eq!(err.to_string(), "Unsupported return type: callback");
}

#[test]
fn output_slots_list_output_arrays_in_order() {
    let spec = parse_call_spec(
        "qsort".to_string(),
        vec![
            "@4i32:4,2,3,1".to_string(),
            "usize:4".to_string(),
            "2u8:1,2".to_string(),
            "@3f64".to_string(),
        ],
    )
    .unwrap();
    let slots = output_slots(&spec.args);
    assert_eq!(slots, vec![(0, Type::I32, 4), (3, Type::F64, 3)]);
    let none = parse_call_spec("f".to_string(), vec!["1".to_string()]).unwrap();
    assert!(output_slots(&none.args).is_empty());
}

#[test]
fn storable_types_and_values() {
    assert!(Type::U8.is_readable());
    assert!(Type::Ptr.is_readable());
    assert!(!Type::CStr.is_readable());
    assert!(!Type::Void.is_readable());
    assert!(Value::I16(3).is_storable_element());
    assert!(!Value::CStr(String::new()).is_storable_element());
}
