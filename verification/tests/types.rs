use libcall::types::{infer_type, parse_array_values, parse_type_name, parse_value, Type, Value};

#[test]
fn infer_type_uses_i32_for_small_integers() {
    assert_eq!(infer_type("42").unwrap(), Type::I32);
    assert_eq!(infer_type("-42").unwrap(), Type::I32);
}

#[test]
fn infer_type_uses_i64_for_large_integers() {
    assert_eq!(infer_type("3000000000").unwrap(), Type::I64);
    assert_eq!(infer_type("-3000000000").unwrap(), Type::I64);
}

#[test]
fn infer_type_uses_u64_for_unsigned_large_integers() {
    assert_eq!(infer_type("18446744073709551615").unwrap(), Type::U64);
}

#[test]
fn infer_type_uses_f64_for_values_beyond_u64() {
    assert_eq!(infer_type("18446744073709551616").unwrap(), Type::F64);
}

#[test]
fn parse_array_values_rejects_wrong_length() {
    let err = parse_array_values("1,2,3", Type::I32, 4).unwrap_err();
    assert!(err.to_string().contains("Array length mismatch"));
}

#[test]
fn parse_array_values_parses_typed_values() {
    let values = parse_array_values("1,2", Type::I32, 2).unwrap();

    assert!(matches!(values.as_slice(), [Value::I32(1), Value::I32(2)]));
}

#[test]
fn infer_type_readme_table() {
    assert_eq!(infer_type("123").unwrap(), Type::I32);
    assert_eq!(infer_type("123.45").unwrap(), Type::F64);
    assert_eq!(infer_type("hello").unwrap(), Type::CStr);
    assert_eq!(infer_type("true").unwrap(), Type::I32);
    assert_eq!(infer_type("false").unwrap(), Type::I32);
    assert_eq!(infer_type("null").unwrap(), Type::Ptr);
    assert_eq!(infer_type("  7  ").unwrap(), Type::I32);
    assert_eq!(infer_type("1e5").unwrap(), Type::F64);
    assert_eq!(infer_type("inf").unwrap(), Type::F64);
    assert_eq!(infer_type("1e").unwrap(), Type::CStr);
}

#[test]
fn parse_type_name_accepts_aliases_in_any_case() {
    assert_eq!(parse_type_name("int").unwrap(), Type::I32);
    assert_eq!(parse_type_name("SIZE_T").unwrap(), Type::Usize);
    assert_eq!(parse_type_name("double").unwrap(), Type::F64);
    assert_eq!(parse_type_name("char*").unwrap(), Type::CStr);
    assert_eq!(parse_type_name("long").unwrap(), Type::Isize);
    let err = parse_type_name("quux").unwrap_err();
    assert_eq!(err.to_string(), "Unknown type: quux");
}

#[test]
fn parse_value_reports_std_messages() {
    assert_eq!(parse_value("300", Type::U8).unwrap_err().to_string(), "number too large to fit in target type");
    assert_eq!(parse_value("-129", Type::I8).unwrap_err().to_string(), "number too small to fit in target type");
    assert_eq!(parse_value("", Type::I32).unwrap_err().to_string(), "cannot parse integer from empty string");
    assert_eq!(parse_value("-1", Type::U32).unwrap_err().to_string(), "invalid digit found in string");
    assert_eq!(parse_value("invalid", Type::F64).unwrap_err().to_string(), "invalid float literal");
    assert_eq!(parse_value("x", Type::Void).unwrap_err().to_string(), "Cannot parse value for void type");
}

#[test]
fn parse_value_reads_each_type() {
    assert!(matches!(parse_value("-5", Type::Isize).unwrap(), Value::Isize(-5)));
    assert!(matches!(parse_value("true", Type::I32).unwrap(), Value::I32(1)));
    assert!(matches!(parse_value("0x1f", Type::Ptr).unwrap(), Value::Ptr(31)));
    assert!(matches!(parse_value("null", Type::Ptr).unwrap(), Value::Ptr(0)));
    assert!(matches!(parse_value("255", Type::U8).unwrap(), Value::U8(255)));
    match parse_value(" \"hi\" ", Type::CStr).unwrap() {
        Value::CStr(s) => assert_eq!(s, "hi"),
        other => panic!("unexpected {:?}", other),
    }
    match parse_value("1.5", Type::F32).unwrap() {
        Value::F32(s) => assert_eq!(s, "1.5"),
        other => panic!("unexpected {:?}", other),
    }
}

#[test]
fn type_names_read_back() {
    let all = [
        Type::I8, Type::U8, Type::I16, Type::U16, Type::I32, Type::U32, Type::I64, Type::U64,
        Type::Isize, Type::Usize, Type::F32, Type::F64, Type::Ptr, Type::CStr, Type::Void,
        Type::Callback,
    ];
    for t in all {
        assert_eq!(parse_type_name(&t.to_string()).unwrap(), t);
    }
    assert_eq!(Type::U16.size(), 2);
    assert_eq!(Type::F64.size(), 8);
    assert_eq!(Type::Ptr.size(), std::mem::size_of::<usize>());
    assert_eq!(Type::Void.size(), 0);
}

#[test]
fn inferred_types_parse() {
    for s in ["123", "-3000000000", "18446744073709551615", "1.5e3", "null", "true", "word", "\"q\""] {
        let t = infer_type(s).unwrap();
        let v = parse_value(s, t).unwrap();
        assert_eq!(v.get_type(), t, "{}", s);
    }
}

#[test]
fn default_values_are_zero() {
    assert!(matches!(Value::default_for_type(Type::U8), Value::U8(0)));
    assert!(matches!(Value::default_for_type(Type::Ptr), Value::Ptr(0)));
    match Value::default_for_type(Type::F64) {
        Value::F64(s) => assert_eq!(s, "0"),
        other => panic!("unexpected {:?}", other),
    }
    match Value::default_for_type(Type::CStr) {
        Value::CStr(s) => assert!(s.is_empty()),
        other => panic!("unexpected {:?}", other),
    }
}

#[test]
fn type_names_fold_case_like_to_lowercase() {
    assert_eq!(parse_type_name("CALLBAC\u{212A}").unwrap(), Type::Callback);
    assert_eq!(parse_type_name("Void").unwrap(), Type::Void);
    assert!(parse_type_name("\u{130}8").is_err());
}

#[test]
fn values_clone_element_by_element() {
    let v = parse_array_values("1,2,3", Type::U16, 3).unwrap();
    let a = Value::Array { elem_type: Type::U16, values: v };
    let b = a.clone();
    assert_eq!(format!("{:?}", a), format!("{:?}", b));
    let c = Value::Callback { signature: "i32(ptr a, ptr b)".to_string(), body: "return 0".to_string() };
    assert_eq!(format!("{:?}", c.clone()), format!("{:?}", c));
    let copies = vec![Value::U8(0); 4];
    assert!(copies.iter().all(|x| matches!(x, Value::U8(0))));
}
