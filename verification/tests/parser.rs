use libcall::parser::{
    call_tokens_would_panic, parse_call_spec, parse_return_type, parse_type_token,
    token_would_panic, Argument,
};
use libcall::types::{Type, Value};

fn tokens(ts: &[&str]) -> Vec<String> {
    ts.iter().map(|t| t.to_string()).collect()
}

fn array_of(arg: &Argument) -> (Type, &Vec<Value>) {
    match &arg.value {
        Value::Array { elem_type, values } => (*elem_type, values),
        other => panic!("not an array: {:?}", other),
    }
}

#[test]
fn output_scalar_token_is_one_zero_element() {
    let arg = parse_type_token("@i32").unwrap();
    assert!(arg.is_output);
    let (t, vs) = array_of(&arg);
    assert_eq!(t, Type::I32);
    assert!(matches!(vs.as_slice(), [Value::I32(0)]));
}

#[test]
fn output_array_token_without_values_is_zeroed() {
    let arg = parse_type_token("@16u8").unwrap();
    assert!(arg.is_output);
    let (t, vs) = array_of(&arg);
    assert_eq!(t, Type::U8);
    assert_eq!(vs.len(), 16);
    assert!(vs.iter().all(|v| matches!(v, Value::U8(0))));
}

#[test]
fn inout_array_token_keeps_its_values() {
    let arg = parse_type_token("@4i32:4,2,3,1").unwrap();
    assert!(arg.is_output);
    let (t, vs) = array_of(&arg);
    assert_eq!(t, Type::I32);
    assert!(matches!(
        vs.as_slice(),
        [Value::I32(4), Value::I32(2), Value::I32(3), Value::I32(1)]
    ));
}

#[test]
fn input_array_token_is_not_an_output() {
    let arg = parse_type_token("4i32:1,2,3,4").unwrap();
    assert!(!arg.is_output);
    let (t, vs) = array_of(&arg);
    assert_eq!(t, Type::I32);
    assert_eq!(vs.len(), 4);
}

#[test]
fn array_token_with_wrong_count_is_refused() {
    let err = parse_type_token("3i32:1,2").unwrap_err();
    assert_eq!(err.to_string(), "Array length mismatch: expected 3 elements, got 2");
}

#[test]
fn callback_token_keeps_signature_and_body() {
    let arg = parse_type_token("'i32(ptr a, ptr b){ return i32(a) - i32(b) }'").unwrap();
    match arg.value {
        Value::Callback { signature, body } => {
            assert_eq!(signature, "i32(ptr a, ptr b)");
            assert_eq!(body, "return i32(a) - i32(b)");
        }
        other => panic!("not a callback: {:?}", other),
    }
}

#[test]
fn callback_like_token_is_refused() {
    let err = parse_type_token("'i32(ptr a){ return 0 } extra'").unwrap_err();
    assert_eq!(
        err.to_string(),
        "Invalid callback specification: 'i32(ptr a){ return 0 } extra'"
    );
}

#[test]
fn typed_value_tokens() {
    assert!(matches!(parse_type_token("i32:-42").unwrap().value, Value::I32(-42)));
    assert!(matches!(parse_type_token("u8:255").unwrap().value, Value::U8(255)));
    assert!(matches!(parse_type_token("i64:123").unwrap().value, Value::I64(123)));
    assert!(matches!(parse_type_token("ptr:null").unwrap().value, Value::Ptr(0)));
    match parse_type_token("cstr:PATH").unwrap().value {
        Value::CStr(s) => assert_eq!(s, "PATH"),
        other => panic!("unexpected {:?}", other),
    }
    match parse_type_token("f32:1.5").unwrap().value {
        Value::F32(s) => assert_eq!(s, "1.5"),
        other => panic!("unexpected {:?}", other),
    }
    let err = parse_type_token("callback:x").unwrap_err();
    assert_eq!(err.to_string(), "Cannot parse simple value for callback type");
    let err = parse_type_token("f64:invalid").unwrap_err();
    assert_eq!(err.to_string(), "invalid float literal");
}

#[test]
fn untyped_tokens_are_inferred() {
    assert!(matches!(parse_type_token("123").unwrap().value, Value::I32(123)));
    assert!(matches!(parse_type_token("3000000000").unwrap().value, Value::I64(3000000000)));
    assert!(matches!(parse_type_token("null").unwrap().value, Value::Ptr(0)));
    match parse_type_token("hello").unwrap().value {
        Value::CStr(s) => assert_eq!(s, "hello"),
        other => panic!("unexpected {:?}", other),
    }
    match parse_type_token("123.45").unwrap().value {
        Value::F64(s) => assert_eq!(s, "123.45"),
        other => panic!("unexpected {:?}", other),
    }
}

#[test]
fn return_type_tokens() {
    assert_eq!(parse_return_type(":f64").unwrap(), Type::F64);
    assert_eq!(parse_return_type(":void").unwrap(), Type::Void);
    assert_eq!(parse_return_type(":usize").unwrap(), Type::Usize);
    let err = parse_return_type(":double").unwrap_err();
    assert_eq!(err.to_string(), "Invalid return type specification: :double");
}

#[test]
fn call_without_return_type_returns_void() {
    let spec = parse_call_spec("bzero".to_string(), tokens(&["@4u8:1,2,3,4", "usize:4"])).unwrap();
    assert_eq!(spec.function, "bzero");
    assert_eq!(spec.return_type, Type::Void);
    assert_eq!(spec.args.len(), 2);
    assert!(spec.args[0].is_output);
    assert!(!spec.args[1].is_output);
}

#[test]
fn last_return_type_token_wins() {
    let spec = parse_call_spec("f".to_string(), tokens(&[":i32", "1", ":f64"])).unwrap();
    assert_eq!(spec.return_type, Type::F64);
    assert_eq!(spec.args.len(), 1);
}

#[test]
fn first_failing_token_gives_the_error() {
    let err = parse_call_spec("f".to_string(), tokens(&["u8:300", ":bogus"])).unwrap_err();
    assert_eq!(err.to_string(), "number too large to fit in target type");
}

#[test]
fn lone_quote_string_values_are_detected() {
    assert!(token_would_panic("cstr:\""));
    assert!(token_would_panic("\""));
    assert!(token_would_panic("2cstr:a,\""));
    assert!(!token_would_panic("cstr:\"\""));
    assert!(!token_would_panic("2cstr:a,b"));
    assert!(!token_would_panic("i32:\""));
    assert!(call_tokens_would_panic(&tokens(&["1", "cstr:\""])));
    assert!(!call_tokens_would_panic(&tokens(&["u8:300", "cstr:\""])));
    assert!(!call_tokens_would_panic(&tokens(&["1", ":i32"])));
}

#[test]
fn quoted_strings_lose_one_pair_of_quotes() {
    match parse_type_token("cstr:\"\"").unwrap().value {
        Value::CStr(s) => assert_eq!(s, ""),
        other => panic!("unexpected {:?}", other),
    }
    match parse_type_token("\"hi there\"").unwrap().value {
        Value::CStr(s) => assert_eq!(s, "hi there"),
        other => panic!("unexpected {:?}", other),
    }
}

#[test]
fn tokens_split_into_arguments_and_return_type() {
    let spec = parse_call_spec("f".to_string(), tokens(&["1", ":i64", "i8:-2", ":void", "u8:3"])).unwrap();
    assert_eq!(spec.return_type, Type::Void);
    assert!(matches!(
        spec.args.iter().map(|a| &a.value).collect::<Vec<_>>().as_slice(),
        [Value::I32(1), Value::I8(-2), Value::U8(3)]
    ));
    let err = parse_call_spec("f".to_string(), tokens(&["1", ":double", "u8:300"])).unwrap_err();
    assert_eq!(err.to_string(), "Invalid return type specification: :double");
}
