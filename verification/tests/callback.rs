use libcall::callback::{callback_source, parse_callback_signature, CallbackWrapper};

#[test]
fn qsort_comparator_signature_is_supported() {
    let cs = parse_callback_signature("i32(ptr a, ptr b)").unwrap();
    assert_eq!(cs.return_type, "i32");
    assert_eq!(cs.arg_types, vec!["ptr".to_string(), "ptr".to_string()]);
    assert_eq!(cs.arg_names, vec!["a".to_string(), "b".to_string()]);
    assert!(cs.has_i32_2ptr_signature());
    assert_eq!(cs.get_c_wrapper().unwrap(), CallbackWrapper::I32PtrPtr);
    let cs = parse_callback_signature("int(void* x, pointer y)").unwrap();
    assert!(cs.has_i32_2ptr_signature());
}

#[test]
fn other_signatures_are_refused() {
    let cs = parse_callback_signature("f64(ptr a, ptr b)").unwrap();
    let err = cs.get_c_wrapper().unwrap_err();
    assert_eq!(
        err.to_string(),
        "Unsupported callback signature: f64(ptr a, ptr b). Only i32(ptr, ptr) callbacks are currently supported"
    );
    let cs = parse_callback_signature("i32(ptr a)").unwrap();
    assert!(!cs.has_i32_2ptr_signature());
    let cs = parse_callback_signature("i32(ptr a, ptr b, ptr c)").unwrap();
    assert!(cs.get_c_wrapper().is_err());
}

#[test]
fn a_signature_needs_an_opening_parenthesis() {
    let err = parse_callback_signature("i32 ptr a").unwrap_err();
    assert_eq!(err.to_string(), "Invalid callback signature");
}

#[test]
fn unnamed_parameters_are_numbered() {
    let cs = parse_callback_signature("i32(ptr, ptr)").unwrap();
    assert_eq!(cs.arg_types, vec!["ptr".to_string(), "ptr".to_string()]);
    assert_eq!(cs.arg_names, vec!["arg0".to_string(), "arg1".to_string()]);
    let cs = parse_callback_signature("void()").unwrap();
    assert!(cs.arg_types.is_empty());
    assert!(cs.arg_names.is_empty());
}

#[test]
fn callback_source_wraps_the_body() {
    let names = vec!["a".to_string(), "b".to_string()];
    assert_eq!(
        callback_source(&names, "return i32(a) - i32(b)"),
        "function callback(a, b) return i32(a) - i32(b) end"
    );
    assert_eq!(callback_source(&vec![], "return 0"), "function callback() return 0 end");
}
