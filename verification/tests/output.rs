use libcall::ffi::CallResult;
use libcall::output::{dry_run_report, format_result_human, format_value, format_value_with_type};
use libcall::parser::{parse_call_spec, parse_type_token};
use libcall::report::{result_document, Document};
use libcall::types::{parse_value, Type, Value};

fn text(v: Vec<char>) -> String {
    v.into_iter().collect()
}

fn u8_array(n: u8) -> Value {
    Value::Array { elem_type: Type::U8, values: (0..n).map(Value::U8).collect() }
}

#[test]
fn bzero_output_reads_as_in_the_readme() {
    let result = CallResult {
        return_value: None,
        output_values: vec![(0, Value::Array { elem_type: Type::U8, values: (0..4).map(|_| Value::U8(0)).collect() })],
    };
    assert_eq!(format_result_human(&result), "Outputs:\n  [0] 4u8 = [0x00, 0x00, 0x00, 0x00]\n");
}

#[test]
fn qsort_output_reads_as_in_the_readme() {
    let result = CallResult {
        return_value: None,
        output_values: vec![(
            0,
            Value::Array {
                elem_type: Type::I32,
                values: vec![Value::I32(1), Value::I32(2), Value::I32(3), Value::I32(4)],
            },
        )],
    };
    assert_eq!(format_result_human(&result), "Outputs:\n  [0] 4i32 = [1, 2, 3, 4]\n");
}

#[test]
fn return_value_comes_on_its_own_line() {
    let result = CallResult { return_value: Some(Value::I32(42)), output_values: vec![] };
    assert_eq!(format_result_human(&result), "42\n");
    let result = CallResult { return_value: Some(Value::F64("4".to_string())), output_values: vec![] };
    assert_eq!(format_result_human(&result), "4\n");
    let result = CallResult { return_value: None, output_values: vec![] };
    assert_eq!(format_result_human(&result), "");
}

#[test]
fn single_element_output_shows_the_element() {
    let result = CallResult {
        return_value: Some(Value::U64(5)),
        output_values: vec![(2, Value::Array { elem_type: Type::I64, values: vec![Value::I64(-7)] })],
    };
    assert_eq!(format_result_human(&result), "5\nOutputs:\n  [2] i64 = -7\n");
}

#[test]
fn long_arrays_show_ten_elements() {
    assert_eq!(
        text(format_value(&u8_array(12))),
        "[0x00, 0x01, 0x02, 0x03, 0x04, 0x05, 0x06, 0x07, 0x08, 0x09, ... (2 more)]"
    );
    assert_eq!(
        text(format_value(&u8_array(10))),
        "[0x00, 0x01, 0x02, 0x03, 0x04, 0x05, 0x06, 0x07, 0x08, 0x09]"
    );
    assert_eq!(text(format_value(&u8_array(0))), "[]");
    assert_eq!(text(format_value_with_type(&u8_array(0))), "0u8 = []");
}

#[test]
fn values_print_in_their_usual_form() {
    assert_eq!(text(format_value(&Value::I8(-128))), "-128");
    assert_eq!(text(format_value(&Value::U64(u64::MAX))), "18446744073709551615");
    assert_eq!(text(format_value(&Value::Isize(isize::MIN))), isize::MIN.to_string());
    assert_eq!(text(format_value(&Value::Ptr(255))), "0xff");
    assert_eq!(text(format_value(&Value::Ptr(0))), "0x0");
    assert_eq!(text(format_value(&Value::CStr("hi".to_string()))), "hi");
    assert_eq!(
        text(format_value(&Value::Callback { signature: "i32(ptr a, ptr b)".to_string(), body: String::new() })),
        "<callback>"
    );
    assert_eq!(text(format_value(&Value::U8(171))), "171");
    assert_eq!(text(format_value_with_type(&Value::U8(171))), "u8 = 171");
    assert_eq!(text(format_value_with_type(&Value::CStr("x".to_string()))), "cstr = x");
}

#[test]
fn printed_integers_parse_back() {
    let cases = vec![
        (Value::I8(-128), Type::I8),
        (Value::U16(65535), Type::U16),
        (Value::I32(-42), Type::I32),
        (Value::I64(i64::MIN), Type::I64),
        (Value::U64(u64::MAX), Type::U64),
        (Value::Usize(0), Type::Usize),
    ];
    for (v, t) in cases {
        let s = text(format_value(&v));
        let back = parse_value(&s, t).unwrap();
        assert_eq!(format!("{:?}", back), format!("{:?}", v));
    }
}

#[test]
fn dry_run_reads_as_in_the_readme() {
    let spec = parse_call_spec(
        "pow".to_string(),
        vec!["2.0".to_string(), "3.0".to_string(), ":f64".to_string()],
    )
    .unwrap();
    assert_eq!(
        dry_run_report("libm.dylib", &spec),
        "Library: libm.dylib\nFunction: pow\nReturn type: f64\nArguments:\n  [0] f64 (output: false)\n  [1] f64 (output: false)\n"
    );
    let spec = parse_call_spec("bzero".to_string(), vec!["@4u8".to_string()]).unwrap();
    assert_eq!(
        dry_run_report("libc.so.6", &spec),
        "Library: libc.so.6\nFunction: bzero\nReturn type: void\nArguments:\n  [0] ptr (output: true)\n"
    );
}

fn field<'a>(d: &'a Document, name: &str) -> &'a Document {
    match d {
        Document::Fields(fs) => &fs.iter().find(|(n, _)| n == name).expect("field").1,
        _ => panic!("not an object"),
    }
}

#[test]
fn report_document_lists_arguments_return_and_outputs() {
    let args = vec![parse_type_token("16.0").unwrap(), parse_type_token("@2i32:1,2").unwrap()];
    let result = CallResult {
        return_value: Some(Value::F64("4".to_string())),
        output_values: vec![(1, Value::Array { elem_type: Type::I32, values: vec![Value::I32(2), Value::I32(1)] })],
    };
    let d = result_document(&result, "libm.dylib", "sqrt", &args);
    assert!(matches!(field(&d, "library"), Document::Text(s) if s == "libm.dylib"));
    assert!(matches!(field(&d, "function"), Document::Text(s) if s == "sqrt"));
    match field(&d, "args") {
        Document::List(items) => {
            assert_eq!(items.len(), 2);
            assert!(matches!(field(&items[0], "type"), Document::Text(s) if s == "f64"));
            assert!(matches!(field(&items[0], "value"), Document::Float { text, single: false } if text == "16.0"));
            assert!(matches!(field(&items[1], "type"), Document::Text(s) if s == "ptr"));
            assert!(matches!(field(&items[1], "value"), Document::List(xs) if xs.len() == 2));
        }
        _ => panic!("args is not a list"),
    }
    assert!(matches!(field(field(&d, "return"), "type"), Document::Text(s) if s == "f64"));
    match field(&d, "outputs") {
        Document::List(items) => {
            assert_eq!(items.len(), 1);
            assert!(matches!(field(&items[0], "index"), Document::Int(1)));
            match field(&items[0], "value") {
                Document::List(xs) => {
                    assert!(matches!(xs.as_slice(), [Document::Int(2), Document::Int(1)]));
                }
                _ => panic!("value is not a list"),
            }
        }
        _ => panic!("outputs is not a list"),
    }
    let empty = CallResult { return_value: None, output_values: vec![] };
    let d = result_document(&empty, "l", "f", &vec![]);
    assert!(matches!(field(&d, "return"), Document::Null));
    assert!(matches!(field(&d, "outputs"), Document::List(xs) if xs.is_empty()));
}

#[test]
fn report_values_keep_pointers_and_callbacks_readable() {
    let args = vec![
        parse_type_token("ptr:0x10").unwrap(),
        parse_type_token("'i32(ptr a, ptr b){ return 0 }'").unwrap(),
    ];
    let result = CallResult { return_value: None, output_values: vec![] };
    let d = result_document(&result, "l", "f", &args);
    match field(&d, "args") {
        Document::List(items) => {
            assert!(matches!(field(&items[0], "value"), Document::Text(s) if s == "0x10"));
            assert!(matches!(field(&items[1], "value"), Document::Text(s) if s == "i32(ptr a, ptr b)"));
            assert!(matches!(field(&items[1], "type"), Document::Text(s) if s == "callback"));
        }
        _ => panic!("args is not a list"),
    }
}
