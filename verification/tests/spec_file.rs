use libcall::error::CallError;
use libcall::spec_file::{
    arg_value, file_arg_to_token, json_value_to_token, spec_arg_tokens, spec_format_for_extension,
    FileArg, FileCallSpec, SpecFormat, SpecValue,
};

fn arg(t: &str) -> FileArg {
    FileArg { name: None, arg_type: t.to_string(), value: None, count: None, mode: None, signature: None, body: None }
}

fn num(s: &str) -> SpecValue {
    SpecValue::Number(s.to_string())
}

#[test]
fn input_arguments_become_typed_tokens() {
    let mut a = arg("f64");
    a.value = Some(num("16.0"));
    assert_eq!(file_arg_to_token(&a).unwrap(), "f64:16.0");
    let mut a = arg(" i32 ");
    a.value = Some(SpecValue::Array(vec![num("1"), num("2"), num("3")]));
    a.count = Some(3);
    assert_eq!(file_arg_to_token(&a).unwrap(), "3i32:1,2,3");
    let mut a = arg("cstr");
    a.value = Some(SpecValue::String("hello".to_string()));
    a.mode = Some("input".to_string());
    assert_eq!(file_arg_to_token(&a).unwrap(), "cstr:hello");
}

#[test]
fn output_and_inout_arguments() {
    let mut a = arg("u8");
    a.mode = Some("output".to_string());
    a.count = Some(16);
    assert_eq!(file_arg_to_token(&a).unwrap(), "@16u8");
    a.count = None;
    assert_eq!(file_arg_to_token(&a).unwrap(), "@u8");
    let mut a = arg("i32");
    a.mode = Some("inout".to_string());
    a.count = Some(4);
    a.value = Some(SpecValue::Array(vec![num("4"), num("2"), num("3"), num("1")]));
    assert_eq!(file_arg_to_token(&a).unwrap(), "@4i32:4,2,3,1");
    a.count = None;
    assert_eq!(
        file_arg_to_token(&a).unwrap_err().to_string(),
        "Scalar inout arguments are not supported; use output or an array count"
    );
}

#[test]
fn callback_arguments() {
    let mut a = arg("callback");
    a.signature = Some(" i32(ptr a, ptr b) ".to_string());
    a.body = Some(" return i32(a) - i32(b) ".to_string());
    assert_eq!(file_arg_to_token(&a).unwrap(), "'i32(ptr a, ptr b){ return i32(a) - i32(b) }'");
    let mut a = arg("ptr");
    a.mode = Some("callback".to_string());
    assert_eq!(file_arg_to_token(&a).unwrap_err().to_string(), "Callback argument requires signature");
    a.signature = Some("i32(ptr a, ptr b)".to_string());
    assert_eq!(file_arg_to_token(&a).unwrap_err().to_string(), "Callback argument requires body");
}

#[test]
fn refused_arguments() {
    let mut a = arg("i32");
    a.mode = Some("sideways".to_string());
    assert_eq!(file_arg_to_token(&a).unwrap_err().to_string(), "Unknown argument mode: sideways");
    let a = arg("i32");
    assert_eq!(file_arg_to_token(&a).unwrap_err().to_string(), "Input argument requires value");
    let mut a = arg("i32");
    a.value = Some(SpecValue::Array(vec![SpecValue::Array(vec![])]));
    assert_eq!(
        arg_value(&a).unwrap_err().to_string(),
        "Nested arrays are not supported in spec arguments"
    );
    a.value = Some(SpecValue::Object);
    assert_eq!(
        arg_value(&a).unwrap_err().to_string(),
        "Objects are not supported in spec argument values"
    );
}

#[test]
fn scalar_values_as_text() {
    assert_eq!(json_value_to_token(&SpecValue::Null).unwrap(), "null");
    assert_eq!(json_value_to_token(&SpecValue::Bool(true)).unwrap(), "true");
    assert_eq!(json_value_to_token(&SpecValue::Bool(false)).unwrap(), "false");
    assert_eq!(json_value_to_token(&num("-3")).unwrap(), "-3");
}

#[test]
fn return_types_join_the_tokens() {
    let mut a = arg("f64");
    a.value = Some(num("16.0"));
    let spec = FileCallSpec { library: "m".to_string(), function: "sqrt".to_string(), args: vec![a], returns: "f64".to_string() };
    assert_eq!(spec_arg_tokens(&spec).unwrap(), vec!["f64:16.0".to_string(), ":f64".to_string()]);
    let spec = FileCallSpec { library: "m".to_string(), function: "f".to_string(), args: vec![], returns: ":i32".to_string() };
    assert_eq!(spec_arg_tokens(&spec).unwrap(), vec![":i32".to_string()]);
    let spec = FileCallSpec { library: "m".to_string(), function: "f".to_string(), args: vec![], returns: "  ".to_string() };
    assert!(spec_arg_tokens(&spec).unwrap().is_empty());
}

#[test]
fn spec_file_formats_by_extension() {
    assert_eq!(spec_format_for_extension(Some("json")).unwrap(), SpecFormat::Json);
    assert_eq!(spec_format_for_extension(Some("yaml")).unwrap(), SpecFormat::Yaml);
    assert_eq!(spec_format_for_extension(Some("yml")).unwrap(), SpecFormat::Yaml);
    assert_eq!(
        spec_format_for_extension(Some("toml")).unwrap_err().to_string(),
        "Unsupported spec file extension: .toml (expected .json, .yaml, or .yml)"
    );
    assert_eq!(
        spec_format_for_extension(None).unwrap_err().to_string(),
        "Spec file must have an extension: .json, .yaml, or .yml"
    );
}

#[test]
fn buffer_errors_read_as_shown() {
    assert_eq!(CallError::UnsupportedArrayElement.to_string(), "Unsupported value type for array element");
    assert_eq!(CallError::UnsupportedReadType.to_string(), "Unsupported type for reading from pointer");
}
