use libcall::cli::{
    check_spec_alone, command_line_target, expand_short_options, output_format, spec_call_target,
    OutputFormat,
};
use libcall::spec_file::{FileArg, FileCallSpec, SpecValue};

fn strings(v: &[&str]) -> Vec<String> {
    v.iter().map(|s| s.to_string()).collect()
}

#[test]
fn attached_option_values_are_split_off() {
    assert_eq!(
        expand_short_options(&strings(&["libcall", "-lm", "-L/opt/lib", "sqrt", "16.0", ":f64"])),
        strings(&["libcall", "-l", "m", "-L", "/opt/lib", "sqrt", "16.0", ":f64"])
    );
    assert_eq!(
        expand_short_options(&strings(&["libcall", "-l", "m", "-L", "x"])),
        strings(&["libcall", "-l", "m", "-L", "x"])
    );
    assert_eq!(expand_short_options(&strings(&["-lc", "abs"])), strings(&["-l", "c", "abs"]));
}

#[test]
fn attached_and_separate_forms_agree() {
    let a = expand_short_options(&strings(&["libcall", "-lSystem", "getpid"]));
    let b = expand_short_options(&strings(&["libcall", "-l", "System", "getpid"]));
    assert_eq!(a, b);
}

#[test]
fn command_line_targets() {
    let t = command_line_target(&Some("m".to_string()), &strings(&["sqrt", "16.0", ":f64"])).unwrap();
    assert_eq!(t.lib_name, Some("m".to_string()));
    assert_eq!(t.library_path, None);
    assert_eq!(t.function, "sqrt");
    assert_eq!(t.args, strings(&["16.0", ":f64"]));
    let t = command_line_target(&None, &strings(&["./libexample.so", "sum", "4i32:1,2,3,4"])).unwrap();
    assert_eq!(t.lib_name, None);
    assert_eq!(t.library_path, Some("./libexample.so".to_string()));
    assert_eq!(t.function, "sum");
    assert_eq!(t.args, strings(&["4i32:1,2,3,4"]));
    let err = command_line_target(&Some("m".to_string()), &vec![]).unwrap_err();
    assert_eq!(
        err.to_string(),
        "Function name is required\n\nUsage: libcall -l<NAME> <FUNCTION> [ARGS...] [:RETURN_TYPE]"
    );
    let err = command_line_target(&None, &strings(&["./lib.so"])).unwrap_err();
    assert_eq!(
        err.to_string(),
        "Library path and function name are required\n\nUsage: libcall <LIBRARY> <FUNCTION> [ARGS...] [:RETURN_TYPE]"
    );
}

#[test]
fn a_spec_file_stands_alone() {
    assert!(check_spec_alone(&None, &vec![]).is_ok());
    let err = check_spec_alone(&Some("m".to_string()), &vec![]).unwrap_err();
    assert_eq!(err.to_string(), "--spec cannot be combined with -l or positional call arguments");
    assert!(check_spec_alone(&None, &strings(&["sqrt"])).is_err());
}

fn arg(t: &str, value: Option<SpecValue>) -> FileArg {
    FileArg { name: None, arg_type: t.to_string(), value, count: None, mode: None, signature: None, body: None }
}

#[test]
fn spec_file_targets() {
    let spec = FileCallSpec {
        library: "m".to_string(),
        function: "sqrt".to_string(),
        args: vec![arg("f64", Some(SpecValue::Number("16.0".to_string())))],
        returns: "f64".to_string(),
    };
    let t = spec_call_target(&spec).unwrap();
    assert_eq!(t.lib_name, Some("m".to_string()));
    assert_eq!(t.library_path, None);
    assert_eq!(t.function, "sqrt");
    assert_eq!(t.args, strings(&["f64:16.0", ":f64"]));
    let spec = FileCallSpec {
        library: "./libtest.so".to_string(),
        function: "f".to_string(),
        args: vec![arg("i32", None)],
        returns: String::new(),
    };
    let err = spec_call_target(&spec).unwrap_err();
    assert_eq!(err.to_string(), "Input argument requires value");
}

#[test]
fn output_formats() {
    assert_eq!(output_format(&None).unwrap(), OutputFormat::Human);
    assert_eq!(output_format(&Some("json".to_string())).unwrap(), OutputFormat::Json);
    assert_eq!(output_format(&Some("yaml".to_string())).unwrap(), OutputFormat::Yaml);
    assert_eq!(output_format(&Some("human".to_string())).unwrap(), OutputFormat::Human);
    assert_eq!(output_format(&Some("xml".to_string())).unwrap_err().to_string(), "Unknown format: xml");
}
