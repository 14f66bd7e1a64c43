use libcall::grammar::{
    match_callback, match_callback_like, match_input_array, match_output_array,
    match_output_scalar, match_return_type, match_typed_value,
};
use regex::Regex;

const TYPES: &str = "i8|u8|i16|u16|i32|u32|i64|u64|isize|usize|f32|f64|cstr|ptr";

fn samples() -> Vec<String> {
    let base = [
        "@i32", "@u8", "@cstr", "@void", "@", "@i32x", "@16u8", "@4i32:4,2,3,1", "@4i32:", "@0ptr",
        "@٣u8", "@12usize:1,2", "4i32:1,2,3,4", "4i32:", "12f64:1.5", "٣i32:1", "4i32", "i32:-42",
        "u8:255", "callback:x", "cstr:PATH", "cstr:", "ptr:null", "int:3", ":i32", ":void",
        ":double", ":", "::i32", ":i32 ", "'i32(ptr a, ptr b){ return i32(a) - i32(b) }'",
        "'f64(ptr a, ptr b){ return 0.0 }'", "'i32(ptr a){ return 0 } extra'", "'(){}'", "'x(){}'",
        "'a(b)(c){d}{e}'", "'a(b){c}'x'", "'a\n(b){c}'", "'a(b\n){c}'", "'a(b){c\n}'",
        "i32:a\nb", "4i32:1\n2", "@4u8:1\n", "hello", "123", "'", "''", "'a(b)c{d}e'",
        "'x(y) {z}'", "@4i32:1,2:3", "i64:i64:1", "16.0", "", "'a((b)){c}'", "'a(b){{c}}'",
    ];
    base.iter().map(|s| s.to_string()).collect()
}

fn chars(s: &str) -> Vec<char> {
    s.chars().collect()
}

fn slice(v: &[char], a: usize, b: usize) -> String {
    v[a..b].iter().collect()
}

#[test]
fn output_scalar_shape_matches_the_pattern() {
    let re = Regex::new(&format!("^@({})$", TYPES)).unwrap();
    for s in samples() {
        assert_eq!(match_output_scalar(&chars(&s)), re.is_match(&s), "{:?}", s);
    }
}

#[test]
fn output_array_shape_matches_the_pattern() {
    let re = Regex::new(&format!(r"^@(\d+)({})(?::(.+))?$", TYPES)).unwrap();
    for s in samples() {
        let v = chars(&s);
        match (match_output_array(&v), re.captures(&s)) {
            (None, None) => {}
            (Some((de, ne, has_init)), Some(c)) => {
                assert_eq!(slice(&v, 1, de), &c[1], "{:?}", s);
                assert_eq!(slice(&v, de, ne), &c[2], "{:?}", s);
                assert_eq!(has_init, c.get(3).is_some(), "{:?}", s);
                if let Some(init) = c.get(3) {
                    assert_eq!(slice(&v, ne + 1, v.len()), init.as_str(), "{:?}", s);
                }
            }
            (a, b) => panic!("{:?}: {:?} vs {:?}", s, a, b.is_some()),
        }
    }
}

#[test]
fn input_array_shape_matches_the_pattern() {
    let re = Regex::new(&format!(r"^(\d+)({}):(.+)$", TYPES)).unwrap();
    for s in samples() {
        let v = chars(&s);
        match (match_input_array(&v), re.captures(&s)) {
            (None, None) => {}
            (Some((de, ne)), Some(c)) => {
                assert_eq!(slice(&v, 0, de), &c[1], "{:?}", s);
                assert_eq!(slice(&v, de, ne), &c[2], "{:?}", s);
                assert_eq!(slice(&v, ne + 1, v.len()), &c[3], "{:?}", s);
            }
            (a, b) => panic!("{:?}: {:?} vs {:?}", s, a, b.is_some()),
        }
    }
}

#[test]
fn typed_value_shape_matches_the_pattern() {
    let re = Regex::new(&format!(r"^({}|callback):(.+)$", TYPES)).unwrap();
    for s in samples() {
        let v = chars(&s);
        match (match_typed_value(&v), re.captures(&s)) {
            (None, None) => {}
            (Some(ne), Some(c)) => {
                assert_eq!(slice(&v, 0, ne), &c[1], "{:?}", s);
                assert_eq!(slice(&v, ne + 1, v.len()), &c[2], "{:?}", s);
            }
            (a, b) => panic!("{:?}: {:?} vs {:?}", s, a, b.is_some()),
        }
    }
}

#[test]
fn return_type_shape_matches_the_pattern() {
    let re = Regex::new(&format!("^:({}|void)$", TYPES)).unwrap();
    for s in samples() {
        assert_eq!(match_return_type(&chars(&s)), re.is_match(&s), "{:?}", s);
    }
}

#[test]
fn callback_shapes_match_the_patterns() {
    let re = Regex::new(r"^'(.+)\((.*)\)\{(.*)\}'$").unwrap();
    let like = Regex::new(r"^'.*\(.*\).*\{.*\}.*'$").unwrap();
    for s in samples() {
        let v = chars(&s);
        assert_eq!(match_callback_like(&v), like.is_match(&s), "{:?}", s);
        match (match_callback(&v), re.captures(&s)) {
            (None, None) => {}
            (Some((p, q)), Some(c)) => {
                assert_eq!(slice(&v, 1, p), &c[1], "{:?}", s);
                assert_eq!(slice(&v, p + 1, q), &c[2], "{:?}", s);
                assert_eq!(slice(&v, q + 2, v.len() - 2), &c[3], "{:?}", s);
            }
            (a, b) => panic!("{:?}: {:?} vs {:?}", s, a, b.is_some()),
        }
    }
}
