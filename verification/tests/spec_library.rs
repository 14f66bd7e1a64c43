use libcall::spec_file::split_spec_library;

#[test]
fn split_spec_library_accepts_dash_l_form() {
    assert_eq!(split_spec_library("-lm"), (Some("m".to_string()), None));
}

#[test]
fn split_spec_library_treats_plain_name_as_library_name() {
    assert_eq!(split_spec_library("m"), (Some("m".to_string()), None));
}

#[test]
fn split_spec_library_treats_paths_as_library_paths() {
    assert_eq!(
        split_spec_library("./libtest.so"),
        (None, Some("./libtest.so".to_string()))
    );
    assert_eq!(
        split_spec_library("C:\\Windows\\System32\\ucrtbase.dll"),
        (
            None,
            Some("C:\\Windows\\System32\\ucrtbase.dll".to_string())
        )
    );
}

#[test]
fn split_spec_library_trims_and_reads_versioned_names_as_paths() {
    assert_eq!(split_spec_library("  m  "), (Some("m".to_string()), None));
    assert_eq!(split_spec_library(" -lSystem\n"), (Some("System".to_string()), None));
    assert_eq!(
        split_spec_library("libc.so.6"),
        (None, Some("libc.so.6".to_string()))
    );
    assert_eq!(split_spec_library("-l"), (Some(String::new()), None));
}

#[test]
fn bare_name_and_dash_l_name_agree() {
    for name in ["m", "c", "System", "pthread"] {
        let dashed = format!("-l{}", name);
        assert_eq!(split_spec_library(name), split_spec_library(&dashed));
        let (n, p) = split_spec_library(name);
        assert!(n.is_some() != p.is_some());
    }
}
