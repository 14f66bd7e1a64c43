use libcall::library::{
    check_library_file, choose_library_file, library_extensions, library_file_matches, library_file_name,
    library_search_result, library_search_start, library_search_step, resolve_library,
    system_library_paths, LibraryLookup, SearchStep, TargetOs,
};

fn strings(v: &[&str]) -> Vec<String> {
    v.iter().map(|s| s.to_string()).collect()
}

#[test]
fn a_path_is_taken_as_it_is() {
    match resolve_library(Some("m"), Some("./libtest.so"), &vec![], &vec![]).unwrap() {
        LibraryLookup::File(p) => assert_eq!(p, "./libtest.so"),
        other => panic!("unexpected {:?}", other),
    }
}

#[test]
fn a_name_is_searched_with_the_lib_prefix() {
    let search = strings(&["/opt/mine"]);
    let system = strings(&["/usr/lib"]);
    match resolve_library(Some("m"), None, &search, &system).unwrap() {
        LibraryLookup::Search { stem, dirs } => {
            assert_eq!(stem, "libm");
            assert_eq!(dirs, strings(&["/opt/mine", "/usr/lib"]));
        }
        other => panic!("unexpected {:?}", other),
    }
    match resolve_library(Some("libz"), None, &vec![], &vec![]).unwrap() {
        LibraryLookup::Search { stem, .. } => assert_eq!(stem, "libz"),
        other => panic!("unexpected {:?}", other),
    }
}

#[test]
fn no_library_is_an_error() {
    let err = resolve_library(None, None, &vec![], &vec![]).unwrap_err();
    assert_eq!(err.to_string(), "No library specified");
}

#[test]
fn system_paths_follow_the_environment() {
    let p = system_library_paths(&strings(&["/a"]), &strings(&["/b"]), TargetOs::Linux);
    assert_eq!(
        p,
        strings(&[
            "/a",
            "/b",
            "/lib",
            "/usr/lib",
            "/lib/x86_64-linux-gnu",
            "/usr/lib/x86_64-linux-gnu",
            "/lib/aarch64-linux-gnu",
            "/usr/lib/aarch64-linux-gnu",
        ])
    );
    let p = system_library_paths(&vec![], &vec![], TargetOs::Macos);
    assert_eq!(p, strings(&["/usr/lib", "/usr/local/lib", "/opt/homebrew/lib"]));
    assert!(system_library_paths(&vec![], &vec![], TargetOs::Other).is_empty());
    assert_eq!(library_extensions(TargetOs::Macos), strings(&["dylib", "so"]));
    assert_eq!(library_extensions(TargetOs::Windows), strings(&["dll"]));
}

#[test]
fn library_files_are_matched_by_stem_and_extension() {
    assert_eq!(library_file_name("libm", "so"), "libm.so");
    assert!(library_file_matches("libm.so.6", "libm", "so"));
    assert!(library_file_matches("libmvec.so.1", "libm", "so"));
    assert!(!library_file_matches("libc.so.6", "libm", "so"));
    assert!(!library_file_matches("libm.a", "libm", "so"));
}

#[test]
fn search_results_and_missing_files() {
    assert_eq!(check_library_file("./x.so", true).unwrap(), "./x.so");
    assert_eq!(
        check_library_file("./x.so", false).unwrap_err().to_string(),
        "Library file not found: ./x.so"
    );
    let dirs = strings(&["/usr/lib", "/lib"]);
    assert_eq!(
        library_search_result("libm", &dirs, Some("/lib/libm.so.6".to_string())).unwrap(),
        "/lib/libm.so.6"
    );
    assert_eq!(
        library_search_result("libnonexistent", &dirs, None).unwrap_err().to_string(),
        "Library not found: libnonexistent\nSearched paths:\n  - /usr/lib\n  - /lib"
    );
}

#[test]
fn a_directory_gives_the_exact_file_first() {
    let entries = Some(strings(&["libmvec.so.1", "libm.so.6"]));
    assert_eq!(
        choose_library_file("libm", TargetOs::Linux, true, &vec![true], &entries, false),
        Some("libm.so".to_string())
    );
    assert_eq!(
        choose_library_file("libm", TargetOs::Linux, true, &vec![false], &entries, false),
        Some("libmvec.so.1".to_string())
    );
    assert_eq!(choose_library_file("libm", TargetOs::Linux, false, &vec![true], &entries, false), None);
    assert_eq!(choose_library_file("libz", TargetOs::Linux, true, &vec![false], &entries, false), None);
    assert_eq!(choose_library_file("libz", TargetOs::Linux, true, &vec![false], &None, false), None);
}

#[test]
fn macos_text_stubs_stand_for_dylibs() {
    let entries = Some(strings(&["libSystem.tbd"]));
    assert_eq!(
        choose_library_file("libSystem", TargetOs::Macos, true, &vec![false, false], &entries, true),
        Some("libSystem.dylib".to_string())
    );
    assert_eq!(
        choose_library_file("libSystem", TargetOs::Linux, true, &vec![false], &entries, true),
        None
    );
    let entries = Some(strings(&["libfoo.so.2", "libfoo.2.dylib"]));
    assert_eq!(
        choose_library_file("libfoo", TargetOs::Macos, true, &vec![false, false], &entries, false),
        Some("libfoo.2.dylib".to_string())
    );
}

fn run_search(stem: &str, dirs: &Vec<String>, hits: &[Option<&str>]) -> Result<String, String> {
    let mut step = library_search_start(stem, dirs);
    loop {
        match step {
            SearchStep::Found(f) => return Ok(f),
            SearchStep::NotFound(e) => return Err(e.to_string()),
            SearchStep::Probe(k) => {
                step = library_search_step(stem, dirs, k, hits[k].map(|h| h.to_string()));
            }
        }
    }
}

#[test]
fn the_first_directory_that_holds_the_library_is_taken() {
    let dirs = strings(&["/opt/mine", "/usr/lib", "/lib"]);
    assert_eq!(
        run_search("libm", &dirs, &[None, Some("/usr/lib/libm.so"), Some("/lib/libm.so.6")]),
        Ok("/usr/lib/libm.so".to_string())
    );
    assert_eq!(
        run_search("libm", &dirs, &[Some("/opt/mine/libm.so"), None, Some("/lib/libm.so.6")]),
        Ok("/opt/mine/libm.so".to_string())
    );
    assert_eq!(
        run_search("libnonexistent", &dirs, &[None, None, None]),
        Err("Library not found: libnonexistent\nSearched paths:\n  - /opt/mine\n  - /usr/lib\n  - /lib".to_string())
    );
    assert_eq!(
        run_search("libm", &vec![], &[]),
        Err("Library not found: libm\nSearched paths:\n".to_string())
    );
}
