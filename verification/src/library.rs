//! Finding the shared library a call goes to: what to look for, where,
//! and what a directory entry must look like to be taken.
use vstd::prelude::*;

use crate::error::{CallError, ErrorView};
use crate::text::{chars_of, extend_chars, extend_str, has_prefix, prefix_at, string_from, string_of};

verus! {

/// The operating systems whose library conventions the lookup knows.
#[derive(Clone, Copy, Debug, PartialEq, Eq, Structural)]
pub enum TargetOs {
    Macos,
    Linux,
    Windows,
    Other,
}

/// The fixed library directories of each system.
pub open spec fn os_library_dirs(os: TargetOs) -> Seq<Seq<char>> {
    match os {
        TargetOs::Macos => seq!["/usr/lib"@, "/usr/local/lib"@, "/opt/homebrew/lib"@],
        TargetOs::Linux => seq![
            "/lib"@,
            "/usr/lib"@,
            "/lib/x86_64-linux-gnu"@,
            "/usr/lib/x86_64-linux-gnu"@,
            "/lib/aarch64-linux-gnu"@,
            "/usr/lib/aarch64-linux-gnu"@,
        ],
        TargetOs::Windows => seq!["C:\\Windows\\System32"@, "C:\\Windows\\SysWOW64"@],
        TargetOs::Other => Seq::empty(),
    }
}

/// The extensions of shared libraries on each system, in the order they
/// are tried.
pub open spec fn os_library_extensions(os: TargetOs) -> Seq<Seq<char>> {
    match os {
        TargetOs::Macos => seq!["dylib"@, "so"@],
        TargetOs::Linux => seq!["so"@],
        TargetOs::Windows => seq!["dll"@],
        TargetOs::Other => seq!["so"@, "dylib"@, "dll"@],
    }
}

/// The views of a list of strings.
pub open spec fn views(v: Seq<String>) -> Seq<Seq<char>> {
    v.map_values(|s: String| s@)
}

fn push_str_item(v: &mut Vec<String>, s: &str)
    ensures
        views(final(v)@) == views(old(v)@).push(s@),
{
    let ghost before = v@;
    v.push(string_from(s));
    assert(views(v@) =~= views(before).push(s@));
}

fn append_strings(v: &mut Vec<String>, w: &Vec<String>)
    ensures
        views(final(v)@) == views(old(v)@) + views(w@),
{
    let ghost v0 = views(v@);
    let mut i: usize = 0;
    while i < w.len()
        invariant
            i <= w.len(),
            views(v@) == v0 + views(w@).take(i as int),
        decreases w.len() - i,
    {
        let ghost before = v@;
        v.push(w[i].clone());
        assert(views(v@) =~= views(before).push(w@[i as int]@));
        assert(views(w@).take(i + 1) =~= views(w@).take(i as int).push(w@[i as int]@));
        i = i + 1;
    }
    assert(views(w@).take(w.len() as int) =~= views(w@));
}

/// The directories searched besides those given with `-L`: the entries of
/// `LD_LIBRARY_PATH` and `DYLD_LIBRARY_PATH` (already split), then the
/// system's own library directories.
pub fn system_library_paths(ld_library_path: &Vec<String>, dyld_library_path: &Vec<String>, os: TargetOs) -> (r: Vec<String>)
    ensures
        views(r@) == views(ld_library_path@) + views(dyld_library_path@) + os_library_dirs(os),
{
    let mut r: Vec<String> = Vec::new();
    assert(views(r@) =~= Seq::<Seq<char>>::empty());
    append_strings(&mut r, ld_library_path);
    append_strings(&mut r, dyld_library_path);
    let ghost base = views(r@);
    match os {
        TargetOs::Macos => {
            push_str_item(&mut r, "/usr/lib");
            push_str_item(&mut r, "/usr/local/lib");
            push_str_item(&mut r, "/opt/homebrew/lib");
        },
        TargetOs::Linux => {
            push_str_item(&mut r, "/lib");
            push_str_item(&mut r, "/usr/lib");
            push_str_item(&mut r, "/lib/x86_64-linux-gnu");
            push_str_item(&mut r, "/usr/lib/x86_64-linux-gnu");
            push_str_item(&mut r, "/lib/aarch64-linux-gnu");
            push_str_item(&mut r, "/usr/lib/aarch64-linux-gnu");
        },
        TargetOs::Windows => {
            push_str_item(&mut r, "C:\\Windows\\System32");
            push_str_item(&mut r, "C:\\Windows\\SysWOW64");
        },
        TargetOs::Other => {},
    }
    assert(views(r@) =~= base + os_library_dirs(os));
    r
}

/// The extensions of shared libraries on `os`, in the order they are tried.
pub fn library_extensions(os: TargetOs) -> (r: Vec<String>)
    ensures
        views(r@) == os_library_extensions(os),
{
    let mut r: Vec<String> = Vec::new();
    assert(views(r@) =~= Seq::<Seq<char>>::empty());
    match os {
        TargetOs::Macos => {
            push_str_item(&mut r, "dylib");
            push_str_item(&mut r, "so");
        },
        TargetOs::Linux => {
            push_str_item(&mut r, "so");
        },
        TargetOs::Windows => {
            push_str_item(&mut r, "dll");
        },
        TargetOs::Other => {
            push_str_item(&mut r, "so");
            push_str_item(&mut r, "dylib");
            push_str_item(&mut r, "dll");
        },
    }
    assert(views(r@) =~= os_library_extensions(os));
    r
}

/// The file name a library is searched under: `lib` is put in front of
/// names that do not start with it.
pub open spec fn library_stem(name: Seq<char>) -> Seq<char> {
    if has_prefix(name, "lib"@) {
        name
    } else {
        "lib"@ + name
    }
}

/// The file `NAME.EXT`.
pub open spec fn library_file_name_spec(stem: Seq<char>, ext: Seq<char>) -> Seq<char> {
    stem + seq!['.'] + ext
}

/// `p` occurs in `s` as a contiguous piece.
pub open spec fn contains_piece(s: Seq<char>, p: Seq<char>) -> bool {
    exists|i: int| 0 <= i && i + p.len() <= s.len() && #[trigger] s.subrange(i, i + p.len()) == p
}

/// A directory entry is taken for a library when its name starts with the
/// library's file stem and contains `.EXT`.
pub open spec fn library_file_matches_spec(file: Seq<char>, stem: Seq<char>, ext: Seq<char>) -> bool {
    has_prefix(file, stem) && contains_piece(file, seq!['.'] + ext)
}

/// The file `stem.ext` (`format!("{}.{}", stem, ext)`).
pub fn library_file_name(stem: &str, ext: &str) -> (r: String)
    ensures
        r@ == library_file_name_spec(stem@, ext@),
{
    let mut v = chars_of(stem);
    v.push('.');
    extend_str(&mut v, ext);
    string_of(&v)
}

fn piece_at(s: &Vec<char>, at: usize, p: &Vec<char>) -> (r: bool)
    requires
        at + p.len() <= s.len(),
    ensures
        r == (s@.subrange(at as int, at + p.len()) == p@),
{
    let mut k: usize = 0;
    while k < p.len()
        invariant
            at + p.len() <= s.len(),
            k <= p.len(),
            forall|j: int| 0 <= j < k ==> s@[at + j] == p@[j],
        decreases p.len() - k,
    {
        if s[at + k] != p[k] {
            assert(s@.subrange(at as int, at + p.len())[k as int] != p@[k as int]);
            return false;
        }
        k = k + 1;
    }
    assert(s@.subrange(at as int, at + p.len()) =~= p@);
    true
}

/// Whether a directory entry named `file_name` is taken for the library
/// with file stem `stem` and extension `ext`.
pub fn library_file_matches(file_name: &str, stem: &str, ext: &str) -> (r: bool)
    ensures
        r == library_file_matches_spec(file_name@, stem@, ext@),
{
    let f = chars_of(file_name);
    assert(f@.skip(0) == f@);
    if !prefix_at(&f, 0, stem) {
        return false;
    }
    let mut p: Vec<char> = Vec::new();
    p.push('.');
    extend_str(&mut p, ext);
    assert(p@ =~= seq!['.'] + ext@);
    if p.len() > f.len() {
        return false;
    }
    let mut i: usize = 0;
    while i <= f.len() - p.len()
        invariant
            p.len() <= f.len(),
            f@ == file_name@,
            has_prefix(f@, stem@),
            p@ == seq!['.'] + ext@,
            i <= f.len() - p.len() + 1,
            forall|j: int| 0 <= j < i ==> #[trigger] f@.subrange(j, j + p@.len()) != p@,
        decreases f.len() + 1 - i,
    {
        if piece_at(&f, i, &p) {
            assert(f@.subrange(i as int, i + p@.len()) == p@);
            return true;
        }
        i = i + 1;
    }
    assert forall|j: int| 0 <= j && j + p@.len() <= f@.len() implies #[trigger] f@.subrange(
        j,
        j + p@.len(),
    ) != p@ by {}
    false
}

/// The first directory entry taken for the library, if any.
pub open spec fn first_matching_entry(entries: Seq<Seq<char>>, stem: Seq<char>, ext: Seq<char>) -> Option<
    Seq<char>,
>
    decreases entries.len(),
{
    if entries.len() == 0 {
        None
    } else if library_file_matches_spec(entries[0], stem, ext) {
        Some(entries[0])
    } else {
        first_matching_entry(entries.drop_first(), stem, ext)
    }
}

/// The file a directory provides for a library, from the extensions at
/// `k` on: for each extension in turn the exact file `STEM.EXT` when it
/// exists, else the first entry that is taken for it.
pub open spec fn pick_from_extensions(
    stem: Seq<char>,
    exts: Seq<Seq<char>>,
    exact_exists: Seq<bool>,
    entries: Option<Seq<Seq<char>>>,
    k: nat,
) -> Option<Seq<char>>
    decreases exts.len() - k,
{
    if k >= exts.len() {
        None
    } else if exact_exists[k as int] {
        Some(library_file_name_spec(stem, exts[k as int]))
    } else {
        match entries {
            Some(es) => match first_matching_entry(es, stem, exts[k as int]) {
                Some(f) => Some(f),
                None => pick_from_extensions(stem, exts, exact_exists, entries, k + 1),
            },
            None => pick_from_extensions(stem, exts, exact_exists, entries, k + 1),
        }
    }
}

/// The file name a directory provides for a library on `os`: see
/// [`pick_from_extensions`]; on macOS a `STEM.tbd` stub stands for
/// `STEM.dylib` when nothing else is found. A path that is not a directory
/// provides nothing.
pub open spec fn library_in_dir_spec(
    stem: Seq<char>,
    os: TargetOs,
    is_dir: bool,
    exact_exists: Seq<bool>,
    entries: Option<Seq<Seq<char>>>,
    tbd_exists: bool,
) -> Option<Seq<char>> {
    if !is_dir {
        None
    } else {
        match pick_from_extensions(stem, os_library_extensions(os), exact_exists, entries, 0) {
            Some(f) => Some(f),
            None => if os == TargetOs::Macos && tbd_exists {
                Some(library_file_name_spec(stem, "dylib"@))
            } else {
                None
            },
        }
    }
}

fn first_match(entries: &Vec<String>, stem: &str, ext: &str) -> (r: Option<String>)
    ensures
        opt_views(r) == first_matching_entry(views(entries@), stem@, ext@),
{
    let ghost es = views(entries@);
    let mut i: usize = 0;
    assert(es.skip(0) =~= es);
    while i < entries.len()
        invariant
            i <= entries.len(),
            es == views(entries@),
            first_matching_entry(es, stem@, ext@) == first_matching_entry(es.skip(i as int), stem@, ext@),
        decreases entries.len() - i,
    {
        assert(es.skip(i as int)[0] == entries@[i as int]@);
        assert(es.skip(i as int).drop_first() =~= es.skip(i + 1));
        if library_file_matches(entries[i].as_str(), stem, ext) {
            return Some(entries[i].clone());
        }
        i = i + 1;
    }
    assert(es.skip(entries.len() as int) =~= Seq::<Seq<char>>::empty());
    None
}

/// The view of an optional string.
pub open spec fn opt_views(o: Option<String>) -> Option<Seq<char>> {
    match o {
        Some(s) => Some(s@),
        None => None,
    }
}

/// Chooses the file a directory provides for a library (see
/// [`library_in_dir_spec`]), given whether the path is a directory, which
/// exact files `STEM.EXT` exist (one flag per extension of `os`, in
/// order), the directory's entry names when it could be listed, and
/// whether a `STEM.tbd` stub exists.
pub fn choose_library_file(
    stem: &str,
    os: TargetOs,
    is_dir: bool,
    exact_exists: &Vec<bool>,
    entries: &Option<Vec<String>>,
    tbd_exists: bool,
) -> (r: Option<String>)
    requires
        exact_exists@.len() == os_library_extensions(os).len(),
    ensures
        opt_views(r) == library_in_dir_spec(
            stem@,
            os,
            is_dir,
            exact_exists@,
            match entries {
                Some(es) => Some(views(es@)),
                None => None,
            },
            tbd_exists,
        ),
{
    if !is_dir {
        return None;
    }
    let exts = library_extensions(os);
    let ghost es: Option<Seq<Seq<char>>> = match entries {
        Some(v) => Some(views(v@)),
        None => None,
    };
    let mut k: usize = 0;
    while k < exts.len()
        invariant
            is_dir,
            k <= exts.len() == exact_exists@.len(),
            views(exts@) == os_library_extensions(os),
            es == (match entries {
                Some(v) => Some(views(v@)),
                None => None,
            }),
            pick_from_extensions(stem@, os_library_extensions(os), exact_exists@, es, 0)
                == pick_from_extensions(stem@, os_library_extensions(os), exact_exists@, es, k as nat),
        decreases exts.len() - k,
    {
        let ext = exts[k].as_str();
        assert(os_library_extensions(os)[k as int] == ext@);
        if exact_exists[k] {
            return Some(library_file_name(stem, ext));
        }
        match entries {
            Some(v) => {
                match first_match(v, stem, ext) {
                    Some(f) => {
                        return Some(f);
                    },
                    None => {},
                }
            },
            None => {},
        }
        k = k + 1;
    }
    if os == TargetOs::Macos && tbd_exists {
        proof {
            reveal_strlit("dylib");
        }
        return Some(library_file_name(stem, "dylib"));
    }
    None
}

/// What to look for: a library file given by path, or a library stem to
/// search for in a list of directories.
#[derive(Debug)]
pub enum LibraryLookup {
    File(String),
    Search { stem: String, dirs: Vec<String> },
}

/// [`LibraryLookup`] as a view.
pub enum LibraryLookupView {
    File(Seq<char>),
    Search { stem: Seq<char>, dirs: Seq<Seq<char>> },
}

impl View for LibraryLookup {
    type V = LibraryLookupView;

    open spec fn view(&self) -> LibraryLookupView {
        match self {
            LibraryLookup::File(p) => LibraryLookupView::File(p@),
            LibraryLookup::Search { stem, dirs } => LibraryLookupView::Search {
                stem: stem@,
                dirs: views(dirs@),
            },
        }
    }
}

/// A path wins over a name; a name is searched in the `-L` directories
/// first and then in the system's.
pub open spec fn resolve_library_spec(
    lib_name: Option<Seq<char>>,
    lib_path: Option<Seq<char>>,
    search_paths: Seq<Seq<char>>,
    system_paths: Seq<Seq<char>>,
) -> Result<LibraryLookupView, ErrorView> {
    match lib_path {
        Some(p) => Ok(LibraryLookupView::File(p)),
        None => match lib_name {
            Some(n) => Ok(
                LibraryLookupView::Search {
                    stem: library_stem(n),
                    dirs: search_paths + system_paths,
                },
            ),
            None => Err(ErrorView::NoLibrary),
        },
    }
}

/// Decides what library to look for and where.
pub fn resolve_library(
    lib_name: Option<&str>,
    lib_path: Option<&str>,
    search_paths: &Vec<String>,
    system_paths: &Vec<String>,
) -> (r: Result<LibraryLookup, CallError>)
    ensures
        match r {
            Ok(l) => resolve_library_spec(
                match lib_name {
                    Some(n) => Some(n@),
                    None => None,
                },
                match lib_path {
                    Some(p) => Some(p@),
                    None => None,
                },
                views(search_paths@),
                views(system_paths@),
            ) == Ok::<LibraryLookupView, ErrorView>(l@),
            Err(e) => resolve_library_spec(
                match lib_name {
                    Some(n) => Some(n@),
                    None => None,
                },
                match lib_path {
                    Some(p) => Some(p@),
                    None => None,
                },
                views(search_paths@),
                views(system_paths@),
            ) == Err::<LibraryLookupView, ErrorView>(e@),
        },
{
    if let Some(p) = lib_path {
        return Ok(LibraryLookup::File(string_from(p)));
    }
    if let Some(n) = lib_name {
        let v = chars_of(n);
        assert(v@.skip(0) == v@);
        let stem = if prefix_at(&v, 0, "lib") {
            string_of(&v)
        } else {
            let mut s = chars_of("lib");
            extend_chars(&mut s, &v);
            string_of(&s)
        };
        let mut dirs: Vec<String> = Vec::new();
        assert(views(dirs@) =~= Seq::<Seq<char>>::empty());
        append_strings(&mut dirs, search_paths);
        append_strings(&mut dirs, system_paths);
        return Ok(LibraryLookup::Search { stem, dirs });
    }
    Err(CallError::NoLibrary)
}

/// A library given by path is taken when the file exists.
pub fn check_library_file(path: &str, exists: bool) -> (r: Result<String, CallError>)
    ensures
        exists ==> (r matches Ok(p) && p@ == path@),
        !exists ==> (r matches Err(e) && e@ == ErrorView::LibraryFileNotFound(path@)),
{
    if exists {
        Ok(string_from(path))
    } else {
        Err(CallError::LibraryFileNotFound(string_from(path)))
    }
}

/// The end of a directory search: the first file found, or the error that
/// lists every directory searched.
pub fn library_search_result(stem: &str, dirs: &Vec<String>, found: Option<String>) -> (r: Result<
    String,
    CallError,
>)
    ensures
        found matches Some(f) ==> (r matches Ok(p) && p@ == f@),
        found is None ==> (r matches Err(e) && e@ == (ErrorView::LibraryNotFound {
            name: stem@,
            searched: views(dirs@),
        })),
{
    match found {
        Some(f) => Ok(f),
        None => {
            let mut searched: Vec<String> = Vec::new();
            assert(views(searched@) =~= Seq::<Seq<char>>::empty());
            append_strings(&mut searched, dirs);
            assert(views(searched@) =~= views(dirs@));
            Err(CallError::LibraryNotFound { name: string_from(stem), searched })
        },
    }
}

/// The next move of a directory search: a file was found, the directory
/// at an index is to be probed next, or the search is over with nothing
/// found.
#[derive(Debug)]
pub enum SearchStep {
    Found(String),
    Probe(usize),
    NotFound(CallError),
}

/// [`SearchStep`] as a view.
pub enum SearchStepView {
    Found(Seq<char>),
    Probe(nat),
    NotFound(ErrorView),
}

impl View for SearchStep {
    type V = SearchStepView;

    open spec fn view(&self) -> SearchStepView {
        match self {
            SearchStep::Found(f) => SearchStepView::Found(f@),
            SearchStep::Probe(k) => SearchStepView::Probe(*k as nat),
            SearchStep::NotFound(e) => SearchStepView::NotFound(e@),
        }
    }
}

/// The error of a search that found nothing: it names the file stem and
/// lists every directory searched.
pub open spec fn not_found_error(stem: Seq<char>, dirs: Seq<Seq<char>>) -> ErrorView {
    ErrorView::LibraryNotFound { name: stem, searched: dirs }
}

/// How a search begins: with the first directory, or, when there is none,
/// with nothing found.
pub open spec fn search_start_spec(stem: Seq<char>, dirs: Seq<Seq<char>>) -> SearchStepView {
    if dirs.len() == 0 {
        SearchStepView::NotFound(not_found_error(stem, dirs))
    } else {
        SearchStepView::Probe(0)
    }
}

/// The move after probing directory `k`: a hit there is the result;
/// otherwise the next directory is probed, and after the last one the
/// search is over with nothing found.
pub open spec fn search_step_spec(
    stem: Seq<char>,
    dirs: Seq<Seq<char>>,
    k: nat,
    hit: Option<Seq<char>>,
) -> SearchStepView {
    match hit {
        Some(f) => SearchStepView::Found(f),
        None => if k + 1 < dirs.len() {
            SearchStepView::Probe(k + 1)
        } else {
            SearchStepView::NotFound(not_found_error(stem, dirs))
        },
    }
}

/// Begins a search for the library file `stem` in `dirs` (see
/// [`search_start_spec`]).
pub fn library_search_start(stem: &str, dirs: &Vec<String>) -> (r: SearchStep)
    ensures
        r@ == search_start_spec(stem@, views(dirs@)),
{
    if dirs.len() == 0 {
        let mut searched: Vec<String> = Vec::new();
        assert(views(searched@) =~= views(dirs@));
        SearchStep::NotFound(CallError::LibraryNotFound { name: string_from(stem), searched })
    } else {
        SearchStep::Probe(0)
    }
}

/// The move after probing directory `k` of the search, given what that
/// directory holds for the library (see [`search_step_spec`]).
pub fn library_search_step(stem: &str, dirs: &Vec<String>, k: usize, hit: Option<String>) -> (r:
    SearchStep)
    requires
        k < dirs.len(),
    ensures
        r@ == search_step_spec(stem@, views(dirs@), k as nat, opt_views(hit)),
{
    match hit {
        Some(f) => SearchStep::Found(f),
        None => {
            if k + 1 < dirs.len() {
                SearchStep::Probe(k + 1)
            } else {
                let mut searched: Vec<String> = Vec::new();
                assert(views(searched@) =~= Seq::<Seq<char>>::empty());
                append_strings(&mut searched, dirs);
                SearchStep::NotFound(CallError::LibraryNotFound { name: string_from(stem), searched })
            }
        },
    }
}

/// What the steps of a search come to from directory `k` on, when probing
/// directory `j` finds `hits[j]`.
pub open spec fn search_run_from(
    stem: Seq<char>,
    dirs: Seq<Seq<char>>,
    hits: Seq<Option<Seq<char>>>,
    k: nat,
) -> Result<Seq<char>, ErrorView>
    decreases dirs.len() - k,
{
    if k >= dirs.len() || k >= hits.len() {
        Err(not_found_error(stem, dirs))
    } else {
        match search_step_spec(stem, dirs, k, hits[k as int]) {
            SearchStepView::Found(f) => Ok(f),
            SearchStepView::Probe(j) => if j > k {
                search_run_from(stem, dirs, hits, j)
            } else {
                Err(not_found_error(stem, dirs))
            },
            SearchStepView::NotFound(e) => Err(e),
        }
    }
}

/// What a whole search comes to, from its start.
pub open spec fn search_run(stem: Seq<char>, dirs: Seq<Seq<char>>, hits: Seq<Option<Seq<char>>>) -> Result<
    Seq<char>,
    ErrorView,
> {
    match search_start_spec(stem, dirs) {
        SearchStepView::Probe(k) => search_run_from(stem, dirs, hits, k),
        SearchStepView::NotFound(e) => Err(e),
        SearchStepView::Found(f) => Ok(f),
    }
}

proof fn lemma_search_run_from(
    stem: Seq<char>,
    dirs: Seq<Seq<char>>,
    hits: Seq<Option<Seq<char>>>,
    k: nat,
)
    requires
        hits.len() == dirs.len(),
        k < dirs.len(),
    ensures
        forall|m: int|
            k <= m < dirs.len() && (#[trigger] hits[m]) is Some && (forall|j: int|
                k <= j < m ==> hits[j] is None) ==> search_run_from(stem, dirs, hits, k) == Ok::<
                Seq<char>,
                ErrorView,
            >(hits[m]->Some_0),
        (forall|j: int| k <= j < dirs.len() ==> hits[j] is None) ==> search_run_from(
            stem,
            dirs,
            hits,
            k,
        ) == Err::<Seq<char>, ErrorView>(not_found_error(stem, dirs)),
    decreases dirs.len() - k,
{
    if k + 1 < dirs.len() {
        lemma_search_run_from(stem, dirs, hits, k + 1);
        assert forall|m: int|
            k <= m < dirs.len() && (#[trigger] hits[m]) is Some && (forall|j: int|
                k <= j < m ==> hits[j] is None) implies search_run_from(stem, dirs, hits, k) == Ok::<
            Seq<char>,
            ErrorView,
        >(hits[m]->Some_0) by {
            if m > k {
                assert(hits[k as int] is None);
                assert forall|j: int| k + 1 <= j < m implies hits[j] is None by {
                    assert(k <= j < m);
                }
            }
        }
        if forall|j: int| k <= j < dirs.len() ==> hits[j] is None {
            assert(hits[k as int] is None);
        }
    }
}

/// A library search takes the first directory, in search order, that
/// holds the library, and finds nothing, with the error that names the
/// stem and lists every directory searched, only when none holds it:
/// running [`library_search_start`] and [`library_search_step`] with
/// `hits[k]` as what directory `k` holds.
pub proof fn law_search_takes_first_hit(
    stem: Seq<char>,
    dirs: Seq<Seq<char>>,
    hits: Seq<Option<Seq<char>>>,
)
    requires
        hits.len() == dirs.len(),
    ensures
        forall|m: int|
            0 <= m < dirs.len() && (#[trigger] hits[m]) is Some && (forall|j: int|
                0 <= j < m ==> hits[j] is None) ==> search_run(stem, dirs, hits) == Ok::<
                Seq<char>,
                ErrorView,
            >(hits[m]->Some_0),
        (forall|j: int| 0 <= j < dirs.len() ==> hits[j] is None) ==> search_run(stem, dirs, hits)
            == Err::<Seq<char>, ErrorView>(not_found_error(stem, dirs)),
{
    if dirs.len() > 0 {
        lemma_search_run_from(stem, dirs, hits, 0);
    }
}

} // verus!
