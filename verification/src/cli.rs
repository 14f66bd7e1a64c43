//! The decisions of the command line: how short options are written, which
//! library, function and argument tokens a run calls, and in which format
//! the result is shown.
use vstd::prelude::*;

use crate::error::CallError;
use crate::parser::strings_view;
use crate::spec_file::{opt_view, spec_arg_tokens, spec_tokens_spec, split_library_spec, split_spec_library, FileCallSpec, FileCallSpecView};
use crate::text::{chars_eq_str, chars_of, has_prefix, prefix_at, slice_chars, string_from, string_of};
use crate::error::ErrorView;

verus! {

/// How one command-line word is read: `-lNAME` becomes `-l` and `NAME`,
/// `-LPATH` becomes `-L` and `PATH`; any other word, `-l` and `-L` among
/// them, stays as it is.
pub open spec fn expand_word(w: Seq<char>) -> Seq<Seq<char>> {
    if has_prefix(w, "-l"@) && w.len() > 2 {
        seq!["-l"@, w.skip(2)]
    } else if has_prefix(w, "-L"@) && w.len() > 2 {
        seq!["-L"@, w.skip(2)]
    } else {
        seq![w]
    }
}

/// The command-line words with every attached short option split off.
pub open spec fn expand_words(ws: Seq<Seq<char>>) -> Seq<Seq<char>>
    decreases ws.len(),
{
    if ws.len() == 0 {
        Seq::empty()
    } else {
        expand_words(ws.drop_last()) + expand_word(ws.last())
    }
}

/// Expanding a list of words expands each part of it on its own.
pub proof fn lemma_expand_words_concat(a: Seq<Seq<char>>, b: Seq<Seq<char>>)
    ensures
        expand_words(a + b) == expand_words(a) + expand_words(b),
    decreases b.len(),
{
    if b.len() == 0 {
        assert(a + b =~= a);
        assert(expand_words(a) + expand_words(b) =~= expand_words(a));
    } else {
        lemma_expand_words_concat(a, b.drop_last());
        assert((a + b).drop_last() =~= a + b.drop_last());
        assert((a + b).last() == b.last());
        assert(expand_words(a + b) =~= expand_words(a) + expand_words(b));
    }
}

/// An option value may be attached or given as the next word: `-lNAME`
/// reads as `-l NAME`, and `-LPATH` as `-L PATH`, wherever they stand
/// (for a value that is not itself an attached option).
pub proof fn law_attached_option_value(
    before: Seq<Seq<char>>,
    option: Seq<char>,
    value: Seq<char>,
    after: Seq<Seq<char>>,
)
    requires
        option == "-l"@ || option == "-L"@,
        value.len() > 0,
        expand_word(value) == seq![value],
    ensures
        expand_words(before + seq![option + value] + after) == expand_words(
            before + seq![option, value] + after,
        ),
{
    reveal_strlit("-l");
    reveal_strlit("-L");
    let w = option + value;
    assert(w.take(2) =~= option);
    assert(w.skip(2) =~= value);
    assert(expand_word(w) == seq![option, value]);
    assert(expand_word(option) == seq![option]);
    let e = Seq::<Seq<char>>::empty();
    assert(expand_words(e) == e);
    assert(seq![w].drop_last() =~= e);
    assert(expand_words(seq![w]) == expand_words(e) + expand_word(w));
    assert(expand_words(seq![w]) =~= seq![option, value]);
    assert(seq![option].drop_last() =~= e);
    assert(expand_words(seq![option]) == expand_words(e) + expand_word(option));
    assert(expand_words(seq![option]) =~= seq![option]);
    assert(seq![option, value].drop_last() =~= seq![option]);
    assert(expand_words(seq![option, value]) == expand_words(seq![option]) + expand_word(value));
    assert(expand_words(seq![option, value]) =~= seq![option, value]);
    lemma_expand_words_concat(before, seq![w]);
    lemma_expand_words_concat(before + seq![w], after);
    lemma_expand_words_concat(before, seq![option, value]);
    lemma_expand_words_concat(before + seq![option, value], after);
}

/// Splits attached values off the `-l` and `-L` options (see
/// [`expand_word`]), so that `-lm` reads as `-l m`.
pub fn expand_short_options(args: &Vec<String>) -> (r: Vec<String>)
    ensures
        strings_view(r@) == expand_words(strings_view(args@)),
{
    proof {
        reveal_strlit("-l");
        reveal_strlit("-L");
    }
    let ghost ws = strings_view(args@);
    let mut out: Vec<String> = Vec::new();
    let mut i: usize = 0;
    assert(ws.take(0) =~= Seq::<Seq<char>>::empty());
    assert(strings_view(out@) =~= Seq::<Seq<char>>::empty());
    while i < args.len()
        invariant
            i <= args.len(),
            ws == strings_view(args@),
            strings_view(out@) == expand_words(ws.take(i as int)),
            "-l"@ == seq!['-', 'l'],
            "-L"@ == seq!['-', 'L'],
        decreases args.len() - i,
    {
        let w = chars_of(args[i].as_str());
        let ghost before = out@;
        assert(w@.skip(0) == w@);
        if w.len() > 2 && prefix_at(&w, 0, "-l") {
            out.push(string_from("-l"));
            out.push(string_of(&slice_chars(&w, 2, w.len())));
        } else if w.len() > 2 && prefix_at(&w, 0, "-L") {
            out.push(string_from("-L"));
            out.push(string_of(&slice_chars(&w, 2, w.len())));
        } else {
            out.push(args[i].clone());
        }
        assert(ws.take(i + 1).drop_last() =~= ws.take(i as int));
        assert(ws.take(i + 1).last() == w@);
        assert(strings_view(out@) =~= strings_view(before) + expand_word(w@));
        i = i + 1;
    }
    assert(ws.take(args.len() as int) =~= ws);
    out
}

/// What a run calls: a library name to search for or a library path, the
/// function, and the tokens of its arguments and return type.
#[derive(Debug)]
pub struct CallTarget {
    pub lib_name: Option<String>,
    pub library_path: Option<String>,
    pub function: String,
    pub args: Vec<String>,
}

/// [`CallTarget`] as a view.
pub struct CallTargetView {
    pub lib_name: Option<Seq<char>>,
    pub library_path: Option<Seq<char>>,
    pub function: Seq<char>,
    pub args: Seq<Seq<char>>,
}

impl View for CallTarget {
    type V = CallTargetView;

    open spec fn view(&self) -> CallTargetView {
        CallTargetView {
            lib_name: opt_view(self.lib_name),
            library_path: opt_view(self.library_path),
            function: self.function@,
            args: strings_view(self.args@),
        }
    }
}

/// A spec file stands alone: no `-l` option and no positional words may
/// come with it.
pub fn check_spec_alone(lib_name: &Option<String>, positional: &Vec<String>) -> (r: Result<
    (),
    CallError,
>)
    ensures
        r is Ok <==> (lib_name is None && positional@.len() == 0),
        r matches Err(e) ==> e@ == ErrorView::SpecWithCallArgs,
{
    if lib_name.is_some() || positional.len() > 0 {
        Err(CallError::SpecWithCallArgs)
    } else {
        Ok(())
    }
}

/// The call a spec file describes: its `library` entry read as a name or
/// a path, its function, and the tokens of its arguments and return type.
pub open spec fn spec_target_spec(spec: FileCallSpecView) -> Result<CallTargetView, ErrorView> {
    match spec_tokens_spec(spec) {
        Err(e) => Err(e),
        Ok(ts) => Ok(
            CallTargetView {
                lib_name: split_library_spec(spec.library).0,
                library_path: split_library_spec(spec.library).1,
                function: spec.function,
                args: ts,
            },
        ),
    }
}

/// The call a spec file describes (see [`spec_target_spec`]).
pub fn spec_call_target(spec: &FileCallSpec) -> (r: Result<CallTarget, CallError>)
    ensures
        match r {
            Ok(t) => spec_target_spec(spec@) == Ok::<CallTargetView, ErrorView>(t@),
            Err(e) => spec_target_spec(spec@) == Err::<CallTargetView, ErrorView>(e@),
        },
{
    let (lib_name, library_path) = split_spec_library(spec.library.as_str());
    match spec_arg_tokens(spec) {
        Ok(args) => {
            assert(strings_view(args@) == args@.map_values(|t: String| t@));
            Ok(CallTarget { lib_name, library_path, function: spec.function.clone(), args })
        },
        Err(e) => Err(e),
    }
}

/// The call the command line names: with `-l NAME`, the first positional
/// word is the function and the rest are its tokens; without it, the
/// first is the library path and the second the function.
pub open spec fn command_target_spec(lib_name: Option<Seq<char>>, positional: Seq<Seq<char>>) -> Result<
    CallTargetView,
    ErrorView,
> {
    match lib_name {
        Some(name) => if positional.len() == 0 {
            Err(ErrorView::MissingFunction)
        } else {
            Ok(
                CallTargetView {
                    lib_name: Some(name),
                    library_path: None,
                    function: positional[0],
                    args: positional.skip(1),
                },
            )
        },
        None => if positional.len() < 2 {
            Err(ErrorView::MissingLibraryAndFunction)
        } else {
            Ok(
                CallTargetView {
                    lib_name: None,
                    library_path: Some(positional[0]),
                    function: positional[1],
                    args: positional.skip(2),
                },
            )
        },
    }
}

fn strings_from(v: &Vec<String>, from: usize) -> (r: Vec<String>)
    requires
        from <= v.len(),
    ensures
        strings_view(r@) == strings_view(v@).skip(from as int),
{
    let mut out: Vec<String> = Vec::new();
    let mut i: usize = from;
    while i < v.len()
        invariant
            from <= i <= v.len(),
            strings_view(out@) == strings_view(v@).subrange(from as int, i as int),
        decreases v.len() - i,
    {
        let ghost before = out@;
        out.push(v[i].clone());
        assert(strings_view(out@) =~= strings_view(before).push(v@[i as int]@));
        assert(strings_view(v@).subrange(from as int, i + 1) =~= strings_view(v@).subrange(
            from as int,
            i as int,
        ).push(v@[i as int]@));
        i = i + 1;
    }
    assert(strings_view(v@).subrange(from as int, v.len() as int) =~= strings_view(v@).skip(
        from as int,
    ));
    out
}

/// The call the command line names (see [`command_target_spec`]).
pub fn command_line_target(lib_name: &Option<String>, positional: &Vec<String>) -> (r: Result<
    CallTarget,
    CallError,
>)
    ensures
        match r {
            Ok(t) => command_target_spec(opt_view(*lib_name), strings_view(positional@)) == Ok::<
                CallTargetView,
                ErrorView,
            >(t@),
            Err(e) => command_target_spec(opt_view(*lib_name), strings_view(positional@)) == Err::<
                CallTargetView,
                ErrorView,
            >(e@),
        },
{
    match lib_name {
        Some(name) => {
            if positional.len() == 0 {
                return Err(CallError::MissingFunction);
            }
            let args = strings_from(positional, 1);
            Ok(
                CallTarget {
                    lib_name: Some(name.clone()),
                    library_path: None,
                    function: positional[0].clone(),
                    args,
                },
            )
        },
        None => {
            if positional.len() < 2 {
                return Err(CallError::MissingLibraryAndFunction);
            }
            let args = strings_from(positional, 2);
            Ok(
                CallTarget {
                    lib_name: None,
                    library_path: Some(positional[0].clone()),
                    function: positional[1].clone(),
                    args,
                },
            )
        },
    }
}

/// The formats a result can be shown in.
#[derive(Clone, Copy, Debug, PartialEq, Eq, Structural)]
pub enum OutputFormat {
    Human,
    Json,
    Yaml,
}

/// The format a `--format` value names: `json`, `yaml` or `human`, and
/// `human` when none is given.
pub open spec fn output_format_spec(format: Option<Seq<char>>) -> Result<OutputFormat, ErrorView> {
    match format {
        None => Ok(OutputFormat::Human),
        Some(f) => if f == "json"@ {
            Ok(OutputFormat::Json)
        } else if f == "yaml"@ {
            Ok(OutputFormat::Yaml)
        } else if f == "human"@ {
            Ok(OutputFormat::Human)
        } else {
            Err(ErrorView::UnknownFormat(f))
        },
    }
}

/// The format a `--format` value names (see [`output_format_spec`]).
pub fn output_format(format: &Option<String>) -> (r: Result<OutputFormat, CallError>)
    ensures
        match r {
            Ok(f) => output_format_spec(opt_view(*format)) == Ok::<OutputFormat, ErrorView>(f),
            Err(e) => output_format_spec(opt_view(*format)) == Err::<OutputFormat, ErrorView>(e@),
        },
{
    match format {
        None => Ok(OutputFormat::Human),
        Some(f) => {
            let v = chars_of(f.as_str());
            if chars_eq_str(&v, "json") {
                Ok(OutputFormat::Json)
            } else if chars_eq_str(&v, "yaml") {
                Ok(OutputFormat::Yaml)
            } else if chars_eq_str(&v, "human") {
                Ok(OutputFormat::Human)
            } else {
                Err(CallError::UnknownFormat(f.clone()))
            }
        },
    }
}

} // verus!
