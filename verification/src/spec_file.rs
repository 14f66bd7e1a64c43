//! Call specifications stored in files: turning the arguments a spec file
//! describes into the same tokens the command line takes, choosing the
//! file format by extension, and reading the `library` entry.
use vstd::prelude::*;

use crate::error::{join, CallError, ErrorView};
use crate::text::{
    chars_eq_str, chars_of, contains_char, decimal, decimal_chars, extend_chars, extend_str,
    has_prefix, is_white_space, lemma_trim_unchanged, prefix_at, slice_chars, string_of, trim,
    trimmed,
};

verus! {

/// A value of a spec-file argument (a JSON value, with numbers kept as the
/// text they print as).
#[derive(Debug)]
pub enum SpecValue {
    Null,
    Bool(bool),
    Number(String),
    String(String),
    Array(Vec<SpecValue>),
    Object,
}

/// [`SpecValue`] with strings and elements as sequences.
pub enum SpecValueView {
    Null,
    Bool(bool),
    Number(Seq<char>),
    String(Seq<char>),
    Array(Seq<SpecValueView>),
    Object,
}

/// The view of a spec value.
pub open spec fn spec_value_view(v: SpecValue) -> SpecValueView
    decreases v,
{
    match v {
        SpecValue::Null => SpecValueView::Null,
        SpecValue::Bool(b) => SpecValueView::Bool(b),
        SpecValue::Number(s) => SpecValueView::Number(s@),
        SpecValue::String(s) => SpecValueView::String(s@),
        SpecValue::Array(vs) => SpecValueView::Array(
            Seq::new(
                vs@.len(),
                |i: int|
                    if 0 <= i < vs@.len() {
                        spec_value_view(vs@[i])
                    } else {
                        SpecValueView::Null
                    },
            ),
        ),
        SpecValue::Object => SpecValueView::Object,
    }
}

impl View for SpecValue {
    type V = SpecValueView;

    open spec fn view(&self) -> SpecValueView {
        spec_value_view(*self)
    }
}

/// One argument of a spec file.
#[derive(Debug)]
pub struct FileArg {
    pub name: Option<String>,
    pub arg_type: String,
    pub value: Option<SpecValue>,
    pub count: Option<usize>,
    pub mode: Option<String>,
    pub signature: Option<String>,
    pub body: Option<String>,
}

/// A whole spec file.
#[derive(Debug)]
pub struct FileCallSpec {
    pub library: String,
    pub function: String,
    pub args: Vec<FileArg>,
    pub returns: String,
}

/// The view of an optional string.
pub open spec fn opt_view(o: Option<String>) -> Option<Seq<char>> {
    match o {
        Some(s) => Some(s@),
        None => None,
    }
}

/// The text a scalar spec value stands for on the command line; nested
/// arrays and objects have none.
pub open spec fn json_token_spec(v: SpecValueView) -> Result<Seq<char>, ErrorView> {
    match v {
        SpecValueView::Null => Ok("null"@),
        SpecValueView::Bool(b) => Ok(
            if b {
                "true"@
            } else {
                "false"@
            },
        ),
        SpecValueView::Number(s) => Ok(s),
        SpecValueView::String(s) => Ok(s),
        SpecValueView::Array(_) => Err(ErrorView::NestedArray),
        SpecValueView::Object => Err(ErrorView::ObjectValue),
    }
}

/// The tokens of the elements, in order; the first element that has none
/// gives the error.
pub open spec fn json_tokens_spec(vs: Seq<SpecValueView>) -> Result<Seq<Seq<char>>, ErrorView>
    decreases vs.len(),
{
    if vs.len() == 0 {
        Ok(Seq::empty())
    } else {
        match json_tokens_spec(vs.drop_last()) {
            Err(e) => Err(e),
            Ok(ts) => match json_token_spec(vs.last()) {
                Ok(t) => Ok(ts.push(t)),
                Err(e) => Err(e),
            },
        }
    }
}

/// The value text of an argument: an array's elements joined with `,`,
/// or the scalar's text.
pub open spec fn arg_value_spec(value: Option<SpecValueView>) -> Result<Seq<char>, ErrorView> {
    match value {
        None => Err(ErrorView::MissingValue),
        Some(SpecValueView::Array(vs)) => match json_tokens_spec(vs) {
            Ok(ts) => Ok(join(ts, ","@)),
            Err(e) => Err(e),
        },
        Some(v) => json_token_spec(v),
    }
}

/// The result of turning a string result into its view.
pub open spec fn string_result_view(r: Result<String, CallError>) -> Result<Seq<char>, ErrorView> {
    match r {
        Ok(s) => Ok(s@),
        Err(e) => Err(e@),
    }
}

/// The text of one spec value.
pub fn json_value_to_token(value: &SpecValue) -> (r: Result<String, CallError>)
    ensures
        string_result_view(r) == json_token_spec(value@),
{
    match value {
        SpecValue::Null => Ok(crate::text::string_from("null")),
        SpecValue::Bool(b) => Ok(
            if *b {
                crate::text::string_from("true")
            } else {
                crate::text::string_from("false")
            },
        ),
        SpecValue::Number(s) => Ok(s.clone()),
        SpecValue::String(s) => Ok(s.clone()),
        SpecValue::Array(_) => Err(CallError::NestedArray),
        SpecValue::Object => Err(CallError::ObjectValue),
    }
}

/// The value text of an argument.
pub fn arg_value(arg: &FileArg) -> (r: Result<String, CallError>)
    ensures
        string_result_view(r) == arg_value_spec(
            match arg.value {
                Some(v) => Some(v@),
                None => None,
            },
        ),
{
    let value = match &arg.value {
        Some(v) => v,
        None => {
            return Err(CallError::MissingValue);
        },
    };
    match value {
        SpecValue::Array(values) => {
            let ghost vs = value@->Array_0;
            assert(vs.len() == values@.len());
            let mut out: Vec<char> = Vec::new();
            let mut i: usize = 0;
            let ghost mut ts: Seq<Seq<char>> = Seq::empty();
            assert(vs.take(0) =~= Seq::<SpecValueView>::empty());
            while i < values.len()
                invariant
                    i <= values.len() == vs.len(),
                    vs == value@->Array_0,
                    arg_value_spec(
                        match arg.value {
                            Some(v) => Some(v@),
                            None => None,
                        },
                    ) == match json_tokens_spec(vs) {
                        Ok(ts) => Ok(join(ts, ","@)),
                        Err(e) => Err(e),
                    },
                    forall|k: int| 0 <= k < vs.len() ==> #[trigger] vs[k] == values@[k]@,
                    json_tokens_spec(vs.take(i as int)) == Ok::<Seq<Seq<char>>, ErrorView>(ts),
                    out@ == join(ts, ","@),
                decreases values.len() - i,
            {
                proof {
                    lemma_json_tokens_prefix(vs, i as int);
                    assert(vs.take(i + 1).drop_last() == vs.take(i as int));
                    assert(vs.take(i + 1).last() == vs[i as int]);
                    assert(vs[i as int] == values@[i as int]@);
                }
                match json_value_to_token(&values[i]) {
                    Ok(t) => {
                        if i > 0 {
                            extend_str(&mut out, ",");
                        }
                        extend_str(&mut out, t.as_str());
                        proof {
                            let old_ts = ts;
                            assert(old_ts.len() == i);
                            assert(old_ts.push(t@).drop_last() =~= old_ts);
                            if old_ts.len() == 0 {
                                assert(old_ts.push(t@) =~= seq![t@]);
                            }
                            ts = old_ts.push(t@);
                        }
                    },
                    Err(e) => {
                        assert(json_tokens_spec(vs.take(i + 1)) is Err);
                        assert(json_tokens_spec(vs) == json_tokens_spec(vs.take(i + 1)));
                        return Err(e);
                    },
                }
                i = i + 1;
            }
            assert(vs.take(vs.len() as int) == vs);
            Ok(string_of(&out))
        },
        _ => json_value_to_token(value),
    }
}

proof fn lemma_json_tokens_prefix(vs: Seq<SpecValueView>, i: int)
    requires
        0 <= i < vs.len(),
    ensures
        json_tokens_spec(vs.take(i + 1)) is Err ==> json_tokens_spec(vs) == json_tokens_spec(
            vs.take(i + 1),
        ),
        json_tokens_spec(vs.take(i)) matches Ok(ts) ==> ts.len() == i,
    decreases vs.len() - i,
{
    lemma_json_tokens_len(vs.take(i));
    if i + 1 < vs.len() {
        assert(vs.take(i + 2).drop_last() == vs.take(i + 1));
        lemma_json_tokens_prefix(vs, i + 1);
    } else {
        assert(vs.take(i + 1) == vs);
    }
}

proof fn lemma_json_tokens_len(vs: Seq<SpecValueView>)
    ensures
        json_tokens_spec(vs) matches Ok(ts) ==> ts.len() == vs.len(),
    decreases vs.len(),
{
    if vs.len() > 0 {
        lemma_json_tokens_len(vs.drop_last());
    }
}

/// [`FileArg`] as a view.
pub struct FileArgView {
    pub name: Option<Seq<char>>,
    pub arg_type: Seq<char>,
    pub value: Option<SpecValueView>,
    pub count: Option<nat>,
    pub mode: Option<Seq<char>>,
    pub signature: Option<Seq<char>>,
    pub body: Option<Seq<char>>,
}

impl View for FileArg {
    type V = FileArgView;

    open spec fn view(&self) -> FileArgView {
        FileArgView {
            name: opt_view(self.name),
            arg_type: self.arg_type@,
            value: match self.value {
                Some(v) => Some(v@),
                None => None,
            },
            count: match self.count {
                Some(c) => Some(c as nat),
                None => None,
            },
            mode: opt_view(self.mode),
            signature: opt_view(self.signature),
            body: opt_view(self.body),
        }
    }
}

/// [`FileCallSpec`] as a view.
pub struct FileCallSpecView {
    pub library: Seq<char>,
    pub function: Seq<char>,
    pub args: Seq<FileArgView>,
    pub returns: Seq<char>,
}

impl View for FileCallSpec {
    type V = FileCallSpecView;

    open spec fn view(&self) -> FileCallSpecView {
        FileCallSpecView {
            library: self.library@,
            function: self.function@,
            args: self.args@.map_values(|a: FileArg| a@),
            returns: self.returns@,
        }
    }
}

/// The command-line token for one spec-file argument. A `callback` type
/// or mode gives `'SIGNATURE{ BODY }'`; mode `output` gives `@[N]TYPE`,
/// `inout` gives `@NTYPE:VALUES`, and `input` (the default) gives
/// `[N]TYPE:VALUES`.
pub open spec fn file_arg_token_spec(a: FileArgView) -> Result<Seq<char>, ErrorView> {
    let ty = trim(a.arg_type);
    let mode = match a.mode {
        Some(m) => m,
        None => "input"@,
    };
    if ty == "callback"@ || mode == "callback"@ {
        match a.signature {
            None => Err(ErrorView::CallbackNeedsSignature),
            Some(sig) => match a.body {
                None => Err(ErrorView::CallbackNeedsBody),
                Some(b) => Ok(seq!['\''] + trim(sig) + seq!['{', ' '] + trim(b) + seq![' ', '}', '\'']),
            },
        }
    } else if mode == "output"@ {
        Ok(
            match a.count {
                Some(c) => seq!['@'] + decimal(c) + ty,
                None => seq!['@'] + ty,
            },
        )
    } else if mode == "inout"@ {
        match arg_value_spec(a.value) {
            Err(e) => Err(e),
            Ok(v) => match a.count {
                Some(c) => Ok(seq!['@'] + decimal(c) + ty + seq![':'] + v),
                None => Err(ErrorView::ScalarInout),
            },
        }
    } else if mode == "input"@ {
        match arg_value_spec(a.value) {
            Err(e) => Err(e),
            Ok(v) => Ok(
                match a.count {
                    Some(c) => decimal(c) + ty + seq![':'] + v,
                    None => ty + seq![':'] + v,
                },
            ),
        }
    } else {
        Err(ErrorView::UnknownMode(mode))
    }
}

/// The tokens of all arguments, in order; the first argument without one
/// gives the error.
pub open spec fn file_args_tokens_spec(args: Seq<FileArgView>) -> Result<Seq<Seq<char>>, ErrorView>
    decreases args.len(),
{
    if args.len() == 0 {
        Ok(Seq::empty())
    } else {
        match file_args_tokens_spec(args.drop_last()) {
            Err(e) => Err(e),
            Ok(ts) => match file_arg_token_spec(args.last()) {
                Ok(t) => Ok(ts.push(t)),
                Err(e) => Err(e),
            },
        }
    }
}

/// The command-line tokens of a spec file: its arguments, then its return
/// type as `:TYPE` when one is given.
pub open spec fn spec_tokens_spec(spec: FileCallSpecView) -> Result<Seq<Seq<char>>, ErrorView> {
    match file_args_tokens_spec(spec.args) {
        Err(e) => Err(e),
        Ok(ts) => if trim(spec.returns).len() == 0 {
            Ok(ts)
        } else if has_prefix(spec.returns, seq![':']) {
            Ok(ts.push(spec.returns))
        } else {
            Ok(ts.push(seq![':'] + spec.returns))
        },
    }
}

fn push_count(out: &mut Vec<char>, c: usize)
    ensures
        final(out)@ == old(out)@ + decimal(c as nat),
{
    let d = decimal_chars(c as u128);
    extend_chars(out, &d);
}

/// The command-line token for one spec-file argument.
pub fn file_arg_to_token(arg: &FileArg) -> (r: Result<String, CallError>)
    ensures
        string_result_view(r) == file_arg_token_spec(arg@),
{
    let ty = trimmed(arg.arg_type.as_str());
    let mode: Vec<char> = match &arg.mode {
        Some(m) => chars_of(m.as_str()),
        None => chars_of("input"),
    };
    if chars_eq_str(&ty, "callback") || chars_eq_str(&mode, "callback") {
        let sig = match &arg.signature {
            Some(s) => trimmed(s.as_str()),
            None => {
                return Err(CallError::CallbackNeedsSignature);
            },
        };
        let body = match &arg.body {
            Some(b) => trimmed(b.as_str()),
            None => {
                return Err(CallError::CallbackNeedsBody);
            },
        };
        let mut out: Vec<char> = Vec::new();
        out.push('\'');
        extend_chars(&mut out, &sig);
        out.push('{');
        out.push(' ');
        extend_chars(&mut out, &body);
        out.push(' ');
        out.push('}');
        out.push('\'');
        assert(out@ =~= seq!['\''] + sig@ + seq!['{', ' '] + body@ + seq![' ', '}', '\'']);
        return Ok(string_of(&out));
    }
    if chars_eq_str(&mode, "output") {
        let mut out: Vec<char> = Vec::new();
        out.push('@');
        match arg.count {
            Some(c) => {
                push_count(&mut out, c);
            },
            None => {},
        }
        extend_chars(&mut out, &ty);
        assert(out@ =~= match arg@.count {
            Some(c) => seq!['@'] + decimal(c) + ty@,
            None => seq!['@'] + ty@,
        });
        return Ok(string_of(&out));
    }
    if chars_eq_str(&mode, "inout") {
        let value = match arg_value(arg) {
            Ok(v) => v,
            Err(e) => {
                return Err(e);
            },
        };
        return match arg.count {
            Some(c) => {
                let mut out: Vec<char> = Vec::new();
                out.push('@');
                push_count(&mut out, c);
                extend_chars(&mut out, &ty);
                out.push(':');
                extend_str(&mut out, value.as_str());
                assert(out@ =~= seq!['@'] + decimal(c as nat) + ty@ + seq![':'] + value@);
                Ok(string_of(&out))
            },
            None => Err(CallError::ScalarInout),
        };
    }
    if chars_eq_str(&mode, "input") {
        let value = match arg_value(arg) {
            Ok(v) => v,
            Err(e) => {
                return Err(e);
            },
        };
        let mut out: Vec<char> = Vec::new();
        match arg.count {
            Some(c) => {
                push_count(&mut out, c);
            },
            None => {},
        }
        extend_chars(&mut out, &ty);
        out.push(':');
        extend_str(&mut out, value.as_str());
        assert(out@ =~= match arg@.count {
            Some(c) => decimal(c) + ty@ + seq![':'] + value@,
            None => ty@ + seq![':'] + value@,
        });
        return Ok(string_of(&out));
    }
    Err(CallError::UnknownMode(string_of(&mode)))
}

proof fn lemma_file_args_prefix(args: Seq<FileArgView>, i: int)
    requires
        0 <= i < args.len(),
    ensures
        file_args_tokens_spec(args.take(i + 1)) is Err ==> file_args_tokens_spec(args)
            == file_args_tokens_spec(args.take(i + 1)),
    decreases args.len() - i,
{
    if i + 1 < args.len() {
        assert(args.take(i + 2).drop_last() == args.take(i + 1));
        lemma_file_args_prefix(args, i + 1);
    } else {
        assert(args.take(i + 1) == args);
    }
}

/// The command-line tokens of a spec file.
pub fn spec_arg_tokens(spec: &FileCallSpec) -> (r: Result<Vec<String>, CallError>)
    ensures
        match r {
            Ok(ts) => spec_tokens_spec(spec@) == Ok::<Seq<Seq<char>>, ErrorView>(
                ts@.map_values(|t: String| t@),
            ),
            Err(e) => spec_tokens_spec(spec@) == Err::<Seq<Seq<char>>, ErrorView>(e@),
        },
{
    let ghost args = spec@.args;
    let mut tokens: Vec<String> = Vec::new();
    let mut i: usize = 0;
    assert(args.take(0) =~= Seq::<FileArgView>::empty());
    assert(tokens@.map_values(|t: String| t@) =~= Seq::<Seq<char>>::empty());
    while i < spec.args.len()
        invariant
            i <= spec.args.len(),
            args == spec@.args,
            file_args_tokens_spec(args.take(i as int)) == Ok::<Seq<Seq<char>>, ErrorView>(
                tokens@.map_values(|t: String| t@),
            ),
        decreases spec.args.len() - i,
    {
        proof {
            lemma_file_args_prefix(args, i as int);
            assert(args.take(i + 1).drop_last() == args.take(i as int));
            assert(args.take(i + 1).last() == spec.args@[i as int]@);
        }
        match file_arg_to_token(&spec.args[i]) {
            Ok(t) => {
                let ghost before = tokens@;
                let ghost tv = t@;
                tokens.push(t);
                assert(tokens@.map_values(|t: String| t@) =~= before.map_values(|t: String| t@).push(
                    tv,
                ));
            },
            Err(e) => {
                return Err(e);
            },
        }
        i = i + 1;
    }
    assert(args.take(spec.args.len() as int) == args);
    let ret = trimmed(spec.returns.as_str());
    if ret.len() != 0 {
        let rv = chars_of(spec.returns.as_str());
        let ghost before = tokens@;
        if rv.len() > 0 && rv[0] == ':' {
            assert(rv@.take(1) =~= seq![':']);
            let t = spec.returns.clone();
            let ghost tv = t@;
            tokens.push(t);
            assert(tokens@.map_values(|t: String| t@) =~= before.map_values(|t: String| t@).push(tv));
        } else {
            assert(rv@.len() > 0 ==> rv@.take(1)[0] != ':');
            assert(!has_prefix(spec.returns@, seq![':']));
            let mut c: Vec<char> = Vec::new();
            c.push(':');
            extend_chars(&mut c, &rv);
            let t = string_of(&c);
            let ghost tv = t@;
            tokens.push(t);
            assert(tv =~= seq![':'] + spec.returns@);
            assert(tokens@.map_values(|t: String| t@) =~= before.map_values(|t: String| t@).push(tv));
        }
    }
    Ok(tokens)
}

/// The formats a spec file can be written in.
#[derive(Clone, Copy, Debug, PartialEq, Eq, Structural)]
pub enum SpecFormat {
    Json,
    Yaml,
}

/// The format a spec file's extension selects: `.yaml`/`.yml` or `.json`.
pub open spec fn spec_format_spec(ext: Option<Seq<char>>) -> Result<SpecFormat, ErrorView> {
    match ext {
        Some(e) => if e == "yaml"@ || e == "yml"@ {
            Ok(SpecFormat::Yaml)
        } else if e == "json"@ {
            Ok(SpecFormat::Json)
        } else {
            Err(ErrorView::UnsupportedExtension(e))
        },
        None => Err(ErrorView::MissingExtension),
    }
}

/// Chooses the spec-file format from the file's extension (`None` when the
/// path has no extension that is text).
pub fn spec_format_for_extension(ext: Option<&str>) -> (r: Result<SpecFormat, CallError>)
    ensures
        match r {
            Ok(f) => spec_format_spec(
                match ext {
                    Some(e) => Some(e@),
                    None => None,
                },
            ) == Ok::<SpecFormat, ErrorView>(f),
            Err(e) => spec_format_spec(
                match ext {
                    Some(e) => Some(e@),
                    None => None,
                },
            ) == Err::<SpecFormat, ErrorView>(e@),
        },
{
    match ext {
        Some(e) => {
            let v = chars_of(e);
            if chars_eq_str(&v, "yaml") || chars_eq_str(&v, "yml") {
                Ok(SpecFormat::Yaml)
            } else if chars_eq_str(&v, "json") {
                Ok(SpecFormat::Json)
            } else {
                Err(CallError::UnsupportedExtension(string_of(&v)))
            }
        },
        None => Err(CallError::MissingExtension),
    }
}

/// How a spec file's `library` entry is read: `-lNAME` and bare names are
/// library names to search for; anything with `/`, `\` or `.` is a path.
/// Surrounding white space is ignored.
pub open spec fn split_library_spec(library: Seq<char>) -> (Option<Seq<char>>, Option<Seq<char>>) {
    let l = trim(library);
    if has_prefix(l, "-l"@) {
        (Some(l.skip(2)), None)
    } else if l.contains('/') || l.contains('\\') || l.contains('.') {
        (None, Some(l))
    } else {
        (Some(l), None)
    }
}

/// Splits a spec file's `library` entry into a library name or a path.
pub fn split_spec_library(library: &str) -> (r: (Option<String>, Option<String>))
    ensures
        (opt_view(r.0), opt_view(r.1)) == split_library_spec(library@),
{
    let l = trimmed(library);
    assert(l@.skip(0) == l@);
    if prefix_at(&l, 0, "-l") {
        proof {
            reveal_strlit("-l");
        }
        let name = slice_chars(&l, 2, l.len());
        assert(name@ == l@.skip(2));
        return (Some(string_of(&name)), None);
    }
    if contains_char(&l, '/') || contains_char(&l, '\\') || contains_char(&l, '.') {
        (None, Some(string_of(&l)))
    } else {
        (Some(string_of(&l)), None)
    }
}

/// A spec file's `library` entry is read as exactly one of a library name
/// and a library path.
pub proof fn law_library_entry_is_name_or_path(library: Seq<char>)
    ensures
        split_library_spec(library).0 is Some <==> split_library_spec(library).1 is None,
{
}

/// A bare library name in a spec file is searched for as `-l` would
/// search for it: `NAME` and `-lNAME` name the same library.
pub proof fn law_bare_name_is_dash_l_name(name: Seq<char>)
    requires
        trim(name) == name,
        !has_prefix(name, "-l"@),
        !name.contains('/'),
        !name.contains('\\'),
        !name.contains('.'),
    ensures
        split_library_spec(name) == (Some(name), None::<Seq<char>>),
        split_library_spec("-l"@ + name) == split_library_spec(name),
{
    reveal_strlit("-l");
    let l = "-l"@ + name;
    assert(!is_white_space(l[0]));
    if name.len() > 0 {
        assert(name[0] == trim(name)[0]);
        crate::text::lemma_trim_end_shape(crate::text::trim_start(name));
        assert(l.last() == name.last());
    }
    lemma_trim_unchanged(l);
    assert(l.take(2) =~= "-l"@);
    assert(has_prefix(l, "-l"@));
    assert(l.skip(2) =~= name);
}

} // verus!
