//! Callback arguments: reading a callback signature `RET(TYPE NAME, ...)`,
//! deciding whether a C-callable entry point exists for it, and writing
//! the script function that runs its body.
use vstd::prelude::*;

use crate::error::{join, CallError, ErrorView};
use crate::text::{
    chars_eq_str, chars_of, decimal, decimal_chars, extend_chars, extend_str, is_white_space,
    slice_chars, split_chars, split_on, string_of, trim, trim_chars, white_space,
};

verus! {

/// Index of the first `c` in `s`, or -1.
pub open spec fn index_of_char(s: Seq<char>, c: char) -> int
    decreases s.len(),
{
    if s.len() == 0 {
        -1
    } else if s[0] == c {
        0
    } else if index_of_char(s.drop_first(), c) < 0 {
        -1
    } else {
        index_of_char(s.drop_first(), c) + 1
    }
}

/// `s` without all the `c` it ends with (`str::trim_end_matches`).
pub open spec fn trim_end_char(s: Seq<char>, c: char) -> Seq<char>
    decreases s.len(),
{
    if s.len() > 0 && s.last() == c {
        trim_end_char(s.drop_last(), c)
    } else {
        s
    }
}

/// The white-space separated words of `s` (`str::split_whitespace`).
pub open spec fn words(s: Seq<char>) -> Seq<Seq<char>>
    decreases s.len(),
{
    if s.len() == 0 {
        Seq::empty()
    } else {
        let w = words(s.drop_last());
        let c = s.last();
        if is_white_space(c) {
            w
        } else if s.len() > 1 && !is_white_space(s[s.len() - 2]) && w.len() > 0 {
            w.update(w.len() - 1, w.last().push(c))
        } else {
            w.push(seq![c])
        }
    }
}

/// The `k`-th word of `s`, or nothing.
pub open spec fn word(s: Seq<char>, k: int) -> Seq<char> {
    if k < words(s).len() {
        words(s)[k]
    } else {
        Seq::empty()
    }
}

/// The parameter list of a signature: the text after the first `(`,
/// without trailing `)` and surrounding white space.
pub open spec fn params_text(sig: Seq<char>) -> Seq<char> {
    trim(trim_end_char(sig.skip(index_of_char(sig, '(') + 1), ')'))
}

/// The parameter declarations, split at commas (none when the list is
/// empty).
pub open spec fn param_parts(sig: Seq<char>) -> Seq<Seq<char>> {
    if params_text(sig).len() == 0 {
        Seq::empty()
    } else {
        split_on(params_text(sig), ',')
    }
}

/// The name of parameter `i`: its second word, or `argI` when it has none.
pub open spec fn param_name(part: Seq<char>, i: int) -> Seq<char> {
    if word(part, 1).len() == 0 {
        "arg"@ + decimal(i as nat)
    } else {
        word(part, 1)
    }
}

/// A callback signature after reading.
#[derive(Debug)]
pub struct CallbackSignature {
    pub signature: String,
    pub return_type: String,
    pub arg_types: Vec<String>,
    pub arg_names: Vec<String>,
}

/// The views of a list of strings.
pub open spec fn string_views(v: Seq<String>) -> Seq<Seq<char>> {
    v.map_values(|s: String| s@)
}

/// What reading a signature yields: the text before the first `(`
/// (trimmed) as return type, and per parameter its first word as type and
/// its name.
pub open spec fn callback_signature_ok(sig: Seq<char>, r: CallbackSignature) -> bool {
    &&& r.signature@ == sig
    &&& r.return_type@ == trim(sig.take(index_of_char(sig, '(')))
    &&& r.arg_types@.len() == param_parts(sig).len()
    &&& r.arg_names@.len() == param_parts(sig).len()
    &&& forall|i: int|
        0 <= i < param_parts(sig).len() ==> #[trigger] r.arg_types@[i]@ == word(param_parts(sig)[i], 0)
    &&& forall|i: int|
        0 <= i < param_parts(sig).len() ==> #[trigger] r.arg_names@[i]@ == param_name(param_parts(sig)[i], i)
}

proof fn lemma_index_of_char_range(s: Seq<char>, c: char)
    ensures
        -1 <= index_of_char(s, c) < s.len(),
        index_of_char(s, c) >= 0 ==> s[index_of_char(s, c)] == c,
    decreases s.len(),
{
    if s.len() > 0 {
        lemma_index_of_char_range(s.drop_first(), c);
    }
}

fn first_index(v: &Vec<char>, c: char) -> (r: Option<usize>)
    ensures
        r matches Some(i) ==> i < v.len() && index_of_char(v@, c) == i,
        r is None ==> index_of_char(v@, c) == -1,
{
    let mut i: usize = 0;
    proof {
        lemma_index_of_char_range(v@, c);
    }
    assert(v@.skip(0) == v@);
    while i < v.len()
        invariant
            i <= v.len(),
            index_of_char(v@, c) == if index_of_char(v@.skip(i as int), c) < 0 {
                -1
            } else {
                index_of_char(v@.skip(i as int), c) + i
            },
        decreases v.len() - i,
    {
        assert(v@.skip(i as int).drop_first() == v@.skip(i + 1));
        if v[i] == c {
            return Some(i);
        }
        i = i + 1;
    }
    None
}

fn trim_end_parens(v: &Vec<char>) -> (r: Vec<char>)
    ensures
        r@ == trim_end_char(v@, ')'),
{
    let mut j = v.len();
    assert(v@.take(j as int) == v@);
    while j > 0 && v[j - 1] == ')'
        invariant
            j <= v.len(),
            trim_end_char(v@, ')') == trim_end_char(v@.take(j as int), ')'),
        decreases j,
    {
        assert(v@.take(j as int).drop_last() == v@.take(j - 1));
        j = j - 1;
    }
    slice_chars(v, 0, j)
}

/// The first two words of `v` (empty when missing).
fn first_two_words(v: &Vec<char>) -> (r: (Vec<char>, Vec<char>))
    ensures
        r.0@ == word(v@, 0),
        r.1@ == word(v@, 1),
{
    let mut w0: Vec<char> = Vec::new();
    let mut w1: Vec<char> = Vec::new();
    let mut count: usize = 0;
    let mut i: usize = 0;
    assert(v@.take(0) =~= Seq::<char>::empty());
    while i < v.len()
        invariant
            i <= v.len(),
            count == words(v@.take(i as int)).len() || (count == 3 && words(v@.take(
                i as int,
            )).len() >= 3),
            count <= 3,
            w0@ == word(v@.take(i as int), 0),
            w1@ == word(v@.take(i as int), 1),
        decreases v.len() - i,
    {
        let c = v[i];
        let ghost s = v@.take(i + 1);
        assert(s.drop_last() == v@.take(i as int));
        assert(s.last() == c);
        if !white_space(c) {
            let continues = i > 0 && !white_space(v[i - 1]);
            if continues {
                assert(s[s.len() - 2] == v@[i - 1]);
            }
            proof {
                lemma_words_nonempty_after_word(v@.take(i as int));
            }
            if continues && count > 0 {
                if count == 1 {
                    w0.push(c);
                } else if count == 2 {
                    w1.push(c);
                }
            } else {
                if count == 0 {
                    w0.push(c);
                    count = 1;
                } else if count == 1 {
                    w1.push(c);
                    count = 2;
                } else {
                    count = 3;
                }
            }
        }
        i = i + 1;
    }
    assert(v@.take(v.len() as int) == v@);
    (w0, w1)
}

/// When `s` ends with a non-space, it has at least one word.
proof fn lemma_words_nonempty_after_word(s: Seq<char>)
    ensures
        s.len() > 0 && !is_white_space(s.last()) ==> words(s).len() > 0,
        words(s).len() <= s.len(),
    decreases s.len(),
{
    if s.len() > 0 {
        lemma_words_nonempty_after_word(s.drop_last());
    }
}

/// Reads a callback signature `RET(TYPE NAME, ...)`.
pub fn parse_callback_signature(signature: &str) -> (r: Result<CallbackSignature, CallError>)
    ensures
        index_of_char(signature@, '(') < 0 ==> (r matches Err(e) && e@
            == ErrorView::InvalidCallbackSignature),
        index_of_char(signature@, '(') >= 0 ==> (r matches Ok(cs) && callback_signature_ok(
            signature@,
            cs,
        )),
{
    let v = chars_of(signature);
    let open = match first_index(&v, '(') {
        Some(i) => i,
        None => {
            return Err(CallError::InvalidCallbackSignature);
        },
    };
    let ret = trim_chars(&slice_chars(&v, 0, open));
    assert(v@.take(open as int) == v@.subrange(0, open as int));
    let after = slice_chars(&v, open + 1, v.len());
    assert(after@ == v@.skip(open + 1));
    let params = trim_chars(&trim_end_parens(&after));
    let ghost parts = param_parts(signature@);
    let mut arg_types: Vec<String> = Vec::new();
    let mut arg_names: Vec<String> = Vec::new();
    if params.len() > 0 {
        let split = split_chars(&params, ',');
        assert(parts == split_on(params@, ','));
        let mut i: usize = 0;
        while i < split.len()
            invariant
                i <= split.len() == parts.len(),
                parts == split_on(params@, ','),
                forall|k: int| 0 <= k < split@.len() ==> #[trigger] split@[k]@ == parts[k],
                arg_types@.len() == i,
                arg_names@.len() == i,
                forall|k: int| 0 <= k < i ==> #[trigger] arg_types@[k]@ == word(parts[k], 0),
                forall|k: int| 0 <= k < i ==> #[trigger] arg_names@[k]@ == param_name(parts[k], k),
            decreases split.len() - i,
        {
            let (w0, w1) = first_two_words(&split[i]);
            arg_types.push(string_of(&w0));
            if w1.len() == 0 {
                let mut n = chars_of("arg");
                let d = decimal_chars(i as u128);
                extend_chars(&mut n, &d);
                arg_names.push(string_of(&n));
            } else {
                arg_names.push(string_of(&w1));
            }
            i = i + 1;
        }
    }
    Ok(
        CallbackSignature {
            signature: crate::text::string_from(signature),
            return_type: string_of(&ret),
            arg_types,
            arg_names,
        },
    )
}

/// The script function for a callback body.
pub open spec fn callback_source_spec(names: Seq<Seq<char>>, body: Seq<char>) -> Seq<char> {
    if names.len() == 0 {
        "function callback() "@ + body + " end"@
    } else {
        "function callback("@ + join(names, ", "@) + ") "@ + body + " end"@
    }
}

/// Writes the script function `callback` that takes the parameters by
/// name and runs the body.
pub fn callback_source(arg_names: &Vec<String>, body: &str) -> (r: String)
    ensures
        r@ == callback_source_spec(string_views(arg_names@), body@),
{
    let mut out: Vec<char> = Vec::new();
    if arg_names.len() == 0 {
        extend_str(&mut out, "function callback() ");
    } else {
        extend_str(&mut out, "function callback(");
        let mut names: Vec<Vec<char>> = Vec::new();
        let mut i: usize = 0;
        while i < arg_names.len()
            invariant
                i <= arg_names.len(),
                names@.map_values(|p: Vec<char>| p@) == string_views(arg_names@).take(i as int),
            decreases arg_names.len() - i,
        {
            let ghost before = names@;
            let n = chars_of(arg_names[i].as_str());
            names.push(n);
            assert(names@.map_values(|p: Vec<char>| p@) =~= before.map_values(|p: Vec<char>| p@).push(
                arg_names@[i as int]@,
            ));
            assert(string_views(arg_names@).take(i + 1) =~= string_views(arg_names@).take(
                i as int,
            ).push(arg_names@[i as int]@));
            i = i + 1;
        }
        assert(string_views(arg_names@).take(arg_names.len() as int) =~= string_views(arg_names@));
        crate::error::extend_joined(&mut out, &names, ", ");
        extend_str(&mut out, ") ");
    }
    extend_str(&mut out, body);
    extend_str(&mut out, " end");
    string_of(&out)
}

/// The C entry points a callback can be reached through.
#[derive(Clone, Copy, Debug, PartialEq, Eq, Structural)]
pub enum CallbackWrapper {
    /// `int (*)(void *, void *)`, the shape of a `qsort` comparator.
    I32PtrPtr,
}

/// The one supported callback shape: an `i32` (or alias) result and two
/// pointer parameters.
pub open spec fn is_i32_2ptr_signature(ret: Seq<char>, arg_types: Seq<Seq<char>>) -> bool {
    &&& (ret == "i32"@ || ret == "int"@ || ret == "int32"@ || ret == "int32_t"@)
    &&& arg_types.len() == 2
    &&& forall|i: int|
        0 <= i < 2 ==> (#[trigger] arg_types[i] == "ptr"@ || arg_types[i] == "pointer"@
            || arg_types[i] == "voidp"@ || arg_types[i] == "void*"@)
}

fn is_pointer_name(v: &Vec<char>) -> (r: bool)
    ensures
        r == (v@ == "ptr"@ || v@ == "pointer"@ || v@ == "voidp"@ || v@ == "void*"@),
{
    chars_eq_str(v, "ptr") || chars_eq_str(v, "pointer") || chars_eq_str(v, "voidp")
        || chars_eq_str(v, "void*")
}

impl CallbackSignature {
    /// Whether the signature is `i32(ptr, ptr)` (with aliases).
    pub fn has_i32_2ptr_signature(&self) -> (r: bool)
        ensures
            r == is_i32_2ptr_signature(self.return_type@, string_views(self.arg_types@)),
    {
        let ret = chars_of(self.return_type.as_str());
        let ret_ok = chars_eq_str(&ret, "i32") || chars_eq_str(&ret, "int") || chars_eq_str(
            &ret,
            "int32",
        ) || chars_eq_str(&ret, "int32_t");
        if !ret_ok || self.arg_types.len() != 2 {
            return false;
        }
        let a = chars_of(self.arg_types[0].as_str());
        let b = chars_of(self.arg_types[1].as_str());
        let ok = is_pointer_name(&a) && is_pointer_name(&b);
        proof {
            let ts = string_views(self.arg_types@);
            assert(ts[0] == a@);
            assert(ts[1] == b@);
            if !ok {
                if !is_pointer_name_spec(a@) {
                    assert(!(ts[0] == "ptr"@ || ts[0] == "pointer"@ || ts[0] == "voidp"@ || ts[0]
                        == "void*"@));
                } else {
                    assert(!(ts[1] == "ptr"@ || ts[1] == "pointer"@ || ts[1] == "voidp"@ || ts[1]
                        == "void*"@));
                }
            } else {
                assert forall|i: int| 0 <= i < 2 implies (#[trigger] ts[i] == "ptr"@ || ts[i]
                    == "pointer"@ || ts[i] == "voidp"@ || ts[i] == "void*"@) by {
                    if i == 0 {
                        assert(ts[i] == a@);
                    } else {
                        assert(ts[i] == b@);
                    }
                }
            }
        }
        ok
    }

    /// The C entry point for the callback, or the error for any other
    /// signature.
    pub fn get_c_wrapper(&self) -> (r: Result<CallbackWrapper, CallError>)
        ensures
            is_i32_2ptr_signature(self.return_type@, string_views(self.arg_types@)) ==> r
                == Ok::<CallbackWrapper, CallError>(CallbackWrapper::I32PtrPtr),
            !is_i32_2ptr_signature(self.return_type@, string_views(self.arg_types@)) ==> (r matches Err(
                e,
            ) && e@ == ErrorView::UnsupportedCallbackSignature(self.signature@)),
    {
        if self.has_i32_2ptr_signature() {
            Ok(CallbackWrapper::I32PtrPtr)
        } else {
            Err(CallError::UnsupportedCallbackSignature(self.signature.clone()))
        }
    }
}

/// A pointer type name as callbacks spell it.
pub open spec fn is_pointer_name_spec(v: Seq<char>) -> bool {
    v == "ptr"@ || v == "pointer"@ || v == "voidp"@ || v == "void*"@
}

} // verus!
