//! The structured (JSON or YAML) report of a call: a tree of plain
//! values that a serializer writes out as it stands.
use vstd::prelude::*;

use crate::ffi::CallResult;
use crate::error::ErrorView;
use crate::number::{lemma_parse_signed_decimal, parse_int_spec};
use crate::output::{outputs_view, return_view, value_text};
use crate::parser::{Argument, ArgumentView};
use crate::text::{extend_chars, has_prefix, has_suffix, hex, hex_chars, string_from, string_of, trim};
use crate::types::{
    int_bounds, is_int_type, is_signed_type, parse_value_spec, type_label, value_type, Value,
    ValueView,
};

verus! {

/// A node of a report: null, an integer, a floating-point number given by
/// its text (`single` for `f32`), a string, a list, or named fields in
/// order.
pub enum Document {
    Null,
    Int(i128),
    Float { text: String, single: bool },
    Text(String),
    List(Vec<Document>),
    Fields(Vec<(String, Document)>),
}

/// [`Document`] with its strings and vectors as sequences.
pub enum DocumentView {
    Null,
    Int(int),
    Float { text: Seq<char>, single: bool },
    Text(Seq<char>),
    List(Seq<DocumentView>),
    Fields(Seq<(Seq<char>, DocumentView)>),
}

/// The view of a report node.
pub open spec fn document_view(d: Document) -> DocumentView
    decreases d,
{
    match d {
        Document::Null => DocumentView::Null,
        Document::Int(n) => DocumentView::Int(n as int),
        Document::Float { text, single } => DocumentView::Float { text: text@, single },
        Document::Text(s) => DocumentView::Text(s@),
        Document::List(items) => DocumentView::List(
            Seq::new(
                items@.len(),
                |i: int|
                    if 0 <= i < items@.len() {
                        document_view(items@[i])
                    } else {
                        DocumentView::Null
                    },
            ),
        ),
        Document::Fields(fields) => DocumentView::Fields(
            Seq::new(
                fields@.len(),
                |i: int|
                    if 0 <= i < fields@.len() {
                        (fields@[i].0@, document_view(fields@[i].1))
                    } else {
                        (Seq::empty(), DocumentView::Null)
                    },
            ),
        ),
    }
}

impl View for Document {
    type V = DocumentView;

    open spec fn view(&self) -> DocumentView {
        document_view(*self)
    }
}

/// The report node of a value: integers as integers, floating-point
/// values as numbers, pointers as `0x` and hexadecimal digits, strings as
/// strings, arrays as lists, callbacks as their signature.
pub open spec fn value_doc(v: ValueView) -> DocumentView
    decreases v, 0int,
{
    match v {
        ValueView::I8(x) => DocumentView::Int(x as int),
        ValueView::U8(x) => DocumentView::Int(x as int),
        ValueView::I16(x) => DocumentView::Int(x as int),
        ValueView::U16(x) => DocumentView::Int(x as int),
        ValueView::I32(x) => DocumentView::Int(x as int),
        ValueView::U32(x) => DocumentView::Int(x as int),
        ValueView::I64(x) => DocumentView::Int(x as int),
        ValueView::U64(x) => DocumentView::Int(x as int),
        ValueView::Isize(x) => DocumentView::Int(x as int),
        ValueView::Usize(x) => DocumentView::Int(x as int),
        ValueView::F32(s) => DocumentView::Float { text: s, single: true },
        ValueView::F64(s) => DocumentView::Float { text: s, single: false },
        ValueView::Ptr(a) => DocumentView::Text(seq!['0', 'x'] + hex(a as nat)),
        ValueView::CStr(s) => DocumentView::Text(s),
        ValueView::Array { values, .. } => DocumentView::List(values_doc(values)),
        ValueView::Callback { signature, .. } => DocumentView::Text(signature),
    }
}

/// The report nodes of the elements of an array, in order.
pub open spec fn values_doc(vals: Seq<ValueView>) -> Seq<DocumentView>
    decreases vals, 1int,
{
    if vals.len() == 0 {
        Seq::empty()
    } else {
        values_doc(vals.subrange(0, vals.len() - 1)).push(value_doc(vals[vals.len() - 1]))
    }
}

/// The report nodes of the elements are listed one for one.
pub proof fn lemma_values_doc(vals: Seq<ValueView>)
    ensures
        values_doc(vals).len() == vals.len(),
        forall|j: int| 0 <= j < vals.len() ==> #[trigger] values_doc(vals)[j] == value_doc(vals[j]),
    decreases vals.len(),
{
    if vals.len() > 0 {
        let front = vals.subrange(0, vals.len() - 1);
        lemma_values_doc(front);
        assert forall|j: int| 0 <= j < vals.len() implies #[trigger] values_doc(vals)[j]
            == value_doc(vals[j]) by {
            if j < vals.len() - 1 {
                assert(front[j] == vals[j]);
            }
        }
    }
}

/// A value with its type: fields `type` and `value`.
pub open spec fn typed_doc(v: ValueView) -> DocumentView {
    DocumentView::Fields(
        seq![
            ("type"@, DocumentView::Text(type_label(value_type(v)))),
            ("value"@, value_doc(v)),
        ],
    )
}

/// An output argument: fields `index`, `type` and `value`.
pub open spec fn output_doc(idx: usize, v: ValueView) -> DocumentView {
    DocumentView::Fields(
        seq![
            ("index"@, DocumentView::Int(idx as int)),
            ("type"@, DocumentView::Text(type_label(value_type(v)))),
            ("value"@, value_doc(v)),
        ],
    )
}

/// The report of a call: the library, the function, each argument with
/// its type, the return value with its type (null when there is none) and
/// each output argument with its position and type.
pub open spec fn report_doc(
    library: Seq<char>,
    function: Seq<char>,
    args: Seq<ArgumentView>,
    ret: Option<ValueView>,
    outs: Seq<(usize, ValueView)>,
) -> DocumentView {
    DocumentView::Fields(
        seq![
            ("library"@, DocumentView::Text(library)),
            ("function"@, DocumentView::Text(function)),
            ("args"@, DocumentView::List(Seq::new(args.len(), |i: int| typed_doc(args[i].value)))),
            ("return"@, match ret {
                Some(v) => typed_doc(v),
                None => DocumentView::Null,
            }),
            ("outputs"@, DocumentView::List(Seq::new(outs.len(), |i: int| output_doc(outs[i].0, outs[i].1)))),
        ],
    )
}

fn text_doc(s: &str) -> (d: Document)
    ensures
        d@ == DocumentView::Text(s@),
{
    Document::Text(string_from(s))
}

fn named(name: &str, d: Document) -> (r: (String, Document))
    ensures
        r.0@ == name@,
        r.1 == d,
{
    (string_from(name), d)
}

proof fn lemma_fields_view(fields: Vec<(String, Document)>)
    ensures
        document_view(Document::Fields(fields)) == DocumentView::Fields(
            Seq::new(fields@.len(), |i: int| (fields@[i].0@, document_view(fields@[i].1))),
        ),
{
    let a = document_view(Document::Fields(fields));
    assert(a->Fields_0 =~= Seq::new(
        fields@.len(),
        |i: int| (fields@[i].0@, document_view(fields@[i].1)),
    ));
}

proof fn lemma_list_view(items: Vec<Document>)
    ensures
        document_view(Document::List(items)) == DocumentView::List(
            Seq::new(items@.len(), |i: int| document_view(items@[i])),
        ),
{
    let a = document_view(Document::List(items));
    assert(a->List_0 =~= Seq::new(items@.len(), |i: int| document_view(items@[i])));
}

/// The report node of a value (see [`value_doc`]).
pub fn value_document(v: &Value) -> (d: Document)
    ensures
        d@ == value_doc(v@),
    decreases v,
{
    match v {
        Value::I8(x) => Document::Int(*x as i128),
        Value::U8(x) => Document::Int(*x as i128),
        Value::I16(x) => Document::Int(*x as i128),
        Value::U16(x) => Document::Int(*x as i128),
        Value::I32(x) => Document::Int(*x as i128),
        Value::U32(x) => Document::Int(*x as i128),
        Value::I64(x) => Document::Int(*x as i128),
        Value::U64(x) => Document::Int(*x as i128),
        Value::Isize(x) => Document::Int(*x as i128),
        Value::Usize(x) => Document::Int(*x as i128),
        Value::F32(s) => Document::Float { text: s.clone(), single: true },
        Value::F64(s) => Document::Float { text: s.clone(), single: false },
        Value::Ptr(a) => {
            let mut out: Vec<char> = Vec::new();
            out.push('0');
            out.push('x');
            let h = hex_chars(*a as u128);
            extend_chars(&mut out, &h);
            assert(out@ =~= seq!['0', 'x'] + hex(*a as nat));
            Document::Text(string_of(&out))
        },
        Value::CStr(s) => Document::Text(s.clone()),
        Value::Array { elem_type, values } => {
            proof {
                crate::types::lemma_array_view(*elem_type, *values);
            }
            let ghost vs = crate::types::values_view(values@);
            proof {
                lemma_values_doc(vs);
            }
            let mut items: Vec<Document> = Vec::new();
            let mut i: usize = 0;
            while i < values.len()
                invariant
                    i <= values.len(),
                    vs == crate::types::values_view(values@),
                    values_doc(vs).len() == vs.len(),
                    forall|j: int| 0 <= j < vs.len() ==> #[trigger] values_doc(vs)[j] == value_doc(vs[j]),
                    items@.len() == i,
                    forall|j: int| 0 <= j < i ==> #[trigger] document_view(items@[j]) == values_doc(vs)[j],
                    forall|j: int| 0 <= j < values@.len() ==> decreases_to!(*v => values@[j]),
                decreases values.len() - i,
            {
                assert(decreases_to!(*v => values@[i as int]));
                let d = value_document(&values[i]);
                assert(vs[i as int] == values@[i as int]@);
                items.push(d);
                i = i + 1;
            }
            proof {
                lemma_list_view(items);
                assert(Seq::new(items@.len(), |i: int| document_view(items@[i])) =~= values_doc(vs));
            }
            Document::List(items)
        },
        Value::Callback { signature, .. } => Document::Text(signature.clone()),
    }
}

fn typed_document(v: &Value) -> (d: Document)
    ensures
        d@ == typed_doc(v@),
{
    let t = v.get_type().to_string();
    let mut fields: Vec<(String, Document)> = Vec::new();
    fields.push(named("type", Document::Text(t)));
    fields.push(named("value", value_document(v)));
    proof {
        lemma_fields_view(fields);
        assert(Seq::new(fields@.len(), |i: int| (fields@[i].0@, document_view(fields@[i].1)))
            =~= seq![
            ("type"@, DocumentView::Text(type_label(value_type(v@)))),
            ("value"@, value_doc(v@)),
        ]);
    }
    Document::Fields(fields)
}

fn output_document(idx: usize, v: &Value) -> (d: Document)
    ensures
        d@ == output_doc(idx, v@),
{
    let t = v.get_type().to_string();
    let mut fields: Vec<(String, Document)> = Vec::new();
    fields.push(named("index", Document::Int(idx as i128)));
    fields.push(named("type", Document::Text(t)));
    fields.push(named("value", value_document(v)));
    proof {
        lemma_fields_view(fields);
        assert(Seq::new(fields@.len(), |i: int| (fields@[i].0@, document_view(fields@[i].1)))
            =~= seq![
            ("index"@, DocumentView::Int(idx as int)),
            ("type"@, DocumentView::Text(type_label(value_type(v@)))),
            ("value"@, value_doc(v@)),
        ]);
    }
    Document::Fields(fields)
}

/// The structured report of a call (see [`report_doc`]).
pub fn result_document(result: &CallResult, library: &str, function: &str, args: &Vec<Argument>) -> (d:
    Document)
    ensures
        d@ == report_doc(
            library@,
            function@,
            args@.map_values(|a: Argument| a@),
            return_view(result.return_value),
            outputs_view(result.output_values@),
        ),
{
    let ghost avs = args@.map_values(|a: Argument| a@);
    let mut arg_docs: Vec<Document> = Vec::new();
    let mut i: usize = 0;
    while i < args.len()
        invariant
            i <= args.len(),
            avs == args@.map_values(|a: Argument| a@),
            arg_docs@.len() == i,
            forall|j: int| 0 <= j < i ==> #[trigger] document_view(arg_docs@[j]) == typed_doc(avs[j].value),
        decreases args.len() - i,
    {
        let d = typed_document(&args[i].value);
        arg_docs.push(d);
        i = i + 1;
    }
    let ghost outs = outputs_view(result.output_values@);
    let mut out_docs: Vec<Document> = Vec::new();
    let mut k: usize = 0;
    while k < result.output_values.len()
        invariant
            k <= result.output_values.len(),
            outs == outputs_view(result.output_values@),
            out_docs@.len() == k,
            forall|j: int| 0 <= j < k ==> #[trigger] document_view(out_docs@[j]) == output_doc(outs[j].0, outs[j].1),
        decreases result.output_values.len() - k,
    {
        let (idx, val) = &result.output_values[k];
        let d = output_document(*idx, val);
        out_docs.push(d);
        k = k + 1;
    }
    let ret_doc = match &result.return_value {
        Some(v) => typed_document(v),
        None => Document::Null,
    };
    proof {
        lemma_list_view(arg_docs);
        lemma_list_view(out_docs);
        assert(Seq::new(arg_docs@.len(), |i: int| document_view(arg_docs@[i])) =~= Seq::new(
            avs.len(),
            |i: int| typed_doc(avs[i].value),
        ));
        assert(Seq::new(out_docs@.len(), |i: int| document_view(out_docs@[i])) =~= Seq::new(
            outs.len(),
            |i: int| output_doc(outs[i].0, outs[i].1),
        ));
    }
    let mut fields: Vec<(String, Document)> = Vec::new();
    fields.push(named("library", text_doc(library)));
    fields.push(named("function", text_doc(function)));
    fields.push(named("args", Document::List(arg_docs)));
    fields.push(named("return", ret_doc));
    fields.push(named("outputs", Document::List(out_docs)));
    proof {
        lemma_fields_view(fields);
        assert(Seq::new(fields@.len(), |i: int| (fields@[i].0@, document_view(fields@[i].1)))
            =~= report_doc(library@, function@, avs, return_view(result.return_value), outs)->Fields_0);
    }
    Document::Fields(fields)
}

/// The report and the human text show a value alike: a string or a
/// pointer is reported as exactly the text it prints as, a floating-point
/// value as the number it prints as, and an integer as the number its
/// printed text reads as. A string prints as itself, and that text reads
/// back as the same string (for text without surrounding white space or
/// surrounding quotes).
pub proof fn law_report_matches_text(v: ValueView)
    ensures
        (v is CStr || v is Ptr) ==> value_doc(v) == DocumentView::Text(value_text(v)),
        v is F32 ==> value_doc(v) == (DocumentView::Float { text: value_text(v), single: true }),
        v is F64 ==> value_doc(v) == (DocumentView::Float { text: value_text(v), single: false }),
        is_int_type(value_type(v)) ==> (value_doc(v) matches DocumentView::Int(n) && parse_int_spec(
            value_text(v),
            10,
            is_signed_type(value_type(v)),
            int_bounds(value_type(v)).0,
            int_bounds(value_type(v)).1,
        ) == Ok::<int, crate::number::IntErrorKind>(n)),
        v matches ValueView::CStr(s) ==> value_text(v) == s,
        v matches ValueView::CStr(s) ==> (trim(s) == s && !(has_prefix(s, seq!['"']) && has_suffix(
            s,
            seq!['"'],
        )) ==> parse_value_spec(value_text(v), crate::types::Type::CStr) == Ok::<ValueView, ErrorView>(
            v,
        )),
{
    if is_int_type(value_type(v)) {
        let x: int = match v {
            ValueView::I8(a) => a as int,
            ValueView::U8(a) => a as int,
            ValueView::I16(a) => a as int,
            ValueView::U16(a) => a as int,
            ValueView::I32(a) => a as int,
            ValueView::U32(a) => a as int,
            ValueView::I64(a) => a as int,
            ValueView::U64(a) => a as int,
            ValueView::Isize(a) => a as int,
            ValueView::Usize(a) => a as int,
            _ => 0,
        };
        let t = value_type(v);
        lemma_parse_signed_decimal(x, is_signed_type(t), int_bounds(t).0, int_bounds(t).1);
    }
}

/// An array is reported as the list of its elements' reports, one for
/// one and in order.
pub proof fn law_report_array_lists_elements(t: crate::types::Type, values: Seq<ValueView>)
    ensures
        value_doc(ValueView::Array { elem_type: t, values }) matches DocumentView::List(items) && items.len()
            == values.len() && forall|i: int| 0 <= i < values.len() ==> #[trigger] items[i] == value_doc(
            values[i],
        ),
{
    lemma_values_doc(values);
}

} // verus!
