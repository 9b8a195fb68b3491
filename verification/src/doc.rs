//! The untyped structured document that crosses the boundary between the
//! orchestrator and the reconciler: a map/sequence/scalar tree. Each
//! resource type parses its own strongly-typed record out of such a
//! document, and serializes its outputs record back into one.

use vstd::prelude::*;

verus! {

/// A schema-less structured value: the document shape the orchestrator
/// hands in as inputs and persists as outputs.
#[derive(Debug)]
pub enum Document {
    Null,
    Bool(bool),
    UInt(u64),
    Text(String),
    List(Vec<Document>),
    Record(Vec<(String, Document)>),
}

/// The mathematical model of a `Document`: the same tree over `Seq`.
pub ghost enum DocumentView {
    Null,
    Bool(bool),
    UInt(u64),
    Text(Seq<char>),
    List(Seq<DocumentView>),
    Record(Seq<(Seq<char>, DocumentView)>),
}

/// The model of a whole document tree.
pub open spec fn view_of_doc(d: Document) -> DocumentView
    decreases d,
{
    match d {
        Document::Null => DocumentView::Null,
        Document::Bool(b) => DocumentView::Bool(b),
        Document::UInt(n) => DocumentView::UInt(n),
        Document::Text(s) => DocumentView::Text(s@),
        Document::List(items) => {
            proof {
                broadcast use vstd::std_specs::vec::axiom_vec_decreases_to_view;

                assert(decreases_to!(d => items));
                assert(decreases_to!(items => items@));
            }
            DocumentView::List(view_of_docs(items@))
        },
        Document::Record(fields) => {
            proof {
                broadcast use vstd::std_specs::vec::axiom_vec_decreases_to_view;

                assert(decreases_to!(d => fields));
                assert(decreases_to!(fields => fields@));
            }
            DocumentView::Record(view_of_fields(fields@))
        },
    }
}

/// The model of a sequence of documents, element by element.
pub open spec fn view_of_docs(items: Seq<Document>) -> Seq<DocumentView>
    decreases items,
{
    if items.len() == 0 {
        Seq::empty()
    } else {
        seq![view_of_doc(items[0])] + view_of_docs(items.drop_first())
    }
}

/// The model of a record's field list, element by element.
pub open spec fn view_of_fields(fields: Seq<(String, Document)>) -> Seq<
    (Seq<char>, DocumentView),
>
    decreases fields,
{
    if fields.len() == 0 {
        Seq::empty()
    } else {
        seq![(fields[0].0@, view_of_doc(fields[0].1))] + view_of_fields(fields.drop_first())
    }
}

impl View for Document {
    type V = DocumentView;

    open spec fn view(&self) -> DocumentView {
        view_of_doc(*self)
    }
}

/// The length and elements of `view_of_fields` follow the field list.
pub proof fn lemma_view_of_fields(fields: Seq<(String, Document)>)
    ensures
        view_of_fields(fields).len() == fields.len(),
        forall|i: int|
            0 <= i < fields.len() ==> #[trigger] view_of_fields(fields)[i] == (
                fields[i].0@,
                fields[i].1@,
            ),
    decreases fields.len(),
{
    if fields.len() > 0 {
        lemma_view_of_fields(fields.drop_first());
    }
}

/// The length and elements of `view_of_docs` follow the item list.
pub proof fn lemma_view_of_docs(items: Seq<Document>)
    ensures
        view_of_docs(items).len() == items.len(),
        forall|i: int|
            0 <= i < items.len() ==> #[trigger] view_of_docs(items)[i] == items[i]@,
    decreases items.len(),
{
    if items.len() > 0 {
        lemma_view_of_docs(items.drop_first());
    }
}

/// The first value bound to `key` in a record's field list, if any.
pub open spec fn spec_lookup(fields: Seq<(Seq<char>, DocumentView)>, key: Seq<char>) -> Option<
    DocumentView,
>
    decreases fields.len(),
{
    if fields.len() == 0 {
        None
    } else if fields[0].0 == key {
        Some(fields[0].1)
    } else {
        spec_lookup(fields.drop_first(), key)
    }
}

/// The value bound to `key` in a record document; `None` for any other
/// document shape, and for an absent key.
pub open spec fn spec_get(d: DocumentView, key: Seq<char>) -> Option<DocumentView> {
    match d {
        DocumentView::Record(fields) => spec_lookup(fields, key),
        _ => None,
    }
}

/// String slice equality, specified over the views.
pub fn str_eq(a: &str, b: &str) -> (r: bool)
    ensures
        r == (a@ == b@),
{
    let sa: String = a.to_owned();
    let sb: String = b.to_owned();
    sa == sb
}

/// Looks `key` up in a record document, scanning the fields front to back.
pub fn get_field<'a>(d: &'a Document, key: &str) -> (r: Option<&'a Document>)
    ensures
        match r {
            Some(v) => spec_get(d@, key@) == Some(v@),
            None => spec_get(d@, key@) is None,
        },
{
    match d {
        Document::Record(fields) => {
            proof {
                lemma_view_of_fields(fields@);
                assert(view_of_fields(fields@).skip(0) =~= view_of_fields(fields@));
            }
            let ghost all: Seq<(Seq<char>, DocumentView)> = view_of_fields(fields@);
            let mut i: usize = 0;
            while i < fields.len()
                invariant
                    0 <= i <= fields.len(),
                    all == view_of_fields(fields@),
                    all.len() == fields@.len(),
                    forall|j: int|
                        0 <= j < fields@.len() ==> #[trigger] all[j] == (
                            fields@[j].0@,
                            fields@[j].1@,
                        ),
                    spec_lookup(all, key@) == spec_lookup(all.skip(i as int), key@),
                    d@ matches DocumentView::Record(fs) && fs == all,
                decreases fields.len() - i,
            {
                let entry = &fields[i];
                if str_eq(entry.0.as_str(), key) {
                    proof {
                        assert(all.skip(i as int)[0] == all[i as int]);
                    }
                    return Some(&entry.1);
                }
                proof {
                    assert(all.skip(i as int)[0] == all[i as int]);
                    assert(all.skip(i as int).drop_first() =~= all.skip(i as int + 1));
                }
                i = i + 1;
            }
            proof {
                assert(all.skip(i as int) =~= Seq::empty());
            }
            None
        },
        _ => None,
    }
}

/// The unsigned integer bound to `key`, if the key holds one.
pub open spec fn spec_get_u64(d: DocumentView, key: Seq<char>) -> Option<u64> {
    match spec_get(d, key) {
        Some(DocumentView::UInt(n)) => Some(n),
        _ => None,
    }
}

/// The boolean bound to `key`, if the key holds one.
pub open spec fn spec_get_bool(d: DocumentView, key: Seq<char>) -> Option<bool> {
    match spec_get(d, key) {
        Some(DocumentView::Bool(b)) => Some(b),
        _ => None,
    }
}

/// The text bound to `key`, if the key holds text.
pub open spec fn spec_get_text(d: DocumentView, key: Seq<char>) -> Option<Seq<char>> {
    match spec_get(d, key) {
        Some(DocumentView::Text(s)) => Some(s),
        _ => None,
    }
}

/// An optional unsigned integer field: an absent key and an explicit null
/// both read as `None`; anything other than an unsigned integer is a shape
/// error (the outer `None`).
pub open spec fn spec_get_opt_u64(d: DocumentView, key: Seq<char>) -> Option<Option<u64>> {
    match spec_get(d, key) {
        None => Some(None),
        Some(DocumentView::Null) => Some(None),
        Some(DocumentView::UInt(n)) => Some(Some(n)),
        Some(_) => None,
    }
}

/// An unsigned integer field narrowed to 32 bits; a value over `u32::MAX`
/// is a shape error.
pub open spec fn spec_get_u32(d: DocumentView, key: Seq<char>) -> Option<u32> {
    match spec_get(d, key) {
        Some(DocumentView::UInt(n)) => if n <= u32::MAX {
            Some(n as u32)
        } else {
            None
        },
        _ => None,
    }
}

/// Like `spec_get_u32`, but an absent key reads as zero.
pub open spec fn spec_get_u32_or_zero(d: DocumentView, key: Seq<char>) -> Option<u32> {
    match spec_get(d, key) {
        None => Some(0),
        Some(DocumentView::UInt(n)) => if n <= u32::MAX {
            Some(n as u32)
        } else {
            None
        },
        Some(_) => None,
    }
}

/// All items of a list as unsigned integers, if every one is one.
pub open spec fn spec_u64_items(items: Seq<DocumentView>) -> Option<Seq<u64>>
    decreases items.len(),
{
    if items.len() == 0 {
        Some(Seq::empty())
    } else {
        match (items[0], spec_u64_items(items.drop_first())) {
            (DocumentView::UInt(n), Some(rest)) => Some(seq![n] + rest),
            _ => None,
        }
    }
}

/// The list of unsigned integers bound to `key`, if the key holds one.
pub open spec fn spec_get_u64_list(d: DocumentView, key: Seq<char>) -> Option<Seq<u64>> {
    match spec_get(d, key) {
        Some(DocumentView::List(items)) => spec_u64_items(items),
        _ => None,
    }
}

/// A structurally equal copy of a document tree.
pub fn clone_doc(d: &Document) -> (r: Document)
    ensures
        r@ == d@,
    decreases *d,
{
    match d {
        Document::Null => Document::Null,
        Document::Bool(b) => Document::Bool(*b),
        Document::UInt(n) => Document::UInt(*n),
        Document::Text(s) => Document::Text(s.clone()),
        Document::List(items) => {
            proof {
                broadcast use vstd::std_specs::vec::axiom_vec_decreases_to_view;

                lemma_view_of_docs(items@);
                assert(decreases_to!(*d => *items));
                assert(decreases_to!(*items => items@));
            }
            let mut out: Vec<Document> = Vec::new();
            let mut i: usize = 0;
            while i < items.len()
                invariant
                    0 <= i <= items@.len(),
                    out@.len() == i,
                    forall|j: int| 0 <= j < i ==> #[trigger] out@[j]@ == items@[j]@,
                    decreases_to!(*d => items@),
                decreases items@.len() - i,
            {
                proof {
                    assert(decreases_to!(items@ => items@[i as int]));
                }
                let c = clone_doc(&items[i]);
                out.push(c);
                i = i + 1;
            }
            proof {
                lemma_view_of_docs(out@);
                assert(view_of_docs(out@) =~= view_of_docs(items@));
            }
            Document::List(out)
        },
        Document::Record(fields) => {
            proof {
                broadcast use vstd::std_specs::vec::axiom_vec_decreases_to_view;

                lemma_view_of_fields(fields@);
                assert(decreases_to!(*d => *fields));
                assert(decreases_to!(*fields => fields@));
            }
            let mut out: Vec<(String, Document)> = Vec::new();
            let mut i: usize = 0;
            while i < fields.len()
                invariant
                    0 <= i <= fields@.len(),
                    out@.len() == i,
                    forall|j: int|
                        0 <= j < i ==> #[trigger] out@[j].0@ == fields@[j].0@ && out@[j].1@
                            == fields@[j].1@,
                    decreases_to!(*d => fields@),
                decreases fields@.len() - i,
            {
                proof {
                    assert(decreases_to!(fields@ => fields@[i as int]));
                    assert(decreases_to!(fields@[i as int] => fields@[i as int].1));
                }
                let entry = &fields[i];
                let k = entry.0.clone();
                let v = clone_doc(&entry.1);
                out.push((k, v));
                i = i + 1;
            }
            proof {
                lemma_view_of_fields(out@);
                assert(view_of_fields(out@) =~= view_of_fields(fields@));
            }
            Document::Record(out)
        },
    }
}

/// Reads an unsigned integer field.
pub fn get_u64(d: &Document, key: &str) -> (r: Option<u64>)
    ensures
        r == spec_get_u64(d@, key@),
{
    match get_field(d, key) {
        Some(Document::UInt(n)) => Some(*n),
        _ => None,
    }
}

/// Reads a boolean field.
pub fn get_bool(d: &Document, key: &str) -> (r: Option<bool>)
    ensures
        r == spec_get_bool(d@, key@),
{
    match get_field(d, key) {
        Some(Document::Bool(b)) => Some(*b),
        _ => None,
    }
}

/// Reads a text field, handing back an owned copy.
pub fn get_text(d: &Document, key: &str) -> (r: Option<String>)
    ensures
        match r {
            Some(s) => spec_get_text(d@, key@) == Some(s@),
            None => spec_get_text(d@, key@) is None,
        },
{
    match get_field(d, key) {
        Some(Document::Text(s)) => Some(s.clone()),
        _ => None,
    }
}

/// Reads an optional unsigned integer field; see `spec_get_opt_u64`.
pub fn get_opt_u64(d: &Document, key: &str) -> (r: Option<Option<u64>>)
    ensures
        r == spec_get_opt_u64(d@, key@),
{
    match get_field(d, key) {
        None => Some(None),
        Some(Document::Null) => Some(None),
        Some(Document::UInt(n)) => Some(Some(*n)),
        Some(_) => None,
    }
}

/// Reads an unsigned integer field narrowed to 32 bits.
pub fn get_u32(d: &Document, key: &str) -> (r: Option<u32>)
    ensures
        r == spec_get_u32(d@, key@),
{
    match get_field(d, key) {
        Some(Document::UInt(n)) => {
            let n = *n;
            if n <= u32::MAX as u64 {
                Some(n as u32)
            } else {
                None
            }
        },
        _ => None,
    }
}

/// Reads an unsigned 32-bit integer field, defaulting an absent key to zero.
pub fn get_u32_or_zero(d: &Document, key: &str) -> (r: Option<u32>)
    ensures
        r == spec_get_u32_or_zero(d@, key@),
{
    match get_field(d, key) {
        None => Some(0),
        Some(Document::UInt(n)) => {
            let n = *n;
            if n <= u32::MAX as u64 {
                Some(n as u32)
            } else {
                None
            }
        },
        Some(_) => None,
    }
}

/// Reads a list field whose items must all be unsigned integers.
pub fn get_u64_list(d: &Document, key: &str) -> (r: Option<Vec<u64>>)
    ensures
        match r {
            Some(v) => spec_get_u64_list(d@, key@) == Some(v@),
            None => spec_get_u64_list(d@, key@) is None,
        },
{
    let found = get_field(d, key);
    match found {
        Some(Document::List(items)) => {
            proof {
                assert(spec_get(d@, key@) matches Some(lv) && lv == DocumentView::List(
                    view_of_docs(items@),
                ));
                lemma_view_of_docs(items@);
                assert(view_of_docs(items@).skip(0) =~= view_of_docs(items@));
                if let Some(ns) = spec_u64_items(view_of_docs(items@)) {
                    assert(Seq::<u64>::empty() + ns =~= ns);
                }
            }
            let ghost all: Seq<DocumentView> = view_of_docs(items@);
            let mut out: Vec<u64> = Vec::new();
            let mut i: usize = 0;
            while i < items.len()
                invariant
                    0 <= i <= items@.len(),
                    out@.len() == i,
                    all.len() == items@.len(),
                    spec_get(d@, key@) == Some(DocumentView::List(all)),
                    forall|j: int| 0 <= j < items@.len() ==> #[trigger] all[j] == items@[j]@,
                    match spec_u64_items(all) {
                        Some(ns) => spec_u64_items(all.skip(i as int)) matches Some(rest) && ns
                            =~= out@ + rest,
                        None => spec_u64_items(all.skip(i as int)) is None,
                    },
                decreases items@.len() - i,
            {
                proof {
                    assert(all.skip(i as int)[0] == all[i as int]);
                    assert(all.skip(i as int).drop_first() =~= all.skip(i as int + 1));
                }
                match &items[i] {
                    Document::UInt(n) => {
                        out.push(*n);
                    },
                    _ => {
                        proof {
                            assert(all[i as int] == items@[i as int]@);
                            assert(!(all[i as int] is UInt));
                            assert(spec_u64_items(all.skip(i as int)) is None);
                            assert(spec_u64_items(all) is None);
                            assert(spec_get_u64_list(d@, key@) is None);
                        }
                        return None;
                    },
                }
                i = i + 1;
            }
            proof {
                assert(all.skip(i as int) =~= Seq::empty());
                assert(spec_u64_items(all.skip(i as int)) == Some(Seq::<u64>::empty()));
                if let Some(ns) = spec_u64_items(all) {
                    assert(ns =~= out@ + Seq::<u64>::empty());
                    assert(out@ + Seq::<u64>::empty() =~= out@);
                    assert(ns == out@);
                }
            }
            Some(out)
        },
        _ => None,
    }
}

/// Reads any field as an owned sub-document.
pub fn get_doc(d: &Document, key: &str) -> (r: Option<Document>)
    ensures
        match r {
            Some(v) => spec_get(d@, key@) == Some(v@),
            None => spec_get(d@, key@) is None,
        },
{
    match get_field(d, key) {
        Some(v) => Some(clone_doc(v)),
        None => None,
    }
}

} // verus!
