//! Structured log fields and the model of a logger as the ordered sequence of
//! fields that it carries.
use vstd::prelude::*;

verus! {

/// A loggable value.
#[derive(Clone, Debug, PartialEq, Eq)]
pub enum FieldValue {
    Text(String),
    MaybeText(Option<String>),
    Signed(i64),
    MaybeSigned(Option<i64>),
    Unsigned(u64),
    MaybeUnsigned(Option<u64>),
    Flag(bool),
}

/// What a `FieldValue` holds, as mathematical values.
pub enum ValueModel {
    Text(Seq<char>),
    MaybeText(Option<Seq<char>>),
    Signed(int),
    MaybeSigned(Option<int>),
    Unsigned(nat),
    MaybeUnsigned(Option<nat>),
    Flag(bool),
}

/// A key and its value, as mathematical values.
pub type Entry = (Seq<char>, ValueModel);

pub open spec fn text_model(o: Option<String>) -> Option<Seq<char>> {
    match o {
        Some(s) => Some(s@),
        None => None,
    }
}

pub open spec fn signed_model(o: Option<i64>) -> Option<int> {
    match o {
        Some(v) => Some(v as int),
        None => None,
    }
}

pub open spec fn unsigned_model(o: Option<u64>) -> Option<nat> {
    match o {
        Some(v) => Some(v as nat),
        None => None,
    }
}

impl View for FieldValue {
    type V = ValueModel;

    open spec fn view(&self) -> ValueModel {
        match self {
            FieldValue::Text(s) => ValueModel::Text(s@),
            FieldValue::MaybeText(o) => ValueModel::MaybeText(text_model(*o)),
            FieldValue::Signed(v) => ValueModel::Signed(*v as int),
            FieldValue::MaybeSigned(o) => ValueModel::MaybeSigned(signed_model(*o)),
            FieldValue::Unsigned(v) => ValueModel::Unsigned(*v as nat),
            FieldValue::MaybeUnsigned(o) => ValueModel::MaybeUnsigned(unsigned_model(*o)),
            FieldValue::Flag(b) => ValueModel::Flag(*b),
        }
    }
}

/// One key-value pair attached to a logger or a log record.
#[derive(Clone, Debug, PartialEq, Eq)]
pub struct Field {
    pub key: String,
    pub value: FieldValue,
}

impl View for Field {
    type V = Entry;

    open spec fn view(&self) -> Entry {
        (self.key@, self.value@)
    }
}

/// The entries of a field sequence, in order.
pub open spec fn entries(fields: Seq<Field>) -> Seq<Entry> {
    fields.map_values(|f: Field| f@)
}

/// The value that a logger carrying `entries` shows for `key`: the one added
/// last, since a child's field shadows its parent's.
pub open spec fn lookup(entries: Seq<Entry>, key: Seq<char>) -> Option<ValueModel>
    decreases entries.len(),
{
    if entries.len() == 0 {
        None
    } else if entries.last().0 == key {
        Some(entries.last().1)
    } else {
        lookup(entries.drop_last(), key)
    }
}

/// The entries of a child logger: all of its parent's, then its own.
pub open spec fn child(parent: Seq<Entry>, extra: Seq<Entry>) -> Seq<Entry> {
    parent + extra
}

/// A key of a child logger shows the child's value where the child has one,
/// and the parent's value otherwise.
pub proof fn lemma_lookup_child(parent: Seq<Entry>, extra: Seq<Entry>, key: Seq<char>)
    ensures
        lookup(child(parent, extra), key) == match lookup(extra, key) {
            Some(v) => Some(v),
            None => lookup(parent, key),
        },
    decreases extra.len(),
{
    if extra.len() == 0 {
        assert(child(parent, extra) =~= parent);
    } else {
        assert(child(parent, extra).drop_last() =~= child(parent, extra.drop_last()));
        lemma_lookup_child(parent, extra.drop_last(), key);
    }
}

impl Field {
    /// A field with the given key and value.
    pub fn new(key: &str, value: FieldValue) -> (r: Field)
        ensures
            r.key@ == key@,
            r.value == value,
    {
        Field { key: key.to_owned(), value }
    }
}

/// A copy of an optional string.
pub fn clone_text(o: &Option<String>) -> (r: Option<String>)
    ensures
        text_model(r) == text_model(*o),
{
    match o {
        Some(s) => Some(s.clone()),
        None => None,
    }
}

} // verus!
