//! One raw configuration entry, as handed over by the upstream source-text
//! parser: a key with a literal value, a key with a nested attribute list,
//! or a bare key.

use vstd::prelude::*;

use crate::strutil::strings_view;

verus! {

/// A raw configuration entry.
#[derive(Clone, Debug, PartialEq, Eq)]
pub enum Entry {
    /// `key = "literal"`.
    NameValue(String, String),
    /// `key(item, item, ...)` — a nested attribute list, items opaque.
    List(String, Vec<String>),
    /// `key` alone.
    Bare(String),
}

/// The mathematical model of an `Entry`.
pub enum EntryV {
    NameValue(Seq<char>, Seq<char>),
    List(Seq<char>, Seq<Seq<char>>),
    Bare(Seq<char>),
}

impl View for Entry {
    type V = EntryV;

    open spec fn view(&self) -> EntryV {
        match self {
            Entry::NameValue(k, v) => EntryV::NameValue(k@, v@),
            Entry::List(k, items) => EntryV::List(k@, strings_view(items@)),
            Entry::Bare(k) => EntryV::Bare(k@),
        }
    }
}

/// The key of an entry, whatever its shape.
pub open spec fn entry_key(e: EntryV) -> Seq<char> {
    match e {
        EntryV::NameValue(k, _) => k,
        EntryV::List(k, _) => k,
        EntryV::Bare(k) => k,
    }
}

/// The view of a sequence of entries.
pub open spec fn entries_view(v: Seq<Entry>) -> Seq<EntryV> {
    v.map_values(|e: Entry| e@)
}

} // verus!
