//! The boundary to the TOML language: parsing raw text into the top-level
//! key/value pairs of a TOML document, and looking a key up among them.
//!
//! The TOML grammar itself is the business of the `toml` crate; this module
//! only gives its result a mathematical name (`toml_doc`) and provides a
//! verified lookup over the pairs it hands back.

use vstd::prelude::*;

verus! {

/// A top-level TOML value, reduced to what the configuration schema reads:
/// an integer, a piece of text, or anything else (a float, a boolean, a
/// datetime, an array, a nested table).
pub enum TomlScalar {
    Int(i64),
    Text(String),
    Other,
}

/// The mathematical counterpart of `TomlScalar`, with text as a `Seq<char>`.
pub enum TomlScalarV {
    Int(i64),
    Text(Seq<char>),
    Other,
}

impl View for TomlScalar {
    type V = TomlScalarV;

    open spec fn view(&self) -> TomlScalarV {
        match self {
            TomlScalar::Int(i) => TomlScalarV::Int(*i),
            TomlScalar::Text(s) => TomlScalarV::Text(s@),
            TomlScalar::Other => TomlScalarV::Other,
        }
    }
}

/// What the TOML parser returns on a given text: `None` on a syntax error,
/// otherwise the document's top-level key/value pairs. The TOML grammar is
/// not restated here; the name stands for the `toml` crate's verdict, which
/// depends on the text alone.
pub uninterp spec fn toml_doc(text: Seq<char>) -> Option<Seq<(Seq<char>, TomlScalarV)>>;

/// The view of a vector of parsed pairs, key and value both mathematical.
pub open spec fn entries_view(entries: Seq<(String, TomlScalar)>) -> Seq<(Seq<char>, TomlScalarV)> {
    entries.map_values(|e: (String, TomlScalar)| (e.0@, e.1@))
}

/// Relies on `toml::from_str::<toml::Table>`: it parses the text as a TOML
/// document, returning its top-level table exactly when the text is
/// syntactically valid TOML. Each value is reduced to a `TomlScalar`.
#[verifier::external_body]
pub(crate) fn toml_entries(text: &str) -> (r: Option<Vec<(String, TomlScalar)>>)
    ensures
        (r is Some) == (toml_doc(text@) is Some),
        r matches Some(v) ==> toml_doc(text@) == Some(entries_view(v@)),
{
    match toml::from_str::<toml::Table>(text) {
        Ok(table) => Some(
            table
                .into_iter()
                .map(|(key, value)| (key, match value {
                    toml::Value::Integer(i) => TomlScalar::Int(i),
                    toml::Value::String(s) => TomlScalar::Text(s),
                    _ => TomlScalar::Other,
                }))
                .collect(),
        ),
        Err(_) => None,
    }
}

/// The first value bound to `key` among the document's pairs, if any.
pub open spec fn doc_lookup(doc: Seq<(Seq<char>, TomlScalarV)>, key: Seq<char>) -> Option<TomlScalarV>
    decreases doc.len(),
{
    if doc.len() == 0 {
        None
    } else if doc[0].0 == key {
        Some(doc[0].1)
    } else {
        doc_lookup(doc.drop_first(), key)
    }
}

proof fn lemma_lookup_found(doc: Seq<(Seq<char>, TomlScalarV)>, key: Seq<char>, i: int)
    requires
        0 <= i < doc.len(),
        forall|j: int| 0 <= j < i ==> doc[j].0 != key,
        doc[i].0 == key,
    ensures
        doc_lookup(doc, key) == Some(doc[i].1),
    decreases i,
{
    if i > 0 {
        lemma_lookup_found(doc.drop_first(), key, i - 1);
    }
}

proof fn lemma_lookup_absent(doc: Seq<(Seq<char>, TomlScalarV)>, key: Seq<char>)
    requires
        forall|j: int| 0 <= j < doc.len() ==> doc[j].0 != key,
    ensures
        doc_lookup(doc, key) is None,
    decreases doc.len(),
{
    if doc.len() > 0 {
        lemma_lookup_absent(doc.drop_first(), key);
    }
}

/// Finds the value bound to `key` among the parsed pairs.
pub fn doc_find<'a>(entries: &'a Vec<(String, TomlScalar)>, key: &String) -> (r: Option<&'a TomlScalar>)
    ensures
        (match r {
            Some(s) => doc_lookup(entries_view(entries@), key@) == Some(s@),
            None => doc_lookup(entries_view(entries@), key@) is None,
        }),
{
    let mut i: usize = 0;
    while i < entries.len()
        invariant
            0 <= i <= entries@.len(),
            forall|j: int| 0 <= j < i ==> entries_view(entries@)[j].0 != key@,
        decreases entries@.len() - i,
    {
        let e = &entries[i];
        if e.0 == *key {
            proof {
                lemma_lookup_found(entries_view(entries@), key@, i as int);
            }
            return Some(&e.1);
        }
        i = i + 1;
    }
    proof {
        lemma_lookup_absent(entries_view(entries@), key@);
    }
    None
}

} // verus!
