//! The structured-data layer: a library-owned tree of TOML-shaped values,
//! its mathematical model, and the trusted boundary to the `toml` crate,
//! which alone turns text into such trees and back.

use vstd::prelude::*;

verus! {

/// A TOML-shaped value, held in plain library types. A `Float` or datetime
/// leaf, which the resume schema never uses, is kept as `Other` so that the
/// schema step can reject it.
#[derive(Debug, PartialEq)]
pub enum TomlVal {
    Text(String),
    Int(i64),
    Bool(bool),
    Arr(Vec<TomlVal>),
    Tab(Vec<(String, TomlVal)>),
    Other,
}

/// The mathematical model of a TOML-shaped value.
pub ghost enum TomlDoc {
    Text(Seq<char>),
    Int(int),
    Bool(bool),
    Arr(Seq<TomlDoc>),
    Tab(Seq<(Seq<char>, TomlDoc)>),
    Other,
}

/// Whether the value `v` is modelled by the document `d`.
pub open spec fn val_is(v: TomlVal, d: TomlDoc) -> bool
    decreases d,
{
    match (v, d) {
        (TomlVal::Text(s), TomlDoc::Text(t)) => s@ == t,
        (TomlVal::Int(i), TomlDoc::Int(j)) => i as int == j,
        (TomlVal::Bool(b), TomlDoc::Bool(c)) => b == c,
        (TomlVal::Arr(items), TomlDoc::Arr(ds)) => {
            &&& items@.len() == ds.len()
            &&& forall|i: int| 0 <= i < ds.len() ==> val_is(#[trigger] items@[i], ds[i])
        },
        (TomlVal::Tab(entries), TomlDoc::Tab(ds)) => {
            &&& entries@.len() == ds.len()
            &&& forall|i: int| 0 <= i < ds.len() ==> {
                &&& (#[trigger] entries@[i]).0@ == ds[i].0
                &&& val_is(entries@[i].1, ds[i].1)
            }
        },
        (TomlVal::Other, TomlDoc::Other) => true,
        _ => false,
    }
}

/// The value bound to a key among a table's entries; where a key repeats,
/// the last binding wins.
pub open spec fn doc_get(entries: Seq<(Seq<char>, TomlDoc)>, key: Seq<char>) -> Option<TomlDoc>
    decreases entries.len(),
{
    if entries.len() == 0 {
        Option::None
    } else if entries.last().0 == key {
        Option::Some(entries.last().1)
    } else {
        doc_get(entries.drop_last(), key)
    }
}

/// Appending an entry binds its key and leaves every other key unchanged.
pub proof fn lemma_doc_get_push(
    entries: Seq<(Seq<char>, TomlDoc)>,
    key: Seq<char>,
    bound: Seq<char>,
    value: TomlDoc,
)
    ensures
        doc_get(entries.push((bound, value)), key) == if bound == key {
            Option::Some(value)
        } else {
            doc_get(entries, key)
        },
{
    let pushed = entries.push((bound, value));
    assert(pushed.last() == (bound, value));
    assert(pushed.drop_last() =~= entries);
}

/// Keys that match nowhere at or past `i` leave the lookup to the first
/// `i` entries.
pub proof fn lemma_doc_get_prefix(entries: Seq<(Seq<char>, TomlDoc)>, key: Seq<char>, i: int)
    requires
        0 <= i <= entries.len(),
        forall|j: int| i <= j < entries.len() ==> (#[trigger] entries[j]).0 != key,
    ensures
        doc_get(entries, key) == doc_get(entries.take(i), key),
    decreases entries.len() - i,
{
    if i == entries.len() {
        assert(entries.take(i) =~= entries);
    } else {
        lemma_doc_get_prefix(entries, key, i + 1);
        assert(entries.take(i + 1).drop_last() =~= entries.take(i));
        assert(entries.take(i + 1).last() == entries[i]);
    }
}

/// Looks a key up among a table's entries, returning the last binding,
/// exactly as `doc_get` does on the table's model.
pub fn tab_get<'a>(
    entries: &'a Vec<(String, TomlVal)>,
    key: &str,
    Ghost(docs): Ghost<Seq<(Seq<char>, TomlDoc)>>,
) -> (r: Option<&'a TomlVal>)
    requires
        val_is(TomlVal::Tab(*entries), TomlDoc::Tab(docs)),
    ensures
        match r {
            Option::Some(v) => doc_get(docs, key@) matches Option::Some(dv) && val_is(*v, dv),
            Option::None => doc_get(docs, key@) is None,
        },
{
    let target: String = key.to_owned();
    let mut i: usize = entries.len();
    while i > 0
        invariant
            i <= entries.len(),
            target@ == key@,
            val_is(TomlVal::Tab(*entries), TomlDoc::Tab(docs)),
            forall|j: int| i <= j < docs.len() ==> (#[trigger] docs[j]).0 != key@,
        decreases i,
    {
        i = i - 1;
        let entry = &entries[i];
        if entry.0 == target {
            proof {
                lemma_doc_get_prefix(docs, key@, i + 1);
                assert(docs.take(i as int + 1).last() == docs[i as int]);
            }
            return Option::Some(&entry.1);
        }
    }
    proof {
        lemma_doc_get_prefix(docs, key@, 0);
        assert(docs.take(0).len() == 0);
    }
    Option::None
}

} // verus!

verus! {

/// The `toml` crate's value type, declared so that the trusted conversions
/// below can name it; the library never looks inside such a value.
#[verifier::external_type_specification]
#[verifier::external_body]
pub struct ExTomlValue(toml::Value);

/// The `toml` crate's map type, which backs `toml::Table`.
#[verifier::external_type_specification]
#[verifier::external_body]
#[verifier::reject_recursive_types(K)]
#[verifier::reject_recursive_types(V)]
pub struct ExTomlMap<K, V>(toml::map::Map<K, V>);

/// The document that TOML text parses to, if it parses at all: what
/// `toml::from_str` returns on the text, a function of the text alone.
pub uninterp spec fn toml_doc(text: Seq<char>) -> Option<TomlDoc>;

/// The TOML text that a table document renders to, if it has one: what
/// `toml::to_string` returns on the table, a function of the document alone.
pub uninterp spec fn toml_text(doc: TomlDoc) -> Option<Seq<char>>;

/// Relies on toml::Value: rebuilds the crate's value as a library-owned
/// tree, one variant for one variant. Floats and datetimes, which the
/// resume schema rejects anyway, become `Other`.
#[verifier::external_body]
fn value_to_val(v: &toml::Value) -> TomlVal {
    match v {
        toml::Value::String(s) => TomlVal::Text(s.clone()),
        toml::Value::Integer(i) => TomlVal::Int(*i),
        toml::Value::Float(_) => TomlVal::Other,
        toml::Value::Boolean(b) => TomlVal::Bool(*b),
        toml::Value::Datetime(_) => TomlVal::Other,
        toml::Value::Array(a) => TomlVal::Arr(a.iter().map(value_to_val).collect()),
        toml::Value::Table(t) => TomlVal::Tab(table_to_entries(t)),
    }
}

/// Relies on toml::Table: rebuilds the crate's table as a vector of
/// entries, entry for entry, in the table's own iteration order.
#[verifier::external_body]
fn table_to_entries(t: &toml::Table) -> Vec<(String, TomlVal)> {
    t.iter().map(|(k, x)| (k.clone(), value_to_val(x))).collect()
}

/// Relies on toml::Value: rebuilds a library tree as the crate's value,
/// one variant for one variant. `Other` has no TOML form and yields nothing.
#[verifier::external_body]
fn val_to_value(v: &TomlVal) -> Option<toml::Value> {
    match v {
        TomlVal::Text(s) => Some(toml::Value::String(s.clone())),
        TomlVal::Int(i) => Some(toml::Value::Integer(*i)),
        TomlVal::Bool(b) => Some(toml::Value::Boolean(*b)),
        TomlVal::Arr(a) => Some(toml::Value::Array(vals_to_values(a)?)),
        TomlVal::Tab(es) => Some(toml::Value::Table(entries_to_table(es)?)),
        TomlVal::Other => None,
    }
}

/// Relies on toml::Value: rebuilds a vector of library trees as the
/// crate's values, element for element.
#[verifier::external_body]
fn vals_to_values(a: &Vec<TomlVal>) -> Option<Vec<toml::Value>> {
    a.iter().map(val_to_value).collect()
}

/// Relies on toml::Table: rebuilds a vector of entries as the crate's
/// table, entry for entry; where a key repeats, the last binding wins.
#[verifier::external_body]
fn entries_to_table(es: &Vec<(String, TomlVal)>) -> Option<toml::Table> {
    es.iter().map(|(k, x)| Some((k.clone(), val_to_value(x)?))).collect()
}

/// Relies on toml::from_str::<toml::Table>: parses TOML text, whose
/// top-level value is always a table; which document comes back depends on
/// the text alone.
#[verifier::external_body]
pub(crate) fn parse_toml_text(text: &str) -> (r: Result<TomlVal, String>)
    ensures
        match r {
            Result::Ok(v) => {
                &&& toml_doc(text@) matches Option::Some(d) && val_is(v, d)
                &&& v is Tab
            },
            Result::Err(_) => toml_doc(text@) is None,
        },
{
    match toml::from_str::<toml::Table>(text) {
        Ok(table) => Ok(value_to_val(&toml::Value::Table(table))),
        Err(e) => Err(e.to_string()),
    }
}

/// Relies on toml::to_string on a `toml::Table`: renders a table document
/// as TOML text; which text comes back depends on the document alone.
#[verifier::external_body]
pub(crate) fn table_to_text(entries: &Vec<(String, TomlVal)>) -> (r: Result<String, String>)
    ensures
        forall|docs: Seq<(Seq<char>, TomlDoc)>|
            val_is(TomlVal::Tab(*entries), TomlDoc::Tab(docs)) ==> match r {
                Result::Ok(t) => toml_text(TomlDoc::Tab(docs)) matches Option::Some(s) && t@ == s,
                Result::Err(_) => toml_text(TomlDoc::Tab(docs)) is None,
            },
{
    match entries_to_table(entries) {
        Some(table) => match toml::to_string(&table) {
            Ok(s) => Ok(s),
            Err(e) => Err(e.to_string()),
        },
        None => Err("a value has no TOML form".to_owned()),
    }
}

} // verus!
