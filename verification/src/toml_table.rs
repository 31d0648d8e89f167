//! The TOML tables of configuration files, read with the `toml` crate.
//!
//! A `toml::Table` is opaque here. What the configuration reads of it is
//! named by `toml_scalars` (the scalar values of its keys) and
//! `toml_arrays` (for each key holding an array, the scalars of each of
//! its elements).

use vstd::prelude::*;

verus! {

#[verifier::external_type_specification]
#[verifier::external_body]
#[verifier::reject_recursive_types(K)]
#[verifier::reject_recursive_types(V)]
pub struct ExTomlMap<K, V>(toml::map::Map<K, V>);

#[verifier::external_type_specification]
#[verifier::external_body]
pub struct ExTomlValue(toml::Value);

#[verifier::external_type_specification]
#[verifier::external_body]
pub struct ExTomlError(toml::de::Error);

/// A value of a TOML table, as the configuration reads it: a string, a
/// boolean, an integer, or anything else (float, date, array, table).
#[derive(Debug, Clone)]
pub enum TomlScalar {
    Str(String),
    Bool(bool),
    Int(i64),
    Other,
}

/// The mathematical value of a TOML scalar.
pub enum TomlScalarView {
    Str(Seq<char>),
    Bool(bool),
    Int(int),
    Other,
}

impl View for TomlScalar {
    type V = TomlScalarView;

    open spec fn view(&self) -> TomlScalarView {
        match self {
            TomlScalar::Str(s) => TomlScalarView::Str(s@),
            TomlScalar::Bool(b) => TomlScalarView::Bool(*b),
            TomlScalar::Int(i) => TomlScalarView::Int(*i as int),
            TomlScalar::Other => TomlScalarView::Other,
        }
    }
}

/// The scalar entries of a table: what each key holds (a string, a
/// boolean, an integer, or `Other` for any other kind of value).
pub type TomlEntries = Map<Seq<char>, TomlScalarView>;

/// The scalar values of the keys of a TOML table.
pub uninterp spec fn toml_scalars(table: toml::Table) -> TomlEntries;

/// For each key of a TOML table which holds an array: the scalar entries
/// of each of its elements, in order (no entry for an element which isn't
/// a table).
pub uninterp spec fn toml_arrays(table: toml::Table) -> Map<Seq<char>, Seq<TomlEntries>>;

/// What `toml` parses of a text: `None` when it isn't a valid TOML
/// document, else the scalar entries and the arrays of its root table.
pub uninterp spec fn toml_document(text: Seq<char>) -> Option<(TomlEntries, Map<Seq<char>, Seq<TomlEntries>>)>;

/// The optional view of an optional scalar.
pub open spec fn opt_scalar_view(o: Option<TomlScalar>) -> Option<TomlScalarView> {
    match o {
        Some(s) => Some(s@),
        None => None,
    }
}

/// What the key holds in the entries, if anything.
pub open spec fn entry_at(entries: TomlEntries, key: Seq<char>) -> Option<TomlScalarView> {
    if entries.contains_key(key) { Some(entries[key]) } else { None }
}

/// The tables of the array at the key, none when there's no array there.
pub open spec fn tables_at(arrays: Map<Seq<char>, Seq<TomlEntries>>, key: Seq<char>) -> Seq<TomlEntries> {
    if arrays.contains_key(key) { arrays[key] } else { Seq::empty() }
}

/// Parse a TOML document into its root table.
///
/// Trusted: `Table::from_str` (`toml::from_str`) deserializes the text
/// into a table, failing when the text isn't a valid TOML document; the
/// result depends on the text only.
#[verifier::external_body]
pub(crate) fn toml_parse(text: &str) -> (res: Result<toml::Table, toml::de::Error>)
    ensures
        res is Ok <==> toml_document(text@) is Some,
        res matches Ok(t) ==> toml_document(text@) == Some((toml_scalars(t), toml_arrays(t))),
{
    text.parse::<toml::Table>()
}

/// What the key holds in the table, if anything.
///
/// Trusted: `Map::get` gives the value of the key, which is then told
/// apart by its variant.
#[verifier::external_body]
pub(crate) fn toml_get(table: &toml::Table, key: &str) -> (res: Option<TomlScalar>)
    ensures
        opt_scalar_view(res) == entry_at(toml_scalars(*table), key@),
{
    match table.get(key) {
        Some(toml::Value::String(s)) => Some(TomlScalar::Str(s.clone())),
        Some(toml::Value::Boolean(b)) => Some(TomlScalar::Bool(*b)),
        Some(toml::Value::Integer(i)) => Some(TomlScalar::Int(*i)),
        Some(_) => Some(TomlScalar::Other),
        None => None,
    }
}

/// The elements of the array the key holds, as tables (an empty one for
/// an element which isn't a table); none when the key holds no array.
///
/// Trusted: `Map::get` gives the value of the key; the elements of an
/// array are cloned in order, those which aren't tables replaced by
/// `Table::new()`, which has no entry.
#[verifier::external_body]
pub(crate) fn toml_get_tables(table: &toml::Table, key: &str) -> (res: Vec<toml::Table>)
    ensures
        res@.len() == tables_at(toml_arrays(*table), key@).len(),
        forall|i: int| 0 <= i < res@.len()
            ==> toml_scalars(#[trigger] res@[i]) == tables_at(toml_arrays(*table), key@)[i],
{
    match table.get(key) {
        Some(toml::Value::Array(a)) => a.iter().map(|v| match v {
            toml::Value::Table(t) => t.clone(),
            _ => toml::Table::new(),
        }).collect(),
        _ => Vec::new(),
    }
}

/// The message of a TOML error.
///
/// Trusted: the `Display` text of `toml::de::Error`; nothing is stated
/// of it.
#[verifier::external_body]
pub(crate) fn toml_error_message(e: &toml::de::Error) -> String {
    e.to_string()
}

} // verus!
