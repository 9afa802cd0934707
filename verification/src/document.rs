//! A TOML document, read through the `toml` crate.
//!
//! The configuration reads a document as far as two kinds of value go: a
//! boolean and a string. [`Setting`] holds a value to that extent, and the
//! functions here hand the top-level table of a document out in that form.

use vstd::prelude::*;

verus! {

/// The error with which `toml` refuses a text.
#[verifier::external_type_specification]
#[verifier::external_body]
pub struct ExTomlError(toml::de::Error);

/// A value of a TOML document, of any kind.
#[verifier::external_type_specification]
#[verifier::external_body]
pub struct ExTomlValue(toml::Value);

/// The map in which `toml` keeps a table.
#[verifier::external_type_specification]
#[verifier::external_body]
#[verifier::reject_recursive_types(K)]
#[verifier::reject_recursive_types(V)]
pub struct ExTomlMap<K, V>(toml::map::Map<K, V>);

/// A value of a document, as far as the configuration reads it.
#[derive(Debug, Clone, PartialEq, Eq)]
pub enum Setting {
    /// A TOML boolean.
    Boolean(bool),
    /// A TOML string.
    Text(String),
    /// A value of any other kind: a number, a date, an array or a table.
    Other,
}

/// What a [`Setting`] holds.
pub enum SettingView {
    Boolean(bool),
    Text(Seq<char>),
    Other,
}

impl View for Setting {
    type V = SettingView;

    open spec fn view(&self) -> SettingView {
        match self {
            Setting::Boolean(flag) => SettingView::Boolean(*flag),
            Setting::Text(text) => SettingView::Text(text@),
            Setting::Other => SettingView::Other,
        }
    }
}

/// The entries of a table: each key with its value, a boolean and a string
/// as they are, a value of another kind as [`SettingView::Other`].
pub uninterp spec fn table_settings(table: toml::map::Map<String, toml::Value>) -> Map<
    Seq<char>,
    SettingView,
>;

/// What `toml` makes of a text: the entries of the document's top-level
/// table, or the error with which it refuses the text.
pub uninterp spec fn parsed_document(text: Seq<char>) -> Result<
    Map<Seq<char>, SettingView>,
    toml::de::Error,
>;

/// Reads `text` as a TOML document with `toml::from_str`, into a
/// `toml::Table`.
///
/// The outcome depends on the text alone, and [`parsed_document`] names it:
/// the table that comes back holds the entries named there, and an error
/// that comes back is the one named there.
#[verifier::external_body]
pub(crate) fn parse_table(text: &str) -> (parsed: Result<toml::Table, toml::de::Error>)
    ensures
        parsed matches Ok(table) ==> parsed_document(text@) matches Ok(settings) && settings
            == table_settings(table),
        parsed matches Err(error) ==> parsed_document(text@) matches Err(refusal) && refusal
            == error,
{
    toml::from_str::<toml::Table>(text)
}

/// Looks `key` up with `toml::map::Map::get` and hands the value out as a
/// [`Setting`].
///
/// A value comes back exactly where the table has the key, and it is the one
/// that [`table_settings`] holds for it: `toml::Value::Boolean` and
/// `toml::Value::String` with what they carry, any other kind as
/// [`Setting::Other`].
#[verifier::external_body]
pub(crate) fn table_setting(table: &toml::Table, key: &str) -> (found: Option<Setting>)
    ensures
        found is Some <==> table_settings(*table).contains_key(key@),
        found is Some ==> found.unwrap()@ == table_settings(*table)[key@],
{
    match table.get(key) {
        Some(toml::Value::Boolean(flag)) => Some(Setting::Boolean(*flag)),
        Some(toml::Value::String(text)) => Some(Setting::Text(text.clone())),
        Some(_) => Some(Setting::Other),
        None => None,
    }
}

} // verus!
