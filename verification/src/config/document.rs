//! TOML documents, as far as the configuration reads them.

use vstd::prelude::*;

verus! {

/// The map behind `toml::Table`. What a table holds is named by
/// `table_entries`.
#[verifier::external_type_specification]
#[verifier::external_body]
#[verifier::reject_recursive_types(K)]
#[verifier::reject_recursive_types(V)]
pub struct ExTomlMap<K, V>(toml::map::Map<K, V>);

/// A value of a TOML document. It is handed out only as a `Setting`.
#[verifier::external_type_specification]
#[verifier::external_body]
pub struct ExTomlValue(toml::Value);

/// Why toml refused a text. Only its text is ever read.
#[verifier::external_type_specification]
#[verifier::external_body]
pub struct ExTomlError(toml::de::Error);

/// What a key of a table holds, as far as the configuration reads it: a
/// string, an integer, a table, or anything else.
pub enum Setting {
    Text(String),
    Integer(i64),
    Section(toml::Table),
    Other,
}

/// A setting over the characters of its text and the entries of its table.
pub enum SettingView {
    Text(Seq<char>),
    Integer(i64),
    Section(Map<Seq<char>, SettingView>),
    Other,
}

impl View for Setting {
    type V = SettingView;

    open spec fn view(&self) -> SettingView {
        match *self {
            Setting::Text(text) => SettingView::Text(text@),
            Setting::Integer(n) => SettingView::Integer(n),
            Setting::Section(table) => SettingView::Section(table_entries(table)),
            Setting::Other => SettingView::Other,
        }
    }
}

/// What a table holds: for each of its keys, the setting under it.
pub uninterp spec fn table_entries(table: toml::Table) -> Map<Seq<char>, SettingView>;

/// What the top-level table of the TOML document `text` holds, or `None`
/// where `text` is no TOML document.
pub uninterp spec fn document_entries(text: Seq<char>) -> Option<Map<Seq<char>, SettingView>>;

/// Calls `toml::from_str` for a `toml::Table`. The contract names what it
/// returns: the top-level table of the document, or an error, as a function
/// of the text alone.
#[verifier::external_body]
pub(crate) fn parse_document(text: &str) -> (r: Result<toml::Table, toml::de::Error>)
    ensures
        r is Ok <==> document_entries(text@) is Some,
        r matches Ok(table) ==> document_entries(text@) == Some(table_entries(table)),
{
    toml::from_str::<toml::Table>(text)
}

/// Calls `get` of a `toml::Table` and hands out what it finds as a
/// `Setting`: `None` where the table has no such key, else the value under
/// the key, variant by variant.
#[verifier::external_body]
pub(crate) fn table_get(table: &toml::Table, key: &str) -> (r: Option<Setting>)
    ensures
        r is Some <==> table_entries(*table).contains_key(key@),
        r matches Some(setting) ==> table_entries(*table)[key@] == setting@,
{
    match table.get(key) {
        None => None,
        Some(toml::Value::String(text)) => Some(Setting::Text(text.clone())),
        Some(toml::Value::Integer(n)) => Some(Setting::Integer(*n)),
        Some(toml::Value::Table(table)) => Some(Setting::Section(table.clone())),
        Some(toml::Value::Float(_)) => Some(Setting::Other),
        Some(toml::Value::Boolean(_)) => Some(Setting::Other),
        Some(toml::Value::Datetime(_)) => Some(Setting::Other),
        Some(toml::Value::Array(_)) => Some(Setting::Other),
    }
}

/// Calls `to_string` of a `toml::de::Error`: the text that describes it.
#[verifier::external_body]
pub(crate) fn toml_error_text(err: &toml::de::Error) -> String {
    err.to_string()
}

} // verus!
