//! The descriptor parser: the full text of one descriptor file becomes either
//! a validated `Service` record or a structured failure.
//!
//! A descriptor file is a generic key-value text (TOML). The syntax itself is
//! an external collaborator: the TOML library parses the text behind trusted
//! wrappers, and the verified code decides validity — the three required
//! fields `name`, `url` and `description` must be present, be strings, and be
//! non-empty; unknown fields are ignored. Parse failure is an expected
//! outcome, reported as a value, never as a panic.

use vstd::prelude::*;

use crate::record::Service;
use crate::record::ServiceView;

verus! {

#[verifier::external_type_specification]
#[verifier::external_body]
#[verifier::reject_recursive_types(K)]
#[verifier::reject_recursive_types(V)]
pub struct ExTomlMap<K, V>(toml::map::Map<K, V>);

#[verifier::external_type_specification]
#[verifier::external_body]
pub struct ExTomlValue(toml::Value);

/// The top-level string-valued fields of the table that the text `s` parses
/// to: `None` when `s` is not a valid TOML document, otherwise the partial
/// map sending each top-level key whose value is a TOML string to that
/// string's characters. A function of the text alone.
pub uninterp spec fn toml_table_of(s: Seq<char>) -> Option<Map<Seq<char>, Seq<char>>>;

/// The top-level string-valued fields that a parsed TOML table holds.
pub uninterp spec fn table_string_fields(t: toml::map::Map<String, toml::Value>) -> Map<
    Seq<char>,
    Seq<char>,
>;

/// Relies on toml::from_str: parses a TOML document, deterministically in the
/// text alone, and describes unparsable text through its error's message.
#[verifier::external_body]
fn parse_toml_table(s: &str) -> (r: Result<toml::map::Map<String, toml::Value>, String>)
    ensures
        r is Ok <==> toml_table_of(s@) is Some,
        r matches Ok(t) ==> Some(table_string_fields(t)) == toml_table_of(s@),
{
    toml::from_str::<toml::Table>(s).map_err(|e| e.to_string())
}

/// Relies on toml::map::Map::get and toml::Value::as_str: looks a top-level
/// key up and keeps the value only when it is a TOML string.
#[verifier::external_body]
fn table_get_string(t: &toml::map::Map<String, toml::Value>, key: &str) -> (r: Option<String>)
    ensures
        r is Some <==> table_string_fields(*t).contains_key(key@),
        r matches Some(v) ==> v@ == table_string_fields(*t)[key@],
{
    t.get(key).and_then(toml::Value::as_str).map(str::to_string)
}

/// Why one descriptor file yielded no record.
#[derive(Debug)]
pub enum DescriptorError {
    /// The text is not a valid document; `cause` is the parser's message.
    Syntax { cause: String },
    /// A required field is absent, or its value is not a string.
    MissingField { field: String },
    /// A required field is present but empty.
    EmptyField { field: String },
}

/// Whether a table's string fields form a valid descriptor: all three
/// required fields present and non-empty.
pub open spec fn string_fields_ok(m: Map<Seq<char>, Seq<char>>) -> bool {
    &&& m.contains_key("name"@)
    &&& m.contains_key("url"@)
    &&& m.contains_key("description"@)
    &&& m["name"@].len() > 0
    &&& m["url"@].len() > 0
    &&& m["description"@].len() > 0
}

/// The record that the text `s` describes, when it is a valid descriptor.
pub open spec fn spec_descriptor_record(s: Seq<char>) -> Option<ServiceView> {
    match toml_table_of(s) {
        Some(m) => if string_fields_ok(m) {
            Some(
                ServiceView {
                    name: m["name"@],
                    url: m["url"@],
                    description: m["description"@],
                },
            )
        } else {
            None
        },
        None => None,
    }
}

/// The first required field that is absent or not a string, in the fixed
/// order name, url, description.
pub open spec fn spec_missing_field(m: Map<Seq<char>, Seq<char>>) -> Option<Seq<char>> {
    if !m.contains_key("name"@) {
        Some("name"@)
    } else if !m.contains_key("url"@) {
        Some("url"@)
    } else if !m.contains_key("description"@) {
        Some("description"@)
    } else {
        None
    }
}

/// The first required field that is present but empty, in the same order;
/// meaningful only when no field is missing.
pub open spec fn spec_empty_field(m: Map<Seq<char>, Seq<char>>) -> Option<Seq<char>> {
    if m["name"@].len() == 0 {
        Some("name"@)
    } else if m["url"@].len() == 0 {
        Some("url"@)
    } else if m["description"@].len() == 0 {
        Some("description"@)
    } else {
        None
    }
}

/// The exact failure owed for the text `s`: a syntax error precisely when the
/// text is not a valid document, else the first missing field, else the first
/// empty field.
pub open spec fn descriptor_error_matches(s: Seq<char>, e: DescriptorError) -> bool {
    match e {
        DescriptorError::Syntax { .. } => toml_table_of(s) is None,
        DescriptorError::MissingField { field } => match toml_table_of(s) {
            Some(m) => spec_missing_field(m) == Some(field@),
            None => false,
        },
        DescriptorError::EmptyField { field } => match toml_table_of(s) {
            Some(m) => spec_missing_field(m) is None && spec_empty_field(m) == Some(field@),
            None => false,
        },
    }
}

/// Parses one descriptor file's text: a record exactly when the text is a
/// valid document whose three required fields are present, strings and
/// non-empty; otherwise the failure that `descriptor_error_matches` owes.
pub fn parse_descriptor(text: &str) -> (r: Result<Service, DescriptorError>)
    ensures
        r is Ok <==> spec_descriptor_record(text@) is Some,
        r matches Ok(s) ==> Some(s@) == spec_descriptor_record(text@),
        r matches Err(e) ==> descriptor_error_matches(text@, e),
{
    let t = match parse_toml_table(text) {
        Ok(t) => t,
        Err(cause) => {
            return Err(DescriptorError::Syntax { cause });
        },
    };
    let name = match table_get_string(&t, "name") {
        Some(v) => v,
        None => {
            return Err(DescriptorError::MissingField { field: "name".to_owned() });
        },
    };
    let url = match table_get_string(&t, "url") {
        Some(v) => v,
        None => {
            return Err(DescriptorError::MissingField { field: "url".to_owned() });
        },
    };
    let description = match table_get_string(&t, "description") {
        Some(v) => v,
        None => {
            return Err(DescriptorError::MissingField { field: "description".to_owned() });
        },
    };
    if name.as_str().is_empty() {
        return Err(DescriptorError::EmptyField { field: "name".to_owned() });
    }
    if url.as_str().is_empty() {
        return Err(DescriptorError::EmptyField { field: "url".to_owned() });
    }
    if description.as_str().is_empty() {
        return Err(DescriptorError::EmptyField { field: "description".to_owned() });
    }
    Ok(Service { name, url, description })
}

} // verus!
