//! Parsing and serializing through the format libraries.
//!
//! The shared in-memory representation of a document is `serde_json::Value`:
//! each parser deserializes its text into that one type and each serializer
//! renders from it, so every pair of formats converts through the same
//! intermediate. The value type is opaque here; what a value denotes is
//! written `doc_of(v)`, a `Doc`, and the text each library accepts or
//! produces is named per format (`json_doc`, `json_compact`, ...). Parsing
//! and rendering are pure: each such name is a function of the text or the
//! document alone.
//!
//! Key order is preserved throughout: the libraries are configured to keep
//! mapping entries in declaration order, for all three formats. The YAML
//! dialect accepted is the one the YAML library implements.

use vstd::prelude::*;
use crate::format::{ConvertError, Format};
use crate::model::Doc;

verus! {

#[verifier::external_type_specification]
#[verifier::external_body]
pub struct ExJsonValue(serde_json::Value);

#[verifier::external_type_specification]
#[verifier::external_body]
pub struct ExJsonError(serde_json::Error);

#[verifier::external_type_specification]
#[verifier::external_body]
pub struct ExYamlError(serde_yaml::Error);

#[verifier::external_type_specification]
#[verifier::external_body]
pub struct ExTomlDeError(toml::de::Error);

#[verifier::external_type_specification]
#[verifier::external_body]
pub struct ExTomlSerError(toml::ser::Error);

/// The document a generic value denotes.
pub uninterp spec fn doc_of(v: serde_json::Value) -> Doc;

/// The document JSON text parses to, or `None` where the text is not
/// well-formed JSON.
pub uninterp spec fn json_doc(t: Seq<char>) -> Option<Doc>;

/// The document YAML text parses to, or `None` where the text is not
/// well-formed YAML.
pub uninterp spec fn yaml_doc(t: Seq<char>) -> Option<Doc>;

/// The document TOML text parses to, or `None` where the text is not
/// well-formed TOML.
pub uninterp spec fn toml_doc(t: Seq<char>) -> Option<Doc>;

/// The compact (single-line) JSON rendering of a document.
pub uninterp spec fn json_compact(d: Doc) -> Option<Seq<char>>;

/// The multi-line JSON rendering of a document, indented by two spaces per
/// level.
pub uninterp spec fn json_pretty(d: Doc) -> Option<Seq<char>>;

/// The YAML rendering of a document. YAML output is inherently indented, so
/// there is one rendering, with no compact/pretty distinction.
pub uninterp spec fn yaml_out(d: Doc) -> Option<Seq<char>>;

/// The compact TOML rendering of a document, or `None` where the document
/// has no TOML form (a root that is not a table, or a null anywhere).
pub uninterp spec fn toml_compact(d: Doc) -> Option<Seq<char>>;

/// The pretty TOML rendering of a document, or `None` where the document
/// has no TOML form.
pub uninterp spec fn toml_pretty(d: Doc) -> Option<Seq<char>>;

/// Relies on serde_json::from_str: deserializes JSON text into a generic
/// value, failing exactly on text that is not well-formed JSON.
#[verifier::external_body]
fn json_from_str(text: &str) -> (r: Result<serde_json::Value, serde_json::Error>)
    ensures
        r is Ok <==> json_doc(text@) is Some,
        r is Ok ==> Some(doc_of(r->Ok_0)) == json_doc(text@),
{
    serde_json::from_str(text)
}

/// Relies on serde_yaml::from_str: deserializes YAML text into a generic
/// value, failing exactly on text it cannot read as YAML.
#[verifier::external_body]
fn yaml_from_str(text: &str) -> (r: Result<serde_json::Value, serde_yaml::Error>)
    ensures
        r is Ok <==> yaml_doc(text@) is Some,
        r is Ok ==> Some(doc_of(r->Ok_0)) == yaml_doc(text@),
{
    serde_yaml::from_str(text)
}

/// Relies on toml::from_str: deserializes TOML text into a generic value,
/// failing exactly on text that is not a well-formed TOML document.
#[verifier::external_body]
fn toml_from_str(text: &str) -> (r: Result<serde_json::Value, toml::de::Error>)
    ensures
        r is Ok <==> toml_doc(text@) is Some,
        r is Ok ==> Some(doc_of(r->Ok_0)) == toml_doc(text@),
{
    toml::from_str(text)
}

/// Relies on serde_json::to_string: renders a generic value as compact
/// JSON; success depends on the value alone.
#[verifier::external_body]
fn json_to_string(v: &serde_json::Value) -> (r: Result<String, serde_json::Error>)
    ensures
        r is Ok <==> json_compact(doc_of(*v)) is Some,
        r is Ok ==> Some(r->Ok_0@) == json_compact(doc_of(*v)),
{
    serde_json::to_string(v)
}

/// Relies on serde_json::to_string_pretty: renders a generic value as
/// indented JSON; success depends on the value alone.
#[verifier::external_body]
fn json_to_string_pretty(v: &serde_json::Value) -> (r: Result<String, serde_json::Error>)
    ensures
        r is Ok <==> json_pretty(doc_of(*v)) is Some,
        r is Ok ==> Some(r->Ok_0@) == json_pretty(doc_of(*v)),
{
    serde_json::to_string_pretty(v)
}

/// Relies on serde_yaml::to_string: renders a generic value as YAML;
/// success depends on the value alone.
#[verifier::external_body]
fn yaml_to_string(v: &serde_json::Value) -> (r: Result<String, serde_yaml::Error>)
    ensures
        r is Ok <==> yaml_out(doc_of(*v)) is Some,
        r is Ok ==> Some(r->Ok_0@) == yaml_out(doc_of(*v)),
{
    serde_yaml::to_string(v)
}

/// Relies on toml::to_string: renders a generic value as compact TOML,
/// failing on values TOML cannot represent; success depends on the value
/// alone.
#[verifier::external_body]
fn toml_to_string(v: &serde_json::Value) -> (r: Result<String, toml::ser::Error>)
    ensures
        r is Ok <==> toml_compact(doc_of(*v)) is Some,
        r is Ok ==> Some(r->Ok_0@) == toml_compact(doc_of(*v)),
{
    toml::to_string(v)
}

/// Relies on toml::to_string_pretty: renders a generic value as pretty
/// TOML, failing on values TOML cannot represent; success depends on the
/// value alone.
#[verifier::external_body]
fn toml_to_string_pretty(v: &serde_json::Value) -> (r: Result<String, toml::ser::Error>)
    ensures
        r is Ok <==> toml_pretty(doc_of(*v)) is Some,
        r is Ok ==> Some(r->Ok_0@) == toml_pretty(doc_of(*v)),
{
    toml::to_string_pretty(v)
}

/// Relies on the Display impl of serde_json::Error for the human-readable
/// description of a JSON failure.
#[verifier::external_body]
fn json_error_message(e: &serde_json::Error) -> String {
    e.to_string()
}

/// Relies on the Display impl of serde_yaml::Error for the human-readable
/// description of a YAML failure.
#[verifier::external_body]
fn yaml_error_message(e: &serde_yaml::Error) -> String {
    e.to_string()
}

/// Relies on the Display impl of toml::de::Error for the human-readable
/// description of a TOML parse failure.
#[verifier::external_body]
fn toml_de_error_message(e: &toml::de::Error) -> String {
    e.to_string()
}

/// Relies on the Display impl of toml::ser::Error for the human-readable
/// description of a TOML serialize failure.
#[verifier::external_body]
fn toml_ser_error_message(e: &toml::ser::Error) -> String {
    e.to_string()
}

/// The document text of the given format parses to.
pub open spec fn parse_spec(f: Format, t: Seq<char>) -> Option<Doc> {
    match f {
        Format::Json => json_doc(t),
        Format::Yaml => yaml_doc(t),
        Format::Toml => toml_doc(t),
    }
}

/// The rendering of a document in the given format. The `pretty` flag picks
/// the indented JSON or TOML variant; YAML has a single rendering, so for it
/// the flag has no effect.
pub open spec fn render_spec(f: Format, d: Doc, pretty: bool) -> Option<Seq<char>> {
    match f {
        Format::Json => if pretty { json_pretty(d) } else { json_compact(d) },
        Format::Yaml => yaml_out(d),
        Format::Toml => if pretty { toml_pretty(d) } else { toml_compact(d) },
    }
}

/// Parses JSON text into the shared generic value. Returns the parsed value
/// exactly when the text is well-formed JSON, and a `ParseError` naming JSON
/// otherwise.
pub fn from_json(text: &str) -> (r: Result<serde_json::Value, ConvertError>)
    ensures
        r is Ok <==> json_doc(text@) is Some,
        r is Ok ==> Some(doc_of(r->Ok_0)) == json_doc(text@),
        r matches Err(e)
            ==> (e matches ConvertError::ParseError { format, .. } && format == Format::Json),
{
    match json_from_str(text) {
        Ok(v) => Ok(v),
        Err(e) => {
            let message = json_error_message(&e);
            Err(ConvertError::ParseError { format: Format::Json, message })
        },
    }
}

/// Parses YAML text into the shared generic value. Returns the parsed value
/// exactly when the library reads the text as YAML, and a `ParseError`
/// naming YAML otherwise.
pub fn from_yaml(text: &str) -> (r: Result<serde_json::Value, ConvertError>)
    ensures
        r is Ok <==> yaml_doc(text@) is Some,
        r is Ok ==> Some(doc_of(r->Ok_0)) == yaml_doc(text@),
        r matches Err(e)
            ==> (e matches ConvertError::ParseError { format, .. } && format == Format::Yaml),
{
    match yaml_from_str(text) {
        Ok(v) => Ok(v),
        Err(e) => {
            let message = yaml_error_message(&e);
            Err(ConvertError::ParseError { format: Format::Yaml, message })
        },
    }
}

/// Parses TOML text into the shared generic value. Returns the parsed value
/// exactly when the text is a well-formed TOML document, and a `ParseError`
/// naming TOML otherwise.
pub fn from_toml(text: &str) -> (r: Result<serde_json::Value, ConvertError>)
    ensures
        r is Ok <==> toml_doc(text@) is Some,
        r is Ok ==> Some(doc_of(r->Ok_0)) == toml_doc(text@),
        r matches Err(e)
            ==> (e matches ConvertError::ParseError { format, .. } && format == Format::Toml),
{
    match toml_from_str(text) {
        Ok(v) => Ok(v),
        Err(e) => {
            let message = toml_de_error_message(&e);
            Err(ConvertError::ParseError { format: Format::Toml, message })
        },
    }
}

/// Renders the shared generic value as JSON, compact or indented as `pretty`
/// asks. A failure is a `SerializeError` naming JSON.
pub fn to_json(v: &serde_json::Value, pretty: bool) -> (r: Result<String, ConvertError>)
    ensures
        r is Ok <==> render_spec(Format::Json, doc_of(*v), pretty) is Some,
        r is Ok ==> Some(r->Ok_0@) == render_spec(Format::Json, doc_of(*v), pretty),
        r matches Err(e)
            ==> (e matches ConvertError::SerializeError { format, .. } && format == Format::Json),
{
    let out = if pretty {
        json_to_string_pretty(v)
    } else {
        json_to_string(v)
    };
    match out {
        Ok(s) => Ok(s),
        Err(e) => {
            let message = json_error_message(&e);
            Err(ConvertError::SerializeError { format: Format::Json, message })
        },
    }
}

/// Renders the shared generic value as TOML, compact or pretty as `pretty`
/// asks. A document TOML cannot represent — a root that is not a table, or
/// a null anywhere — is a `SerializeError` naming TOML.
pub fn to_toml(v: &serde_json::Value, pretty: bool) -> (r: Result<String, ConvertError>)
    ensures
        r is Ok <==> render_spec(Format::Toml, doc_of(*v), pretty) is Some,
        r is Ok ==> Some(r->Ok_0@) == render_spec(Format::Toml, doc_of(*v), pretty),
        r matches Err(e)
            ==> (e matches ConvertError::SerializeError { format, .. } && format == Format::Toml),
{
    let out = if pretty {
        toml_to_string_pretty(v)
    } else {
        toml_to_string(v)
    };
    match out {
        Ok(s) => Ok(s),
        Err(e) => {
            let message = toml_ser_error_message(&e);
            Err(ConvertError::SerializeError { format: Format::Toml, message })
        },
    }
}

/// Renders the shared generic value as YAML. YAML output is inherently
/// indented, so the `pretty` flag is deliberately without effect: the
/// contract pins the result to the one YAML rendering either way. A failure
/// is a `SerializeError` naming YAML.
pub fn to_yaml(v: &serde_json::Value, _pretty: bool) -> (r: Result<String, ConvertError>)
    ensures
        r is Ok <==> yaml_out(doc_of(*v)) is Some,
        r is Ok ==> Some(r->Ok_0@) == yaml_out(doc_of(*v)),
        r matches Err(e)
            ==> (e matches ConvertError::SerializeError { format, .. } && format == Format::Yaml),
{
    match yaml_to_string(v) {
        Ok(s) => Ok(s),
        Err(e) => {
            let message = yaml_error_message(&e);
            Err(ConvertError::SerializeError { format: Format::Yaml, message })
        },
    }
}

} // verus!
