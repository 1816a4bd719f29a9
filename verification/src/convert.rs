//! The conversion pipeline: parse in one format, render in another.

use vstd::prelude::*;
use crate::codec::{
    from_json, from_toml, from_yaml, parse_spec, render_spec, to_json, to_toml, to_yaml,
};
use crate::format::{
    is_source_tag, name_view, resolve_source, resolve_target, source_format, target_format,
    ConvertError, Format,
};
use crate::model::Doc;

verus! {

/// The text a conversion produces: the document the source-format text
/// parses to, rendered in the target format. `None` where the text does not
/// parse or the document has no rendering in the target.
pub open spec fn convert_spec(t: Seq<char>, from: Format, to: Format, pretty: bool) -> Option<
    Seq<char>,
> {
    match parse_spec(from, t) {
        Some(d) => render_spec(to, d, pretty),
        None => None,
    }
}

/// Converts a document from one format to another: parses `content` as
/// `from`, renders the parsed document as `to`. A conversion with
/// `from == to` is not short-circuited — it still parses and re-renders,
/// which makes it a validator and normalizer for that format. Errors keep
/// the two failure points apart: text that does not parse is a `ParseError`
/// naming the source format, and a document the target cannot represent is
/// a `SerializeError` naming the target format.
pub fn convert(content: &str, from: &Format, to: &Format, pretty: bool) -> (r: Result<
    String,
    ConvertError,
>)
    ensures
        r is Ok <==> convert_spec(content@, *from, *to, pretty) is Some,
        r is Ok ==> Some(r->Ok_0@) == convert_spec(content@, *from, *to, pretty),
        r matches Err(e) ==> (parse_spec(*from, content@) is None && (e
            matches ConvertError::ParseError { format, .. } && format == *from)) || (parse_spec(
            *from,
            content@,
        ) is Some && (e matches ConvertError::SerializeError { format, .. } && format == *to)),
{
    let value = match from {
        Format::Json => from_json(content),
        Format::Yaml => from_yaml(content),
        Format::Toml => from_toml(content),
    };
    match value {
        Ok(v) => match to {
            Format::Json => to_json(&v, pretty),
            Format::Yaml => to_yaml(&v, pretty),
            Format::Toml => to_toml(&v, pretty),
        },
        Err(e) => Err(e),
    }
}

/// Resolves both format tags, then converts. The tags are resolved — and an
/// unusable tag rejected — before any text is looked at: with a bad source
/// or target tag the result is the resolver's error whatever `content`
/// holds. With both tags resolved the result is `convert`'s.
pub fn convert_tagged(
    content: &str,
    from_tag: &str,
    to_tag: &str,
    filename: Option<&str>,
    pretty: bool,
) -> (r: Result<String, ConvertError>)
    ensures
        !is_source_tag(from_tag@)
            ==> (r matches Err(ConvertError::UnsupportedFormat(t)) && t@ == from_tag@),
        is_source_tag(from_tag@) && source_format(from_tag@, name_view(filename)) is None
            ==> r == Err::<String, ConvertError>(ConvertError::FormatRequired),
        source_format(from_tag@, name_view(filename)) is Some && target_format(to_tag@) is None
            ==> (r matches Err(ConvertError::UnsupportedFormat(t)) && t@ == to_tag@),
        (source_format(from_tag@, name_view(filename)), target_format(to_tag@)) matches (
            Some(from),
            Some(to),
        ) ==> {
            &&& r is Ok <==> convert_spec(content@, from, to, pretty) is Some
            &&& r is Ok ==> Some(r->Ok_0@) == convert_spec(content@, from, to, pretty)
            &&& r matches Err(e) ==> (parse_spec(from, content@) is None && (e
                matches ConvertError::ParseError { format, .. } && format == from)) || (parse_spec(
                from,
                content@,
            ) is Some && (e matches ConvertError::SerializeError { format, .. } && format == to))
        },
{
    let from = match resolve_source(from_tag, filename) {
        Ok(f) => f,
        Err(e) => {
            return Err(e);
        },
    };
    let to = match resolve_target(to_tag) {
        Ok(f) => f,
        Err(e) => {
            return Err(e);
        },
    };
    convert(content, &from, &to, pretty)
}

/// A format round-trips a document: the document has a rendering there, and
/// that rendering parses back to the very same document. This is the
/// round-trip law, stated of one document, one format and one `pretty`
/// mode; it is the exact sense in which a document is "representable" in a
/// format.
pub open spec fn round_trips(f: Format, d: Doc, pretty: bool) -> bool {
    &&& render_spec(f, d, pretty) is Some
    &&& parse_spec(f, render_spec(f, d, pretty)->0) == Some(d)
}

/// Pretty-printing is purely cosmetic: where a format round-trips a
/// document in both rendering modes, parsing the pretty rendering and
/// parsing the compact rendering give the same document back.
pub proof fn lemma_pretty_invariance(f: Format, d: Doc)
    ensures
        round_trips(f, d, true) && round_trips(f, d, false) ==> parse_spec(
            f,
            render_spec(f, d, true)->0,
        ) == parse_spec(f, render_spec(f, d, false)->0),
{
}

/// For YAML output the `pretty` flag is a no-op: a conversion into YAML
/// produces the same text whatever the flag says.
pub proof fn lemma_yaml_pretty_noop(t: Seq<char>, from: Format, p1: bool, p2: bool)
    ensures
        convert_spec(t, from, Format::Yaml, p1) == convert_spec(t, from, Format::Yaml, p2),
{
}

/// Converting a format to itself normalizes: where the text parses and the
/// format round-trips the parsed document, the conversion succeeds, and
/// converting its output the same way reproduces that output exactly —
/// normalizing twice is normalizing once.
pub proof fn lemma_normalize_idempotent(t: Seq<char>, f: Format, pretty: bool)
    ensures
        parse_spec(f, t) matches Some(d) && round_trips(f, d, pretty) ==> {
            &&& convert_spec(t, f, f, pretty) is Some
            &&& convert_spec(convert_spec(t, f, f, pretty)->0, f, f, pretty) == convert_spec(
                t,
                f,
                f,
                pretty,
            )
        },
{
}

/// Converting across a format and back is consistent: where the text parses
/// in format `a` and format `b` round-trips the parsed document, converting
/// `a` to `b` and the result `b` to `a` lands on the same text as
/// converting `a` to `a` directly — the detour through `b` loses nothing.
/// Where `a` round-trips the document too, the final text still parses to
/// the original document.
pub proof fn lemma_cross_format(t: Seq<char>, a: Format, b: Format, pretty: bool)
    ensures
        parse_spec(a, t) matches Some(d) && round_trips(b, d, pretty) ==> {
            &&& convert_spec(t, a, b, pretty) is Some
            &&& convert_spec(convert_spec(t, a, b, pretty)->0, b, a, pretty) == convert_spec(
                t,
                a,
                a,
                pretty,
            )
        },
        parse_spec(a, t) matches Some(d) && round_trips(b, d, pretty) && round_trips(
            a,
            d,
            pretty,
        ) ==> parse_spec(a, convert_spec(convert_spec(t, a, b, pretty)->0, b, a, pretty)->0)
            == parse_spec(a, t),
{
}

} // verus!
