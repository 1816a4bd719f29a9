use tojson::convert::convert;
use tojson::format::ConvertError;
use tojson::format::Format;

// One document, written in each of the three encodings. Every pair test
// parses it from one format and checks the exact text the converter renders
// in the other, in compact and in pretty mode.

#[test]
fn test_json_json() {
    let input = "{\"title\":\"demo\",\"owner\":{\"name\":\"x\"}}";
    let out = convert(input, &Format::Json, &Format::Json, false).unwrap();
    assert_eq!(out, "{\"title\":\"demo\",\"owner\":{\"name\":\"x\"}}");
    let pretty = convert(input, &Format::Json, &Format::Json, true).unwrap();
    assert_eq!(
        pretty,
        "{\n  \"title\": \"demo\",\n  \"owner\": {\n    \"name\": \"x\"\n  }\n}"
    );
}

#[test]
fn test_json_yaml() {
    let input = "{\"title\":\"demo\",\"owner\":{\"name\":\"x\"}}";
    let out = convert(input, &Format::Json, &Format::Yaml, false).unwrap();
    assert_eq!(out, "title: demo\nowner:\n  name: x\n");
    let pretty = convert(input, &Format::Json, &Format::Yaml, true).unwrap();
    assert_eq!(pretty, "title: demo\nowner:\n  name: x\n");
}

#[test]
fn test_json_toml() {
    let input = "{\"title\":\"demo\",\"owner\":{\"name\":\"x\"}}";
    let out = convert(input, &Format::Json, &Format::Toml, false).unwrap();
    assert_eq!(out, "title = \"demo\"\n\n[owner]\nname = \"x\"\n");
    let pretty = convert(input, &Format::Json, &Format::Toml, true).unwrap();
    assert_eq!(pretty, "title = \"demo\"\n\n[owner]\nname = \"x\"\n");
}

#[test]
fn test_toml_json() {
    let input = "title = \"demo\"\n\n[owner]\nname = \"x\"\n";
    let out = convert(input, &Format::Toml, &Format::Json, false).unwrap();
    assert_eq!(out, "{\"title\":\"demo\",\"owner\":{\"name\":\"x\"}}");
    let pretty = convert(input, &Format::Toml, &Format::Json, true).unwrap();
    assert_eq!(
        pretty,
        "{\n  \"title\": \"demo\",\n  \"owner\": {\n    \"name\": \"x\"\n  }\n}"
    );
}

#[test]
fn test_toml_yaml() {
    let input = "title = \"demo\"\n\n[owner]\nname = \"x\"\n";
    let out = convert(input, &Format::Toml, &Format::Yaml, false).unwrap();
    assert_eq!(out, "title: demo\nowner:\n  name: x\n");
    let pretty = convert(input, &Format::Toml, &Format::Yaml, true).unwrap();
    assert_eq!(pretty, "title: demo\nowner:\n  name: x\n");
}

#[test]
fn test_toml_toml() {
    let input = "title = \"demo\"\n\n[owner]\nname = \"x\"\n";
    let out = convert(input, &Format::Toml, &Format::Toml, false).unwrap();
    assert_eq!(out, "title = \"demo\"\n\n[owner]\nname = \"x\"\n");
    let pretty = convert(input, &Format::Toml, &Format::Toml, true).unwrap();
    assert_eq!(pretty, "title = \"demo\"\n\n[owner]\nname = \"x\"\n");
}

#[test]
fn test_yaml_json() {
    let input = "title: demo\nowner:\n  name: x\n";
    let out = convert(input, &Format::Yaml, &Format::Json, false).unwrap();
    assert_eq!(out, "{\"title\":\"demo\",\"owner\":{\"name\":\"x\"}}");
    let pretty = convert(input, &Format::Yaml, &Format::Json, true).unwrap();
    assert_eq!(
        pretty,
        "{\n  \"title\": \"demo\",\n  \"owner\": {\n    \"name\": \"x\"\n  }\n}"
    );
}

#[test]
fn test_yaml_yaml() {
    let input = "title: demo\nowner:\n  name: x\n";
    let out = convert(input, &Format::Yaml, &Format::Yaml, false).unwrap();
    assert_eq!(out, "title: demo\nowner:\n  name: x\n");
    let pretty = convert(input, &Format::Yaml, &Format::Yaml, true).unwrap();
    assert_eq!(pretty, "title: demo\nowner:\n  name: x\n");
}

#[test]
fn test_yaml_toml() {
    let input = "title: demo\nowner:\n  name: x\n";
    let out = convert(input, &Format::Yaml, &Format::Toml, false).unwrap();
    assert_eq!(out, "title = \"demo\"\n\n[owner]\nname = \"x\"\n");
    let pretty = convert(input, &Format::Yaml, &Format::Toml, true).unwrap();
    assert_eq!(pretty, "title = \"demo\"\n\n[owner]\nname = \"x\"\n");
}

// Round-trip checks: re-parsing what a serializer produced gives the same
// document back, observed through a second conversion.

#[test]
fn round_trip_json_scalars() {
    let input = "{\"i\":3,\"f\":1.5,\"b\":true,\"n\":null,\"s\":\"hi\",\"a\":[1,2]}";
    let once = convert(input, &Format::Json, &Format::Json, false).unwrap();
    let twice = convert(&once, &Format::Json, &Format::Json, false).unwrap();
    assert_eq!(once, twice);
    assert_eq!(once, input);
}

#[test]
fn round_trip_yaml_normalizes_idempotently() {
    let input = "title: demo\ncount: 3\nlist:\n- 1\n- 2\n";
    let once = convert(input, &Format::Yaml, &Format::Yaml, false).unwrap();
    let twice = convert(&once, &Format::Yaml, &Format::Yaml, false).unwrap();
    assert_eq!(once, twice);
}

#[test]
fn round_trip_toml_normalizes_idempotently() {
    let input = "title = \"demo\"\ncount = 3\nlist = [1, 2]\n";
    let once = convert(input, &Format::Toml, &Format::Toml, false).unwrap();
    let twice = convert(&once, &Format::Toml, &Format::Toml, false).unwrap();
    assert_eq!(once, twice);
}

// Pretty invariance: parsing the pretty rendering and parsing the compact
// rendering give the same document, observed through a compact re-rendering.

#[test]
fn pretty_rendering_parses_to_same_document() {
    let input = "{\"title\":\"demo\",\"owner\":{\"name\":\"x\"},\"a\":[1,2]}";
    let compact = convert(input, &Format::Json, &Format::Json, false).unwrap();
    let pretty = convert(input, &Format::Json, &Format::Json, true).unwrap();
    assert_ne!(compact, pretty);
    let back = convert(&pretty, &Format::Json, &Format::Json, false).unwrap();
    assert_eq!(back, compact);
}

#[test]
fn pretty_toml_differs_on_arrays_but_keeps_the_document() {
    let input = "{\"a\":[1,2]}";
    let compact = convert(input, &Format::Json, &Format::Toml, false).unwrap();
    assert_eq!(compact, "a = [1, 2]\n");
    let pretty = convert(input, &Format::Json, &Format::Toml, true).unwrap();
    assert_ne!(compact, pretty);
    let back = convert(&pretty, &Format::Toml, &Format::Json, false).unwrap();
    assert_eq!(back, input);
}

// Cross-format consistency: a chain through all three formats comes back to
// the original JSON text.

#[test]
fn cross_format_chain_preserves_document() {
    let input = "{\"title\":\"demo\",\"owner\":{\"name\":\"x\"}}";
    let as_yaml = convert(input, &Format::Json, &Format::Yaml, false).unwrap();
    let as_toml = convert(&as_yaml, &Format::Yaml, &Format::Toml, false).unwrap();
    let back = convert(&as_toml, &Format::Toml, &Format::Json, false).unwrap();
    assert_eq!(back, input);
}

// Empty input: TOML's grammar permits an empty document (an empty table);
// YAML reads it as null; JSON rejects it.

#[test]
fn empty_toml_is_empty_table() {
    let out = convert("", &Format::Toml, &Format::Json, false).unwrap();
    assert_eq!(out, "{}");
}

#[test]
fn empty_yaml_is_null() {
    let out = convert("", &Format::Yaml, &Format::Json, false).unwrap();
    assert_eq!(out, "null");
}

#[test]
fn empty_json_is_rejected() {
    let r = convert("", &Format::Json, &Format::Json, false);
    assert!(matches!(
        r,
        Err(ConvertError::ParseError { format: Format::Json, .. })
    ));
}
