use vstd::prelude::*;

verus! {

// The generic value tree that every conversion pivots through. The
// pipeline never looks inside a value: it is produced by one of the
// parsers and consumed by one of the serializers.
#[verifier::external_type_specification]
#[verifier::external_body]
pub struct ExValue(serde_json::Value);

/// The value that strict JSON parsing gives for a text, if the text is
/// well-formed JSON; the result depends on the text alone.
pub uninterp spec fn json_value_of(s: Seq<char>) -> Option<serde_json::Value>;

/// The value that strict TOML parsing gives for a text, if the text is a
/// well-formed TOML document; the result depends on the text alone.
pub uninterp spec fn toml_value_of(s: Seq<char>) -> Option<serde_json::Value>;

/// The value that strict single-document YAML parsing gives for a text,
/// if the text is well-formed YAML; the result depends on the text alone.
pub uninterp spec fn yaml_value_of(s: Seq<char>) -> Option<serde_json::Value>;

/// The pretty-printed JSON text of a value, if it can be serialized;
/// the result depends on the value alone.
pub uninterp spec fn json_pretty_of(v: serde_json::Value) -> Option<Seq<char>>;

/// The pretty-printed TOML text of a value, if it can be represented as a
/// TOML document; the result depends on the value alone.
pub uninterp spec fn toml_pretty_of(v: serde_json::Value) -> Option<Seq<char>>;

/// The YAML text of a value, if it can be serialized; the result depends
/// on the value alone.
pub uninterp spec fn yaml_text_of(v: serde_json::Value) -> Option<Seq<char>>;

/// Relies on `serde_json::from_str::<serde_json::Value>`: strict JSON
/// parsing into the generic value tree, deterministic in the input text.
/// On failure, the rendered syntax error is returned.
#[verifier::external_body]
pub(crate) fn parse_json(s: &str) -> (r: Result<serde_json::Value, String>)
    ensures
        r is Ok <==> json_value_of(s@) is Some,
        r is Ok ==> Some(r->Ok_0) == json_value_of(s@),
{
    serde_json::from_str::<serde_json::Value>(s).map_err(|e| e.to_string())
}

/// Relies on `toml::from_str::<serde_json::Value>`: strict TOML parsing
/// into the generic value tree, deterministic in the input text.
/// On failure, the rendered syntax error is returned.
#[verifier::external_body]
pub(crate) fn parse_toml(s: &str) -> (r: Result<serde_json::Value, String>)
    ensures
        r is Ok <==> toml_value_of(s@) is Some,
        r is Ok ==> Some(r->Ok_0) == toml_value_of(s@),
{
    toml::from_str::<serde_json::Value>(s).map_err(|e| e.to_string())
}

/// Relies on `serde_yaml::from_str::<serde_json::Value>`: strict
/// single-document YAML parsing into the generic value tree,
/// deterministic in the input text.
/// On failure, the rendered syntax error is returned.
#[verifier::external_body]
pub(crate) fn parse_yaml(s: &str) -> (r: Result<serde_json::Value, String>)
    ensures
        r is Ok <==> yaml_value_of(s@) is Some,
        r is Ok ==> Some(r->Ok_0) == yaml_value_of(s@),
{
    serde_yaml::from_str::<serde_json::Value>(s).map_err(|e| e.to_string())
}

/// Relies on `serde_json::to_string_pretty`: pretty-printed, multi-line,
/// indented JSON text of a value, deterministic in the value.
/// On failure, the rendered serializer error is returned.
#[verifier::external_body]
pub(crate) fn emit_json(v: &serde_json::Value) -> (r: Result<String, String>)
    ensures
        r is Ok <==> json_pretty_of(*v) is Some,
        r is Ok ==> Some(r->Ok_0@) == json_pretty_of(*v),
{
    serde_json::to_string_pretty(v).map_err(|e| e.to_string())
}

/// Relies on `toml::to_string_pretty`: pretty-printed TOML text of a
/// value, deterministic in the value; it fails for a value that is no
/// TOML document, such as a bare scalar at the root.
/// On failure, the rendered serializer error is returned.
#[verifier::external_body]
pub(crate) fn emit_toml(v: &serde_json::Value) -> (r: Result<String, String>)
    ensures
        r is Ok <==> toml_pretty_of(*v) is Some,
        r is Ok ==> Some(r->Ok_0@) == toml_pretty_of(*v),
{
    toml::to_string_pretty(v).map_err(|e| e.to_string())
}

/// Relies on `serde_yaml::to_string`: block-style YAML text of a value,
/// deterministic in the value.
/// On failure, the rendered serializer error is returned.
#[verifier::external_body]
pub(crate) fn emit_yaml(v: &serde_json::Value) -> (r: Result<String, String>)
    ensures
        r is Ok <==> yaml_text_of(*v) is Some,
        r is Ok ==> Some(r->Ok_0@) == yaml_text_of(*v),
{
    serde_yaml::to_string(v).map_err(|e| e.to_string())
}

} // verus!
