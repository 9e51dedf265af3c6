//! The calls this crate makes into `base64` and `serde_yaml`, with the
//! contracts that the rest of the crate is proved against.
//!
//! Nothing in this file is proved: each item states what the outside crate's
//! source shows of the function it wraps.
use vstd::prelude::*;

verus! {

/// `serde_yaml::Value`, a parsed YAML node.
#[verifier::external_type_specification]
#[verifier::external_body]
pub struct ExYamlValue(serde_yaml::Value);

/// `serde_yaml::Mapping`, the map held by a YAML mapping node.
#[verifier::external_type_specification]
#[verifier::external_body]
pub struct ExYamlMapping(serde_yaml::Mapping);

/// What base64's `STANDARD` engine (standard alphabet, canonical padding
/// required) makes of the text: the decoded bytes, or the text that the
/// `DecodeError` it reports displays.
pub uninterp spec fn base64_standard_decode(text: Seq<char>) -> Result<Seq<u8>, Seq<char>>;

/// What `serde_yaml::from_slice::<Value>` makes of the bytes: what the parsed
/// value holds, in the terms of `yaml_value_mapping_keys`, or the text that
/// the `serde_yaml::Error` it reports displays.
pub uninterp spec fn yaml_parse(bytes: Seq<u8>) -> Result<Option<Set<Seq<char>>>, Seq<char>>;

/// What a YAML value holds, as far as this crate reads it: `None` where the
/// value, once its tags are looked through, is not a mapping; otherwise the
/// string keys of that mapping.
pub uninterp spec fn yaml_value_mapping_keys(value: serde_yaml::Value) -> Option<Set<Seq<char>>>;

/// The keys of a YAML mapping that are plain (untagged) strings.
pub uninterp spec fn yaml_mapping_string_keys(mapping: serde_yaml::Mapping) -> Set<Seq<char>>;

/// Calls `Engine::decode` of `base64::engine::general_purpose::STANDARD` on the
/// text's bytes, and turns a `DecodeError` into the text its `Display` impl
/// writes. Both are functions of the text alone, named by
/// `base64_standard_decode`.
#[verifier::external_body]
pub(crate) fn decode_base64_standard(text: &str) -> (res: Result<Vec<u8>, String>)
    ensures
        match res {
            Ok(bytes) => base64_standard_decode(text@) == Ok::<Seq<u8>, Seq<char>>(bytes@),
            Err(detail) => base64_standard_decode(text@) == Err::<Seq<u8>, Seq<char>>(detail@),
        },
{
    match base64::Engine::decode(&base64::engine::general_purpose::STANDARD, text) {
        Ok(bytes) => Ok(bytes),
        Err(err) => Err(err.to_string()),
    }
}

/// Calls `serde_yaml::from_slice::<serde_yaml::Value>`, and turns a
/// `serde_yaml::Error` into the text its `Display` impl writes. Both are
/// functions of the bytes alone, named by `yaml_parse`.
#[verifier::external_body]
pub(crate) fn parse_yaml_value(bytes: &[u8]) -> (res: Result<serde_yaml::Value, String>)
    ensures
        match res {
            Ok(value) => yaml_parse(bytes@) == Ok::<Option<Set<Seq<char>>>, Seq<char>>(
                yaml_value_mapping_keys(value),
            ),
            Err(detail) => yaml_parse(bytes@) == Err::<Option<Set<Seq<char>>>, Seq<char>>(detail@),
        },
{
    match serde_yaml::from_slice::<serde_yaml::Value>(bytes) {
        Ok(value) => Ok(value),
        Err(err) => Err(err.to_string()),
    }
}

/// Calls `serde_yaml::Value::as_mapping`, which looks through tags and returns
/// the mapping if the value is one.
#[verifier::external_body]
pub(crate) fn yaml_value_as_mapping(value: &serde_yaml::Value) -> (res: Option<&serde_yaml::Mapping>)
    ensures
        match res {
            Some(mapping) => yaml_value_mapping_keys(*value) == Some(
                yaml_mapping_string_keys(*mapping),
            ),
            None => yaml_value_mapping_keys(*value) is None,
        },
{
    value.as_mapping()
}

/// Calls `serde_yaml::Mapping::contains_key` with the key
/// `serde_yaml::Value::String(key)`: true exactly where that string is one of
/// the mapping's string keys.
#[verifier::external_body]
pub(crate) fn yaml_mapping_has_string_key(mapping: &serde_yaml::Mapping, key: &str) -> (res: bool)
    ensures
        res == yaml_mapping_string_keys(*mapping).contains(key@),
{
    mapping.contains_key(&serde_yaml::Value::String(key.to_string()))
}

} // verus!
