//! The `kubelet-extra-config` setting: a base64 text that must decode to a
//! YAML mapping that sets none of the blocked KubeletConfiguration keys.
use crate::blocked_keys::{
    check_blocked_keys, first_blocked_key, lemma_blocked_exactly_the_managed_fields,
    managed_kubelet_fields,
};
use crate::error::KubernetesSettingsError;
use crate::outside::{
    base64_standard_decode, decode_base64_standard, parse_yaml_value, yaml_parse,
    yaml_value_as_mapping, yaml_value_mapping_keys,
};
use vstd::prelude::*;

verus! {

/// What the validation of a `kubelet-extra-config` text concludes.
pub enum ExtraConfigCheck {
    /// The text is a valid extra config.
    Accepted,
    /// The text is not valid standard base64; what base64's error displays.
    NotBase64(Seq<char>),
    /// The decoded bytes are not valid YAML; what serde_yaml's error displays.
    NotYaml(Seq<char>),
    /// The YAML document is not a mapping.
    NotAMapping,
    /// The mapping sets a blocked key: the key and the reason it is blocked.
    BlockedKey(Seq<char>, Seq<char>),
}

/// The conclusion for a YAML mapping with the given string keys.
pub open spec fn mapping_check(keys: Set<Seq<char>>) -> ExtraConfigCheck {
    match first_blocked_key(keys) {
        Some(entry) => ExtraConfigCheck::BlockedKey(entry.0, entry.1),
        None => ExtraConfigCheck::Accepted,
    }
}

/// The conclusion for a parsed YAML document, given what it holds
/// (`None` for a document that is not a mapping).
pub open spec fn document_check(document: Option<Set<Seq<char>>>) -> ExtraConfigCheck {
    match document {
        Some(keys) => mapping_check(keys),
        None => ExtraConfigCheck::NotAMapping,
    }
}

/// The conclusion for the bytes that the base64 text decodes to.
pub open spec fn decoded_check(bytes: Seq<u8>) -> ExtraConfigCheck {
    match yaml_parse(bytes) {
        Ok(document) => document_check(document),
        Err(detail) => ExtraConfigCheck::NotYaml(detail),
    }
}

/// The conclusion for a `kubelet-extra-config` text.
pub open spec fn extra_config_check(text: Seq<char>) -> ExtraConfigCheck {
    match base64_standard_decode(text) {
        Ok(bytes) => decoded_check(bytes),
        Err(detail) => ExtraConfigCheck::NotBase64(detail),
    }
}

/// `res` is what a validation that concludes `check` returns: success for an
/// accepted text, otherwise the error of the matching kind, carrying the
/// outside crate's description or the blocked key and its reason.
pub open spec fn reports<T>(res: Result<T, KubernetesSettingsError>, check: ExtraConfigCheck) -> bool {
    match check {
        ExtraConfigCheck::Accepted => res is Ok,
        ExtraConfigCheck::NotBase64(detail) => res matches Err(
            KubernetesSettingsError::Base64Decode(e),
        ) && e@ == detail,
        ExtraConfigCheck::NotYaml(detail) => res matches Err(KubernetesSettingsError::YamlParse(e))
            && e@ == detail,
        ExtraConfigCheck::NotAMapping => res matches Err(KubernetesSettingsError::NotAMapping),
        ExtraConfigCheck::BlockedKey(k, r) => res matches Err(
            KubernetesSettingsError::BlockedKey { key, reason },
        ) && key@ == k && reason@ == r,
    }
}

/// Checks a parsed YAML document: it must be a mapping without blocked keys.
pub fn check_yaml_document(document: &serde_yaml::Value) -> (res: Result<(), KubernetesSettingsError>)
    ensures
        reports(res, document_check(yaml_value_mapping_keys(*document))),
{
    match yaml_value_as_mapping(document) {
        Some(mapping) => check_blocked_keys(mapping),
        None => Err(KubernetesSettingsError::NotAMapping),
    }
}

/// Checks the bytes that a base64 text decoded to: they must parse as a YAML
/// mapping without blocked keys.
pub fn check_decoded_yaml(bytes: &[u8]) -> (res: Result<(), KubernetesSettingsError>)
    ensures
        reports(res, decoded_check(bytes@)),
{
    match parse_yaml_value(bytes) {
        Ok(document) => check_yaml_document(&document),
        Err(detail) => Err(KubernetesSettingsError::YamlParse(detail)),
    }
}

/// A validated kubelet extra config value. Stores the original base64 string.
/// Validates at construction time that the value is valid base64, decodes to valid YAML,
/// is a YAML mapping, and contains no blocked KubeletConfiguration keys.
#[derive(Debug, Eq, PartialEq, Hash)]
pub struct ValidKubeletExtraConfig {
    inner: String,
}

impl View for ValidKubeletExtraConfig {
    type V = Seq<char>;

    /// The stored base64 text.
    closed spec fn view(&self) -> Seq<char> {
        self.inner@
    }
}

impl Clone for ValidKubeletExtraConfig {
    /// A copy that holds the same text.
    fn clone(&self) -> (copy: Self)
        ensures
            copy@ == self@,
    {
        proof {
            use_type_invariant(self);
        }
        ValidKubeletExtraConfig { inner: self.inner.clone() }
    }
}

impl ValidKubeletExtraConfig {
    /// Every value holds a text that validation accepts.
    #[verifier::type_invariant]
    pub closed spec fn wf(self) -> bool {
        extra_config_check(self.inner@) == ExtraConfigCheck::Accepted
    }

    /// Validates `input` and, if it is accepted, stores it unchanged.
    pub fn validate(input: &str) -> (res: Result<Self, KubernetesSettingsError>)
        ensures
            reports(res, extra_config_check(input@)),
            res matches Ok(config) ==> config@ == input@,
    {
        match decode_base64_standard(input) {
            Ok(decoded) => {
                match check_decoded_yaml(decoded.as_slice()) {
                    Ok(()) => Ok(ValidKubeletExtraConfig { inner: String::from_str(input) }),
                    Err(err) => Err(err),
                }
            },
            Err(detail) => Err(KubernetesSettingsError::Base64Decode(detail)),
        }
    }

    /// The stored base64 text.
    pub fn as_str(&self) -> (text: &str)
        ensures
            text@ == self@,
            extra_config_check(text@) == ExtraConfigCheck::Accepted,
    {
        proof {
            use_type_invariant(self);
        }
        self.inner.as_str()
    }

    /// The stored base64 text, as an owned string.
    pub fn to_string(&self) -> (text: String)
        ensures
            text@ == self@,
    {
        self.inner.clone()
    }
}

/// The message with which `try_from` answers an input that validation
/// concludes `check` for: for text that is not base64 or not YAML it ends in
/// the outside crate's own description of the problem.
pub open spec fn rejection_message(check: ExtraConfigCheck) -> Seq<char> {
    match check {
        ExtraConfigCheck::Accepted => Seq::empty(),
        ExtraConfigCheck::NotBase64(detail) => "Failed to decode kubelet-extra-config: "@ + detail,
        ExtraConfigCheck::NotYaml(detail) => "Failed to parse kubelet-extra-config YAML: "@ + detail,
        ExtraConfigCheck::NotAMapping =>
            "kubelet-extra-config must be a YAML mapping, not an array or scalar"@,
        ExtraConfigCheck::BlockedKey(key, reason) =>
            "kubelet-extra-config contains blocked key '"@ + key + "': "@ + reason,
    }
}

/// The answer that `try_from` gives for `input`: the stored text, unchanged,
/// exactly when validation accepts it, otherwise a message that says why not.
pub open spec fn answers_try_from(input: Seq<char>, res: Result<ValidKubeletExtraConfig, String>) -> bool {
    &&& res is Ok <==> extra_config_check(input) == ExtraConfigCheck::Accepted
    &&& res matches Ok(config) ==> config@ == input
    &&& res matches Err(message) ==> message@ == rejection_message(extra_config_check(input))
}

/// A text is accepted exactly when it is valid standard base64, the bytes it
/// decodes to parse as YAML, the document is a mapping, and none of the
/// managed KubeletConfiguration fields is among the mapping's string keys;
/// a mapping that sets only other fields is accepted.
pub proof fn lemma_accepted_iff_valid(text: Seq<char>)
    ensures
        extra_config_check(text) == ExtraConfigCheck::Accepted <==> {
            &&& base64_standard_decode(text) matches Ok(bytes)
            &&& yaml_parse(bytes) matches Ok(Some(keys))
            &&& forall|i: int|
                0 <= i < managed_kubelet_fields().len() ==> !keys.contains(
                    #[trigger] managed_kubelet_fields()[i].0,
                )
        },
{
    if let Ok(bytes) = base64_standard_decode(text) {
        if let Ok(Some(keys)) = yaml_parse(bytes) {
            lemma_blocked_exactly_the_managed_fields(keys);
        }
    }
}

/// A text refused for a blocked key is refused for a managed
/// KubeletConfiguration field that its mapping sets, reported with that
/// field's reason, and no managed field listed earlier is set.
pub proof fn lemma_blocked_rejection_names_a_managed_field(text: Seq<char>)
    ensures
        extra_config_check(text) matches ExtraConfigCheck::BlockedKey(key, reason) ==> {
            &&& base64_standard_decode(text) matches Ok(bytes)
            &&& yaml_parse(bytes) matches Ok(Some(keys))
            &&& keys.contains(key)
            &&& exists|i: int|
                {
                    &&& 0 <= i < managed_kubelet_fields().len()
                    &&& #[trigger] managed_kubelet_fields()[i] == (key, reason)
                    &&& forall|j: int|
                        0 <= j < i ==> !keys.contains(#[trigger] managed_kubelet_fields()[j].0)
                }
        },
{
    if let Ok(bytes) = base64_standard_decode(text) {
        if let Ok(Some(keys)) = yaml_parse(bytes) {
            lemma_blocked_exactly_the_managed_fields(keys);
        }
    }
}

impl ValidKubeletExtraConfig {
    /// The text that a value holds validates again to the same value: any
    /// answer that `try_from` gives for it is a success that stores that text.
    pub proof fn lemma_stored_text_revalidates(self, res: Result<ValidKubeletExtraConfig, String>)
        requires
            self.wf(),
            answers_try_from(self@, res),
        ensures
            res matches Ok(again) && again@ == self@,
    {
    }
}

impl<'a> vstd::std_specs::convert::TryFromSpecImpl<&'a str> for ValidKubeletExtraConfig {
    /// `try_from` is stated by the relation `answers_try_from` in its own
    /// `ensures`, not as equal to this function: a spec function can fix a
    /// `String` only by its text, so equality with one chosen value of that
    /// text could not be proved.
    open spec fn obeys_try_from_spec() -> bool {
        false
    }

    open spec fn try_from_spec(input: &'a str) -> Result<Self, String> {
        choose|res: Result<Self, String>| answers_try_from(input@, res)
    }
}

impl<'a> TryFrom<&'a str> for ValidKubeletExtraConfig {
    type Error = String;

    /// Validates `input`; a rejected input is answered with the message of
    /// the error that `validate` reports.
    fn try_from(input: &'a str) -> (res: Result<Self, String>)
        ensures
            answers_try_from(input@, res),
    {
        match ValidKubeletExtraConfig::validate(input) {
            Ok(config) => Ok(config),
            Err(err) => Err(err.message()),
        }
    }
}

impl vstd::std_specs::convert::TryFromSpecImpl<String> for ValidKubeletExtraConfig {
    /// As for `&str`: the contract is the relation `answers_try_from`.
    open spec fn obeys_try_from_spec() -> bool {
        false
    }

    open spec fn try_from_spec(input: String) -> Result<Self, String> {
        choose|res: Result<Self, String>| answers_try_from(input@, res)
    }
}

impl TryFrom<String> for ValidKubeletExtraConfig {
    type Error = String;

    /// Validates `input` as `try_from` on its text does.
    fn try_from(input: String) -> (res: Result<Self, String>)
        ensures
            answers_try_from(input@, res),
    {
        ValidKubeletExtraConfig::try_from(input.as_str())
    }
}

impl vstd::std_specs::convert::FromSpecImpl<ValidKubeletExtraConfig> for String {
    open spec fn obeys_from_spec() -> bool {
        true
    }

    closed spec fn from_spec(config: ValidKubeletExtraConfig) -> String {
        config.inner
    }
}

impl From<ValidKubeletExtraConfig> for String {
    /// The stored base64 text.
    fn from(config: ValidKubeletExtraConfig) -> (text: String)
        ensures
            text@ == config@,
    {
        config.inner
    }
}

} // verus!
