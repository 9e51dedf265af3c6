//! Errors raised while validating Kubernetes settings, and the messages that
//! describe them.
use vstd::prelude::*;

verus! {

/// Errors that can occur when validating Kubernetes settings.
#[derive(Debug)]
pub enum KubernetesSettingsError {
    /// The kubelet-extra-config value could not be decoded from base64.
    Base64Decode(String),
    /// The decoded kubelet-extra-config is not valid YAML.
    YamlParse(String),
    /// The decoded kubelet-extra-config is not a YAML mapping.
    NotAMapping,
    /// The kubelet-extra-config contains a key that is managed by a typed Bottlerocket setting.
    BlockedKey { key: String, reason: String },
}

impl KubernetesSettingsError {
    /// The text that describes the error.
    pub open spec fn spec_message(&self) -> Seq<char> {
        match self {
            KubernetesSettingsError::Base64Decode(e) => "Failed to decode kubelet-extra-config: "@ + e@,
            KubernetesSettingsError::YamlParse(e) => "Failed to parse kubelet-extra-config YAML: "@ + e@,
            KubernetesSettingsError::NotAMapping =>
                "kubelet-extra-config must be a YAML mapping, not an array or scalar"@,
            KubernetesSettingsError::BlockedKey { key, reason } =>
                "kubelet-extra-config contains blocked key '"@ + key@ + "': "@ + reason@,
        }
    }

    /// Describes the error in one line of text.
    pub fn message(&self) -> (text: String)
        ensures
            text@ == self.spec_message(),
    {
        match self {
            KubernetesSettingsError::Base64Decode(e) => {
                let mut text = String::from_str("Failed to decode kubelet-extra-config: ");
                text.append(e.as_str());
                text
            },
            KubernetesSettingsError::YamlParse(e) => {
                let mut text = String::from_str("Failed to parse kubelet-extra-config YAML: ");
                text.append(e.as_str());
                text
            },
            KubernetesSettingsError::NotAMapping => String::from_str(
                "kubelet-extra-config must be a YAML mapping, not an array or scalar",
            ),
            KubernetesSettingsError::BlockedKey { key, reason } => {
                let mut text = String::from_str("kubelet-extra-config contains blocked key '");
                text.append(key.as_str());
                text.append("': ");
                text.append(reason.as_str());
                text
            },
        }
    }
}

} // verus!
