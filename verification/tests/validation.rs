use base64::Engine;
use settings_extension_kubernetes::blocked_keys::check_blocked_keys;
use settings_extension_kubernetes::extra_config::{check_decoded_yaml, check_yaml_document};
use settings_extension_kubernetes::{KubernetesSettingsError, ValidKubeletExtraConfig};

fn encode(text: &str) -> String {
    base64::engine::general_purpose::STANDARD.encode(text)
}

const BLOCKED: [(&str, &str); 28] = [
    ("clusterDomain", "settings.kubernetes.cluster-domain"),
    ("clusterDNS", "settings.kubernetes.cluster-dns-ip"),
    ("maxPods", "settings.kubernetes.max-pods"),
    ("staticPodPath", "settings.kubernetes.static-pods"),
    ("podPidsLimit", "settings.kubernetes.pod-pids-limit"),
    ("kubeReserved", "settings.kubernetes.kube-reserved"),
    ("systemReserved", "settings.kubernetes.system-reserved"),
    ("evictionHard", "settings.kubernetes.eviction-hard"),
    ("evictionSoft", "settings.kubernetes.eviction-soft"),
    ("evictionSoftGracePeriod", "settings.kubernetes.eviction-soft-grace-period"),
    ("evictionMaxPodGracePeriod", "settings.kubernetes.eviction-max-pod-grace-period"),
    ("imageGCHighThresholdPercent", "settings.kubernetes.image-gc-high-threshold-percent"),
    ("imageGCLowThresholdPercent", "settings.kubernetes.image-gc-low-threshold-percent"),
    ("cpuManagerPolicy", "settings.kubernetes.cpu-manager-policy"),
    ("cpuManagerReconcilePeriod", "settings.kubernetes.cpu-manager-reconcile-period"),
    ("topologyManagerPolicy", "settings.kubernetes.topology-manager-policy"),
    ("topologyManagerScope", "settings.kubernetes.topology-manager-scope"),
    ("cpuCFSQuota", "settings.kubernetes.cpu-cfs-quota-enforced"),
    ("allowedUnsafeSysctls", "settings.kubernetes.allowed-unsafe-sysctls"),
    ("authentication", "Bottlerocket-managed, not user-configurable"),
    ("authorization", "Bottlerocket-managed, not user-configurable"),
    ("tlsCertFile", "Bottlerocket-managed"),
    ("tlsPrivateKeyFile", "Bottlerocket-managed"),
    ("containerRuntimeEndpoint", "Bottlerocket-managed"),
    ("imageServiceEndpoint", "Bottlerocket-managed"),
    ("podInfraContainerImage", "Bottlerocket-managed"),
    ("resolvConf", "Bottlerocket-managed"),
    ("registerNode", "Bottlerocket-managed"),
];

#[test]
fn every_listed_key_is_rejected_with_its_reason() {
    for (key, reason) in BLOCKED {
        let text = encode(&format!("{key}: 1\n"));
        match ValidKubeletExtraConfig::validate(&text) {
            Err(KubernetesSettingsError::BlockedKey { key: k, reason: r }) => {
                assert_eq!(k, key);
                assert_eq!(r, reason);
            }
            other => panic!("{key} should be blocked, got {other:?}"),
        }
        let message = ValidKubeletExtraConfig::try_from(text.as_str()).unwrap_err();
        assert_eq!(
            message,
            format!("kubelet-extra-config contains blocked key '{key}': {reason}")
        );
    }
}

#[test]
fn blocked_key_nested_below_top_level_is_allowed() {
    let text = encode("featureGates:\n  clusterDomain: true\n");
    assert!(ValidKubeletExtraConfig::validate(&text).is_ok());
}

#[test]
fn first_listed_blocked_key_is_reported() {
    let text = encode("maxPods: 10\nclusterDomain: example.com\n");
    match ValidKubeletExtraConfig::validate(&text) {
        Err(KubernetesSettingsError::BlockedKey { key, .. }) => assert_eq!(key, "clusterDomain"),
        other => panic!("expected a blocked key, got {other:?}"),
    }
}

#[test]
fn accepted_value_stores_the_input_text() {
    let text = encode("featureGates:\n  SomeGate: true\n");
    let config = ValidKubeletExtraConfig::validate(&text).unwrap();
    assert_eq!(config.as_str(), text);
    assert_eq!(config.to_string(), text);
    assert_eq!(config.clone(), config);
    let owned: String = config.into();
    assert_eq!(owned, text);
}

#[test]
fn stored_text_revalidates_to_an_equal_value() {
    let text = encode("kubeAPIQPS: 50\n");
    let config = ValidKubeletExtraConfig::try_from(text.as_str()).unwrap();
    let again = ValidKubeletExtraConfig::try_from(String::from(config.clone())).unwrap();
    assert_eq!(again, config);
}

#[test]
fn empty_mapping_is_accepted() {
    assert!(ValidKubeletExtraConfig::try_from(encode("{}").as_str()).is_ok());
}

#[test]
fn empty_text_is_not_a_mapping() {
    assert!(matches!(
        ValidKubeletExtraConfig::validate(""),
        Err(KubernetesSettingsError::NotAMapping)
    ));
}

#[test]
fn unpadded_base64_is_rejected() {
    // "a: 1" encodes to "YTogMQ==" with padding, which STANDARD requires.
    assert!(matches!(
        ValidKubeletExtraConfig::validate("YTogMQ"),
        Err(KubernetesSettingsError::Base64Decode(_))
    ));
    assert!(ValidKubeletExtraConfig::validate("YTogMQ==").is_ok());
}

#[test]
fn base64_text_that_is_itself_a_mapping_is_decoded_first() {
    // Undecoded, this text would read as the YAML scalar "Y2x1c3RlckRvbWFpbjogeAo=".
    let text = encode("clusterDomain: x\n");
    assert!(matches!(
        ValidKubeletExtraConfig::validate(&text),
        Err(KubernetesSettingsError::BlockedKey { .. })
    ));
}

#[test]
fn tagged_mapping_is_checked_through_its_tag() {
    let text = encode("!custom\nclusterDomain: x\n");
    assert!(matches!(
        ValidKubeletExtraConfig::validate(&text),
        Err(KubernetesSettingsError::BlockedKey { .. })
    ));
}

#[test]
fn non_string_keys_are_not_blocked() {
    let text = encode("1: clusterDomain\ntrue: maxPods\n");
    assert!(ValidKubeletExtraConfig::validate(&text).is_ok());
}

#[test]
fn check_blocked_keys_on_a_built_mapping() {
    let mut mapping = serde_yaml::Mapping::new();
    assert!(check_blocked_keys(&mapping).is_ok());
    mapping.insert(
        serde_yaml::Value::String("registerNode".to_string()),
        serde_yaml::Value::Bool(true),
    );
    mapping.insert(
        serde_yaml::Value::String("tlsCertFile".to_string()),
        serde_yaml::Value::Null,
    );
    match check_blocked_keys(&mapping) {
        Err(KubernetesSettingsError::BlockedKey { key, reason }) => {
            assert_eq!(key, "tlsCertFile");
            assert_eq!(reason, "Bottlerocket-managed");
        }
        other => panic!("expected a blocked key, got {other:?}"),
    }
}

#[test]
fn check_yaml_document_rejects_a_sequence() {
    let document = serde_yaml::Value::Sequence(vec![serde_yaml::Value::Null]);
    assert!(matches!(
        check_yaml_document(&document),
        Err(KubernetesSettingsError::NotAMapping)
    ));
    let document = serde_yaml::Value::Mapping(serde_yaml::Mapping::new());
    assert!(check_yaml_document(&document).is_ok());
}

#[test]
fn check_decoded_yaml_reports_parse_errors() {
    assert!(matches!(
        check_decoded_yaml(b"a: ["),
        Err(KubernetesSettingsError::YamlParse(_))
    ));
    assert!(check_decoded_yaml(b"a: 1").is_ok());
    assert!(matches!(
        check_decoded_yaml(b"resolvConf: /etc/resolv.conf"),
        Err(KubernetesSettingsError::BlockedKey { .. })
    ));
}

#[test]
fn messages_of_each_error() {
    assert_eq!(
        KubernetesSettingsError::Base64Decode("Invalid padding".to_string()).message(),
        "Failed to decode kubelet-extra-config: Invalid padding"
    );
    assert_eq!(
        KubernetesSettingsError::YamlParse("bad".to_string()).message(),
        "Failed to parse kubelet-extra-config YAML: bad"
    );
    assert_eq!(
        KubernetesSettingsError::NotAMapping.message(),
        "kubelet-extra-config must be a YAML mapping, not an array or scalar"
    );
    assert_eq!(
        KubernetesSettingsError::BlockedKey {
            key: "maxPods".to_string(),
            reason: "settings.kubernetes.max-pods".to_string()
        }
        .message(),
        "kubelet-extra-config contains blocked key 'maxPods': settings.kubernetes.max-pods"
    );
}

#[test]
fn rejection_messages_start_with_their_kind() {
    let message = ValidKubeletExtraConfig::try_from("%%%").unwrap_err();
    assert!(message.starts_with("Failed to decode kubelet-extra-config: "));
    let message = ValidKubeletExtraConfig::try_from(encode("a: [").as_str()).unwrap_err();
    assert!(message.starts_with("Failed to parse kubelet-extra-config YAML: "));
    let message = ValidKubeletExtraConfig::try_from(encode("- a").as_str()).unwrap_err();
    assert_eq!(
        message,
        "kubelet-extra-config must be a YAML mapping, not an array or scalar"
    );
}

#[test]
fn rejection_messages_carry_the_outside_error_text() {
    let decode_err = base64::engine::general_purpose::STANDARD
        .decode("%%%")
        .unwrap_err()
        .to_string();
    assert_eq!(
        ValidKubeletExtraConfig::try_from("%%%").unwrap_err(),
        format!("Failed to decode kubelet-extra-config: {decode_err}")
    );
    let yaml_err = serde_yaml::from_slice::<serde_yaml::Value>(b"a: [")
        .unwrap_err()
        .to_string();
    match check_decoded_yaml(b"a: [") {
        Err(KubernetesSettingsError::YamlParse(detail)) => assert_eq!(detail, yaml_err),
        other => panic!("expected a YAML error, got {other:?}"),
    }
    assert_eq!(
        ValidKubeletExtraConfig::try_from(encode("a: [").as_str()).unwrap_err(),
        format!("Failed to parse kubelet-extra-config YAML: {yaml_err}")
    );
}
