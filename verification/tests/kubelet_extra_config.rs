use base64::Engine;
use settings_extension_kubernetes::ValidKubeletExtraConfig;

#[test]
fn test_valid_extra_config_passes_validation() {
    let yaml = "featureGates:\n  SomeGate: true\n";
    let encoded = base64::engine::general_purpose::STANDARD.encode(yaml);
    assert!(ValidKubeletExtraConfig::try_from(encoded.as_str()).is_ok());
}

#[test]
fn test_invalid_base64_rejected_at_type_boundary() {
    assert!(ValidKubeletExtraConfig::try_from("not valid base64!!!").is_err());
}

#[test]
fn test_invalid_yaml_after_base64_decode_rejected() {
    let bad_yaml = ":\n  :\n- {{\ninvalid:: yaml::: [";
    let encoded = base64::engine::general_purpose::STANDARD.encode(bad_yaml);
    let err = ValidKubeletExtraConfig::try_from(encoded.as_str()).unwrap_err();
    assert!(err.contains("parse"), "Expected YAML parse error, got: {err}");
}

#[test]
fn test_binary_garbage_rejected_as_yaml_parse_error() {
    let garbage: [u8; 16] = [
        0xff, 0xfe, 0x00, 0x01, 0x80, 0x90, 0xa0, 0xb0, 0xc0, 0xd0, 0xe0, 0xf0, 0x7f, 0x1b, 0x03,
        0x04,
    ];
    let encoded = base64::engine::general_purpose::STANDARD.encode(garbage);
    let err = ValidKubeletExtraConfig::try_from(encoded.as_str()).unwrap_err();
    assert!(
        err.contains("parse") || err.contains("YAML"),
        "Expected YAML parse error, got: {err}"
    );
}

#[test]
fn test_yaml_array_rejected_as_not_a_mapping() {
    let yaml = "- item1\n- item2\n";
    let encoded = base64::engine::general_purpose::STANDARD.encode(yaml);
    let err = ValidKubeletExtraConfig::try_from(encoded.as_str()).unwrap_err();
    assert!(err.contains("mapping"), "Expected not-a-mapping error, got: {err}");
}

#[test]
fn test_yaml_scalar_rejected_as_not_a_mapping() {
    let yaml = "just a string";
    let encoded = base64::engine::general_purpose::STANDARD.encode(yaml);
    let err = ValidKubeletExtraConfig::try_from(encoded.as_str()).unwrap_err();
    assert!(err.contains("mapping"), "Expected not-a-mapping error, got: {err}");
}

#[test]
fn test_blocked_key_cluster_domain_rejected() {
    let yaml = "clusterDomain: example.com\n";
    let encoded = base64::engine::general_purpose::STANDARD.encode(yaml);
    let err = ValidKubeletExtraConfig::try_from(encoded.as_str()).unwrap_err();
    assert!(err.contains("clusterDomain"), "Error should name the blocked key: {err}");
    assert!(
        err.contains("settings.kubernetes.cluster-domain"),
        "Error should name the typed setting: {err}"
    );
}

#[test]
fn test_blocked_key_authentication_rejected() {
    let yaml = "authentication:\n  mode: AlwaysAllow\n";
    let encoded = base64::engine::general_purpose::STANDARD.encode(yaml);
    let err = ValidKubeletExtraConfig::try_from(encoded.as_str()).unwrap_err();
    assert!(err.contains("authentication"), "Error should name the blocked key: {err}");
    assert!(
        err.contains("Bottlerocket-managed"),
        "Error should state the field is Bottlerocket-managed: {err}"
    );
}
