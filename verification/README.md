# settings_extension_kubernetes

The `kubelet-extra-config` setting of the Kubernetes settings extension: a
base64 text that must decode to a YAML mapping setting none of the blocked
KubeletConfiguration keys. The validation is verified with Verus (`src/`);
`base64` and `serde_yaml` are called behind the trusted items of
`src/outside.rs`. `app/` gives the library's types serde, `Display` and the
string conversions.

The settings struct `KubernetesSettingsV1`, `StaticPod` and their
`SettingsModel` impl are not part of this crate: their fields are types of the
`bottlerocket-modeled-types` crate, which belongs to the same workspace as the
settings models, and the struct is generated by that workspace's `#[model]`
macro.
