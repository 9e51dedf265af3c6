//! Modeled types for creating Kubernetes settings: the validated
//! `kubelet-extra-config` value and the errors its validation reports.
pub mod blocked_keys;
pub mod error;
pub mod extra_config;
pub mod outside;

pub use error::KubernetesSettingsError;
pub use extra_config::ValidKubeletExtraConfig;
