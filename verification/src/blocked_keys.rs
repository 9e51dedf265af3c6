//! The KubeletConfiguration keys that `kubelet-extra-config` may not set, and
//! the check of a YAML mapping against them.
use crate::error::KubernetesSettingsError;
use crate::outside::{yaml_mapping_has_string_key, yaml_mapping_string_keys};
use vstd::prelude::*;

verus! {

/// Blocked KubeletConfiguration top-level keys and the reason they are blocked.
/// Each entry is `(kubelet_field_name, reason)` where reason is either the corresponding
/// Bottlerocket typed setting or a note that the field is Bottlerocket-managed.
pub open spec fn blocked_key_table() -> Seq<(Seq<char>, Seq<char>)> {
    seq![
        ("clusterDomain"@, "settings.kubernetes.cluster-domain"@),
        ("clusterDNS"@, "settings.kubernetes.cluster-dns-ip"@),
        ("maxPods"@, "settings.kubernetes.max-pods"@),
        ("staticPodPath"@, "settings.kubernetes.static-pods"@),
        ("podPidsLimit"@, "settings.kubernetes.pod-pids-limit"@),
        ("kubeReserved"@, "settings.kubernetes.kube-reserved"@),
        ("systemReserved"@, "settings.kubernetes.system-reserved"@),
        ("evictionHard"@, "settings.kubernetes.eviction-hard"@),
        ("evictionSoft"@, "settings.kubernetes.eviction-soft"@),
        ("evictionSoftGracePeriod"@, "settings.kubernetes.eviction-soft-grace-period"@),
        ("evictionMaxPodGracePeriod"@, "settings.kubernetes.eviction-max-pod-grace-period"@),
        ("imageGCHighThresholdPercent"@, "settings.kubernetes.image-gc-high-threshold-percent"@),
        ("imageGCLowThresholdPercent"@, "settings.kubernetes.image-gc-low-threshold-percent"@),
        ("cpuManagerPolicy"@, "settings.kubernetes.cpu-manager-policy"@),
        ("cpuManagerReconcilePeriod"@, "settings.kubernetes.cpu-manager-reconcile-period"@),
        ("topologyManagerPolicy"@, "settings.kubernetes.topology-manager-policy"@),
        ("topologyManagerScope"@, "settings.kubernetes.topology-manager-scope"@),
        ("cpuCFSQuota"@, "settings.kubernetes.cpu-cfs-quota-enforced"@),
        ("allowedUnsafeSysctls"@, "settings.kubernetes.allowed-unsafe-sysctls"@),
        ("authentication"@, "Bottlerocket-managed, not user-configurable"@),
        ("authorization"@, "Bottlerocket-managed, not user-configurable"@),
        ("tlsCertFile"@, "Bottlerocket-managed"@),
        ("tlsPrivateKeyFile"@, "Bottlerocket-managed"@),
        ("containerRuntimeEndpoint"@, "Bottlerocket-managed"@),
        ("imageServiceEndpoint"@, "Bottlerocket-managed"@),
        ("podInfraContainerImage"@, "Bottlerocket-managed"@),
        ("resolvConf"@, "Bottlerocket-managed"@),
        ("registerNode"@, "Bottlerocket-managed"@),
    ]
}

/// The first entry of `table`, in its order, whose key is one of `keys`.
pub open spec fn first_blocked_in(
    keys: Set<Seq<char>>,
    table: Seq<(Seq<char>, Seq<char>)>,
) -> Option<(Seq<char>, Seq<char>)>
    decreases table.len(),
{
    if table.len() == 0 {
        None
    } else if keys.contains(table[0].0) {
        Some(table[0])
    } else {
        first_blocked_in(keys, table.drop_first())
    }
}

/// The first blocked entry whose key is one of `keys`.
pub open spec fn first_blocked_key(keys: Set<Seq<char>>) -> Option<(Seq<char>, Seq<char>)> {
    first_blocked_in(keys, blocked_key_table())
}

/// In any table, the search finds an entry exactly when one of the table's
/// keys is among `keys`, and what it finds is the earliest such entry.
pub proof fn lemma_first_blocked_in(keys: Set<Seq<char>>, table: Seq<(Seq<char>, Seq<char>)>)
    ensures
        first_blocked_in(keys, table) is None <==> forall|i: int|
            0 <= i < table.len() ==> !keys.contains(#[trigger] table[i].0),
        first_blocked_in(keys, table) matches Some(entry) ==> exists|i: int|
            0 <= i < table.len() && #[trigger] table[i] == entry && keys.contains(entry.0)
                && forall|j: int| 0 <= j < i ==> !keys.contains(#[trigger] table[j].0),
    decreases table.len(),
{
    if table.len() > 0 {
        let rest = table.drop_first();
        lemma_first_blocked_in(keys, rest);
        assert forall|i: int| 1 <= i < table.len() implies #[trigger] table[i] == rest[i - 1] by {}
        if !keys.contains(table[0].0) {
            if first_blocked_in(keys, rest) is None {
                assert forall|i: int| 0 <= i < table.len() implies !keys.contains(
                    #[trigger] table[i].0,
                ) by {
                    if i > 0 {
                        assert(table[i] == rest[i - 1]);
                    }
                }
            } else {
                let entry = first_blocked_in(keys, rest).unwrap();
                let k = choose|k: int|
                    0 <= k < rest.len() && #[trigger] rest[k] == entry && keys.contains(entry.0)
                        && forall|j: int| 0 <= j < k ==> !keys.contains(#[trigger] rest[j].0);
                assert(table[k + 1] == entry);
                assert forall|j: int| 0 <= j < k + 1 implies !keys.contains(#[trigger] table[j].0) by {
                    if j > 0 {
                        assert(table[j] == rest[j - 1]);
                    }
                }
            }
        } else {
            assert(table[0] == first_blocked_in(keys, table).unwrap());
        }
    }
}

/// A mapping is refused for a blocked key exactly when one of the listed keys
/// is among its string keys; the key reported is the first listed one it has,
/// together with that key's reason.
pub proof fn lemma_blocked_iff_listed_key_present(keys: Set<Seq<char>>)
    ensures
        first_blocked_key(keys) is Some <==> exists|i: int|
            0 <= i < blocked_key_table().len() && keys.contains(#[trigger] blocked_key_table()[i].0),
        first_blocked_key(keys) matches Some(entry) ==> exists|i: int|
            0 <= i < blocked_key_table().len() && #[trigger] blocked_key_table()[i] == entry
                && keys.contains(entry.0) && forall|j: int|
                0 <= j < i ==> !keys.contains(#[trigger] blocked_key_table()[j].0),
{
    lemma_first_blocked_in(keys, blocked_key_table());
}

/// The KubeletConfiguration fields that Bottlerocket manages itself, in the
/// order in which they are looked for, each with the reason it may not be set
/// through `kubelet-extra-config`: the typed setting that sets it, or a note
/// that Bottlerocket manages it.
pub open spec fn managed_kubelet_fields() -> Seq<(Seq<char>, Seq<char>)> {
    seq![
        ("clusterDomain"@, "settings.kubernetes.cluster-domain"@),
        ("clusterDNS"@, "settings.kubernetes.cluster-dns-ip"@),
        ("maxPods"@, "settings.kubernetes.max-pods"@),
        ("staticPodPath"@, "settings.kubernetes.static-pods"@),
        ("podPidsLimit"@, "settings.kubernetes.pod-pids-limit"@),
        ("kubeReserved"@, "settings.kubernetes.kube-reserved"@),
        ("systemReserved"@, "settings.kubernetes.system-reserved"@),
        ("evictionHard"@, "settings.kubernetes.eviction-hard"@),
        ("evictionSoft"@, "settings.kubernetes.eviction-soft"@),
        ("evictionSoftGracePeriod"@, "settings.kubernetes.eviction-soft-grace-period"@),
        ("evictionMaxPodGracePeriod"@, "settings.kubernetes.eviction-max-pod-grace-period"@),
        ("imageGCHighThresholdPercent"@, "settings.kubernetes.image-gc-high-threshold-percent"@),
        ("imageGCLowThresholdPercent"@, "settings.kubernetes.image-gc-low-threshold-percent"@),
        ("cpuManagerPolicy"@, "settings.kubernetes.cpu-manager-policy"@),
        ("cpuManagerReconcilePeriod"@, "settings.kubernetes.cpu-manager-reconcile-period"@),
        ("topologyManagerPolicy"@, "settings.kubernetes.topology-manager-policy"@),
        ("topologyManagerScope"@, "settings.kubernetes.topology-manager-scope"@),
        ("cpuCFSQuota"@, "settings.kubernetes.cpu-cfs-quota-enforced"@),
        ("allowedUnsafeSysctls"@, "settings.kubernetes.allowed-unsafe-sysctls"@),
        ("authentication"@, "Bottlerocket-managed, not user-configurable"@),
        ("authorization"@, "Bottlerocket-managed, not user-configurable"@),
        ("tlsCertFile"@, "Bottlerocket-managed"@),
        ("tlsPrivateKeyFile"@, "Bottlerocket-managed"@),
        ("containerRuntimeEndpoint"@, "Bottlerocket-managed"@),
        ("imageServiceEndpoint"@, "Bottlerocket-managed"@),
        ("podInfraContainerImage"@, "Bottlerocket-managed"@),
        ("resolvConf"@, "Bottlerocket-managed"@),
        ("registerNode"@, "Bottlerocket-managed"@),
    ]
}

/// Exactly the managed KubeletConfiguration fields are blocked: a mapping is
/// refused for a blocked key if and only if one of its string keys names a
/// managed field, and what is reported is the earliest such field, with its
/// reason. A mapping whose string keys name none of them passes, whatever
/// else it sets.
pub proof fn lemma_blocked_exactly_the_managed_fields(keys: Set<Seq<char>>)
    ensures
        blocked_key_table().len() == managed_kubelet_fields().len() == 28,
        first_blocked_key(keys) is Some <==> exists|i: int|
            0 <= i < managed_kubelet_fields().len() && keys.contains(
                #[trigger] managed_kubelet_fields()[i].0,
            ),
        first_blocked_key(keys) matches Some(entry) ==> exists|i: int|
            0 <= i < managed_kubelet_fields().len() && #[trigger] managed_kubelet_fields()[i]
                == entry && keys.contains(entry.0) && forall|j: int|
                0 <= j < i ==> !keys.contains(#[trigger] managed_kubelet_fields()[j].0),
{
    assert(blocked_key_table() =~= managed_kubelet_fields());
    lemma_blocked_iff_listed_key_present(keys);
}

/// The table of blocked keys, in the order in which they are checked.
fn blocked_keys() -> (table: Vec<(&'static str, &'static str)>)
    ensures
        table@.map_values(|entry: (&str, &str)| (entry.0@, entry.1@)) == blocked_key_table(),
{
    let mut table: Vec<(&'static str, &'static str)> = Vec::new();
    table.push(("clusterDomain", "settings.kubernetes.cluster-domain"));
    table.push(("clusterDNS", "settings.kubernetes.cluster-dns-ip"));
    table.push(("maxPods", "settings.kubernetes.max-pods"));
    table.push(("staticPodPath", "settings.kubernetes.static-pods"));
    table.push(("podPidsLimit", "settings.kubernetes.pod-pids-limit"));
    table.push(("kubeReserved", "settings.kubernetes.kube-reserved"));
    table.push(("systemReserved", "settings.kubernetes.system-reserved"));
    table.push(("evictionHard", "settings.kubernetes.eviction-hard"));
    table.push(("evictionSoft", "settings.kubernetes.eviction-soft"));
    table.push(("evictionSoftGracePeriod", "settings.kubernetes.eviction-soft-grace-period"));
    table.push(("evictionMaxPodGracePeriod", "settings.kubernetes.eviction-max-pod-grace-period"));
    table.push(("imageGCHighThresholdPercent", "settings.kubernetes.image-gc-high-threshold-percent"));
    table.push(("imageGCLowThresholdPercent", "settings.kubernetes.image-gc-low-threshold-percent"));
    table.push(("cpuManagerPolicy", "settings.kubernetes.cpu-manager-policy"));
    table.push(("cpuManagerReconcilePeriod", "settings.kubernetes.cpu-manager-reconcile-period"));
    table.push(("topologyManagerPolicy", "settings.kubernetes.topology-manager-policy"));
    table.push(("topologyManagerScope", "settings.kubernetes.topology-manager-scope"));
    table.push(("cpuCFSQuota", "settings.kubernetes.cpu-cfs-quota-enforced"));
    table.push(("allowedUnsafeSysctls", "settings.kubernetes.allowed-unsafe-sysctls"));
    table.push(("authentication", "Bottlerocket-managed, not user-configurable"));
    table.push(("authorization", "Bottlerocket-managed, not user-configurable"));
    table.push(("tlsCertFile", "Bottlerocket-managed"));
    table.push(("tlsPrivateKeyFile", "Bottlerocket-managed"));
    table.push(("containerRuntimeEndpoint", "Bottlerocket-managed"));
    table.push(("imageServiceEndpoint", "Bottlerocket-managed"));
    table.push(("podInfraContainerImage", "Bottlerocket-managed"));
    table.push(("resolvConf", "Bottlerocket-managed"));
    table.push(("registerNode", "Bottlerocket-managed"));
    assert(table@.map_values(|entry: (&str, &str)| (entry.0@, entry.1@)) =~= blocked_key_table());
    table
}

/// Rejects a mapping that has one of the blocked keys as a string key, naming
/// the first such key in the table's order together with its reason.
pub fn check_blocked_keys(mapping: &serde_yaml::Mapping) -> (res: Result<(), KubernetesSettingsError>)
    ensures
        match first_blocked_key(yaml_mapping_string_keys(*mapping)) {
            None => res is Ok,
            Some(entry) => res matches Err(KubernetesSettingsError::BlockedKey { key, reason })
                && key@ == entry.0 && reason@ == entry.1,
        },
{
    let table = blocked_keys();
    let ghost keys = yaml_mapping_string_keys(*mapping);
    let ghost spec_table = blocked_key_table();
    let mut i: usize = 0;
    assert(spec_table.skip(0) =~= spec_table);
    while i < table.len()
        invariant
            0 <= i <= table@.len(),
            table@.map_values(|entry: (&str, &str)| (entry.0@, entry.1@)) == spec_table,
            spec_table == blocked_key_table(),
            keys == yaml_mapping_string_keys(*mapping),
            first_blocked_key(keys) == first_blocked_in(keys, spec_table.skip(i as int)),
        decreases table@.len() - i,
    {
        let (key, reason) = table[i];
        assert(spec_table[i as int] == (key@, reason@));
        assert(spec_table.skip(i as int)[0] == spec_table[i as int]);
        if yaml_mapping_has_string_key(mapping, key) {
            return Err(
                KubernetesSettingsError::BlockedKey {
                    key: String::from_str(key),
                    reason: String::from_str(reason),
                },
            );
        }
        assert(spec_table.skip(i as int).drop_first() =~= spec_table.skip(i + 1));
        i = i + 1;
    }
    assert(spec_table.skip(i as int).len() == 0);
    Ok(())
}

} // verus!
