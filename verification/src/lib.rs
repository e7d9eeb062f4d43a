//! Admission-control decision engine for privilege-escalation policy.
//!
//! Given a workload's pod specification (or the fact that none could be
//! resolved), the identity of the requester, and the policy settings, the
//! engine decides whether the request is accepted, rejected, or accepted
//! with a mutation that forces `allowPrivilegeEscalation` off.

mod k8s;
mod model;
mod settings;
mod trust;
mod inspector;
mod patcher;
mod decision;

pub use model::{ContainerSecurity, PodContainer, WorkloadSpec};
pub use model::{
    all_compliant, any_violation, container_is_compliant, container_violates, forced_container,
    forced_security_context, list_needs_patch, patched_list,
};
pub use settings::Settings;
pub use trust::{contains_string, identity_is_trusted, is_trusted_identity, RequestIdentity};
pub use inspector::has_allowed_privilege_escalation_container;
pub use patcher::{
    lemma_patch_idempotent, lemma_patch_preserves_fields, patch_containers, patch_list,
};
pub use decision::{
    containers_reason, decision_is_correct, expected_reasons, init_containers_reason,
    init_violation, joined_reasons, parse_failure_reason, pod_needs_patch, pod_patched_from,
    reject_message, validate, Decision, PodSpecLookup,
};
