//! The engine's view of a workload: containers, their security contexts,
//! and the pod specification that holds them.
//!
//! Each type keeps the one field the policy interprets as a plain value and
//! carries everything else as an opaque payload, so that contracts can state
//! exactly which fields a mutation may touch and which it must preserve.

use vstd::prelude::*;

verus! {

/// A container's security context.
///
/// `allow_privilege_escalation` is the only field the policy interprets;
/// absence means "unspecified", not "false". `payload` carries every other
/// field of the security context the container arrived with, or `None` when
/// the container had no security context at all and a fresh, empty one had
/// to be introduced.
pub struct ContainerSecurity {
    pub allow_privilege_escalation: Option<bool>,
    pub payload: Option<k8s_openapi::api::core::v1::SecurityContext>,
}

/// A container: its optional security context, interpreted by the policy,
/// and the rest of its fields, passed through untouched.
pub struct PodContainer {
    pub security_context: Option<ContainerSecurity>,
    pub payload: k8s_openapi::api::core::v1::Container,
}

/// A normalized pod specification: the regular containers, the optional
/// init containers, and the rest of the pod-level fields, passed through
/// untouched.
pub struct WorkloadSpec {
    pub containers: Vec<PodContainer>,
    pub init_containers: Option<Vec<PodContainer>>,
    pub payload: k8s_openapi::api::core::v1::PodSpec,
}

/// A container violates the policy iff its security context is present and
/// `allowPrivilegeEscalation` is explicitly `true`. An absent security
/// context, an unset field, or an explicit `false` does not violate.
pub open spec fn container_violates(c: PodContainer) -> bool {
    match c.security_context {
        Some(sc) => sc.allow_privilege_escalation == Some(true),
        None => false,
    }
}

/// Some container of the list violates the policy.
pub open spec fn any_violation(containers: Seq<PodContainer>) -> bool {
    exists|i: int| 0 <= i < containers.len() && container_violates(containers[i])
}

/// A container needs no rewrite when the default is "disallow": its
/// security context is present and `allowPrivilegeEscalation` is exactly
/// `Some(false)`. In every other case the patcher rewrites the field.
pub open spec fn container_is_compliant(c: PodContainer) -> bool {
    match c.security_context {
        Some(sc) => sc.allow_privilege_escalation == Some(false),
        None => false,
    }
}

/// Every container of the list needs no rewrite.
pub open spec fn all_compliant(containers: Seq<PodContainer>) -> bool {
    forall|i: int| 0 <= i < containers.len() ==> container_is_compliant(containers[i])
}

/// The security context a rewritten container ends up with: privilege
/// escalation is forced off, and the payload of the pre-existing security
/// context, if any, is kept.
pub open spec fn forced_security_context(sc: Option<ContainerSecurity>) -> ContainerSecurity {
    ContainerSecurity {
        allow_privilege_escalation: Some(false),
        payload: match sc {
            Some(sc) => sc.payload,
            None => None,
        },
    }
}

/// A container after the patcher has forced privilege escalation off:
/// only `allow_privilege_escalation` changes, every other field is kept.
pub open spec fn forced_container(c: PodContainer) -> PodContainer {
    PodContainer {
        security_context: Some(forced_security_context(c.security_context)),
        payload: c.payload,
    }
}

/// The list the patcher produces: every container forced, in the original
/// order.
pub open spec fn patched_list(containers: Seq<PodContainer>) -> Seq<PodContainer> {
    containers.map_values(|c: PodContainer| forced_container(c))
}

/// The patcher must change something: the configured default is "disallow"
/// and at least one container is not already compliant.
pub open spec fn list_needs_patch(containers: Seq<PodContainer>, default_allow: bool) -> bool {
    !default_allow && exists|i: int| 0 <= i < containers.len() && !container_is_compliant(
        containers[i],
    )
}

/// Forcing a compliant container changes nothing.
pub proof fn lemma_forced_compliant_is_identity(c: PodContainer)
    requires
        container_is_compliant(c),
    ensures
        forced_container(c) == c,
{
}

/// A forced container is compliant, and in particular not violating.
pub proof fn lemma_forced_container_compliant(c: PodContainer)
    ensures
        container_is_compliant(forced_container(c)),
        !container_violates(forced_container(c)),
{
}

} // verus!
