//! The default patcher: the minimal per-container rewrite that forces
//! privilege escalation off when the configured default asks for it.

use vstd::prelude::*;
use crate::model::{
    all_compliant, container_is_compliant, forced_container, lemma_forced_compliant_is_identity,
    lemma_forced_container_compliant, list_needs_patch, patched_list, ContainerSecurity,
    PodContainer,
};

verus! {

/// Whether this container already needs no rewrite: its security context is
/// present and `allowPrivilegeEscalation` is exactly `Some(false)`.
fn is_compliant(c: &PodContainer) -> (r: bool)
    ensures
        r == container_is_compliant(*c),
{
    match &c.security_context {
        Some(sc) => matches!(sc.allow_privilege_escalation, Some(false)),
        None => false,
    }
}

/// Rewrites one container: privilege escalation is forced off, the payload
/// of the pre-existing security context, if any, and every other container
/// field are kept.
fn force_container(c: PodContainer) -> (r: PodContainer)
    ensures
        r == forced_container(c),
{
    let PodContainer { security_context, payload } = c;
    let new_sc = match security_context {
        Some(sc) => ContainerSecurity {
            allow_privilege_escalation: Some(false),
            payload: sc.payload,
        },
        None => ContainerSecurity { allow_privilege_escalation: Some(false), payload: None },
    };
    PodContainer { security_context: Some(new_sc), payload }
}

/// Applies the configured default to a container list.
///
/// Returns the list to use from here on and whether anything in it was
/// rewritten. While the default permits escalation, or when every container
/// is already compliant, the list comes back unchanged.
pub fn patch_list(containers: Vec<PodContainer>, default_allow: bool) -> (res: (
    Vec<PodContainer>,
    bool,
))
    ensures
        res.1 == list_needs_patch(containers@, default_allow),
        res.1 ==> res.0@ == patched_list(containers@),
        !res.1 ==> res.0@ == containers@,
{
    if default_allow {
        return (containers, false);
    }
    let ghost orig = containers@;
    let mut rest = containers;
    let mut out: Vec<PodContainer> = Vec::new();
    let mut changed = false;
    while rest.len() > 0
        invariant
            out@.len() + rest@.len() == orig.len(),
            forall|j: int| 0 <= j < rest@.len() ==> rest@[j] == orig[out@.len() + j],
            forall|j: int|
                0 <= j < out@.len() ==> #[trigger] out@[j] == (if container_is_compliant(
                    orig[j],
                ) {
                    orig[j]
                } else {
                    forced_container(orig[j])
                }),
            changed == exists|j: int| 0 <= j < out@.len() && !container_is_compliant(orig[j]),
        decreases rest@.len(),
    {
        let ghost k = out@.len() as int;
        let c = rest.remove(0);
        assert(c == orig[k]);
        if is_compliant(&c) {
            out.push(c);
        } else {
            changed = true;
            out.push(force_container(c));
            assert(!container_is_compliant(orig[k]));
        }
    }
    if changed {
        assert forall|j: int| 0 <= j < out@.len() implies out@[j] == patched_list(orig)[j] by {
            if container_is_compliant(orig[j]) {
                lemma_forced_compliant_is_identity(orig[j]);
            }
        }
        assert(out@ =~= patched_list(orig));
    } else {
        assert(out@ =~= orig);
    }
    (out, changed)
}

/// Computes, for a container list and the configured default, the patched
/// list — or `None` when not a single container required rewriting, and in
/// particular always `None` while the default permits escalation.
pub fn patch_containers(
    containers: Vec<PodContainer>,
    default_allow_privilege_escalation: bool,
) -> (res: Option<Vec<PodContainer>>)
    ensures
        default_allow_privilege_escalation ==> res is None,
        res is Some <==> list_needs_patch(containers@, default_allow_privilege_escalation),
        res matches Some(patched) ==> patched@ == patched_list(containers@),
{
    let (list, changed) = patch_list(containers, default_allow_privilege_escalation);
    if changed {
        Some(list)
    } else {
        None
    }
}

/// Law: patching is idempotent. Every container of a patched list is
/// compliant, so a second application of the patcher — and an application
/// to any list whose containers all carry `Some(false)` already — changes
/// nothing and returns `None`, whatever the configured default.
pub proof fn lemma_patch_idempotent(containers: Seq<PodContainer>, default_allow: bool)
    ensures
        all_compliant(patched_list(containers)),
        !list_needs_patch(patched_list(containers), default_allow),
        all_compliant(containers) ==> !list_needs_patch(containers, default_allow),
{
    assert forall|i: int|
        0 <= i < patched_list(containers).len() implies container_is_compliant(
        patched_list(containers)[i],
    ) by {
        lemma_forced_container_compliant(containers[i]);
    }
}

/// Law: field preservation. The patched list has the same length and order,
/// every container keeps its payload, a pre-existing security context keeps
/// its payload, and the only field written is `allow_privilege_escalation`,
/// which every patched container carries as `Some(false)`.
pub proof fn lemma_patch_preserves_fields(containers: Seq<PodContainer>)
    ensures
        patched_list(containers).len() == containers.len(),
        forall|i: int|
            0 <= i < containers.len() ==> (#[trigger] patched_list(containers)[i]).payload
                == containers[i].payload,
        forall|i: int|
            0 <= i < containers.len() ==> ((#[trigger] patched_list(containers)[i]).security_context
                matches Some(nsc) && nsc.allow_privilege_escalation == Some(false)),
        forall|i: int|
            0 <= i < containers.len() ==> (containers[i].security_context matches Some(sc)
                ==> (#[trigger] patched_list(containers)[i]).security_context matches Some(nsc)
                && nsc.payload == sc.payload),
{
    assert forall|i: int|
        0 <= i < containers.len() implies (#[trigger] patched_list(containers)[i])
        == forced_container(containers[i]) by {}
}

} // verus!
