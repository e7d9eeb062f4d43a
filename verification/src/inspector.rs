//! The security-context inspector: does any container of a list have
//! privilege escalation enabled?

use vstd::prelude::*;
use crate::model::{any_violation, container_violates, PodContainer};

verus! {

/// Whether this container has privilege escalation explicitly enabled.
fn violates(c: &PodContainer) -> (r: bool)
    ensures
        r == container_violates(*c),
{
    match &c.security_context {
        Some(sc) => matches!(sc.allow_privilege_escalation, Some(true)),
        None => false,
    }
}

/// Whether any container of the list has privilege escalation enabled,
/// either explicitly or not at all: absence of a security context, an unset
/// field, or an explicit `false` never counts.
pub fn has_allowed_privilege_escalation_container(containers: &Vec<PodContainer>) -> (r: bool)
    ensures
        r == any_violation(containers@),
{
    let mut i: usize = 0;
    while i < containers.len()
        invariant
            0 <= i <= containers@.len(),
            forall|j: int| 0 <= j < i ==> !container_violates(containers@[j]),
        decreases containers@.len() - i,
    {
        if violates(&containers[i]) {
            return true;
        }
        i += 1;
    }
    false
}

} // verus!
