//! The decision assembler: trust gate, inspection, patching, and the three
//! mutually exclusive outcomes.

use vstd::prelude::*;
use vstd::string::StringExecFns;
use crate::inspector::has_allowed_privilege_escalation_container;
use crate::model::{any_violation, list_needs_patch, patched_list, PodContainer, WorkloadSpec};
use crate::patcher::patch_list;
use crate::settings::Settings;
use crate::trust::{identity_is_trusted, is_trusted_identity, RequestIdentity};

verus! {

/// The outcome of one evaluation. Exactly one variant holds: a reject
/// always takes precedence over a pending mutation.
pub enum Decision {
    /// The request is allowed as it stands.
    Accept,
    /// The request is refused, for the reasons given in order.
    Reject(Vec<String>),
    /// The request is allowed with the patched pod specification.
    Mutate(WorkloadSpec),
}

/// What resolving the pod specification out of the admission object came
/// to. Resolution itself is the external collaborator's work; the engine
/// only decides on its outcome.
pub enum PodSpecLookup {
    /// The object embeds a pod specification.
    Found(WorkloadSpec),
    /// The object embeds no pod specification; there is nothing to police.
    Absent,
    /// The object could not be decoded into any recognizable shape.
    Malformed,
}

/// The reason reported when an init container violates the policy.
pub open spec fn init_containers_reason() -> Seq<char> {
    "one of the init containers has privilege escalation enabled"@
}

/// The reason reported when a regular container violates the policy.
pub open spec fn containers_reason() -> Seq<char> {
    "one of the containers has privilege escalation enabled"@
}

/// The reason reported when the request cannot be parsed.
pub open spec fn parse_failure_reason() -> Seq<char> {
    "Cannot parse validation request"@
}

/// The reasons a rejection carries: one per violating category, init
/// containers first, as at least one category must be violating.
pub open spec fn expected_reasons(init_viol: bool, cont_viol: bool) -> Seq<Seq<char>> {
    if init_viol && cont_viol {
        seq![init_containers_reason(), containers_reason()]
    } else if init_viol {
        seq![init_containers_reason()]
    } else {
        seq![containers_reason()]
    }
}

/// Whether some init container of the pod violates the policy. A pod
/// without init containers never does.
pub open spec fn init_violation(ps: WorkloadSpec) -> bool {
    match ps.init_containers {
        Some(ic) => any_violation(ic@),
        None => false,
    }
}

/// Whether either container list of the pod requires rewriting under the
/// configured default.
pub open spec fn pod_needs_patch(ps: WorkloadSpec, default_allow: bool) -> bool {
    ||| ps.init_containers matches Some(ic) && list_needs_patch(ic@, default_allow)
    ||| list_needs_patch(ps.containers@, default_allow)
}

/// How a mutated pod specification relates to the one it was made from:
/// the pod-level payload is identical, each container list is the patched
/// list where it needed rewriting and the original list verbatim where it
/// did not, and init containers stay absent where they were absent.
pub open spec fn pod_patched_from(
    out: WorkloadSpec,
    inp: WorkloadSpec,
    default_allow: bool,
) -> bool {
    &&& out.payload == inp.payload
    &&& out.containers@ == if list_needs_patch(inp.containers@, default_allow) {
        patched_list(inp.containers@)
    } else {
        inp.containers@
    }
    &&& match inp.init_containers {
        Some(ic) => out.init_containers matches Some(oic) && oic@ == if list_needs_patch(
            ic@,
            default_allow,
        ) {
            patched_list(ic@)
        } else {
            ic@
        },
        None => out.init_containers is None,
    }
}

/// The whole contract of one evaluation, case by case.
///
/// A trusted identity is accepted outright. Otherwise a request that could
/// not be parsed is rejected with the fixed diagnostic; a request without a
/// pod specification is accepted; a request with any violating container is
/// rejected with one reason per violating category; a request whose
/// containers need rewriting is accepted with the mutation; and anything
/// else is accepted unchanged.
pub open spec fn decision_is_correct(
    lookup: PodSpecLookup,
    identity: RequestIdentity,
    settings: Settings,
    d: Decision,
) -> bool {
    if identity_is_trusted(identity, settings) {
        d is Accept
    } else {
        match lookup {
            PodSpecLookup::Malformed => {
                &&& d matches Decision::Reject(reasons)
                &&& reasons@.map_values(|s: String| s@) == seq![parse_failure_reason()]
            },
            PodSpecLookup::Absent => d is Accept,
            PodSpecLookup::Found(ps) => {
                let iv = init_violation(ps);
                let cv = any_violation(ps.containers@);
                if iv || cv {
                    &&& d matches Decision::Reject(reasons)
                    &&& reasons@.map_values(|s: String| s@) == expected_reasons(iv, cv)
                } else if pod_needs_patch(ps, settings.default_allow_privilege_escalation) {
                    &&& d matches Decision::Mutate(out)
                    &&& pod_patched_from(out, ps, settings.default_allow_privilege_escalation)
                } else {
                    d is Accept
                }
            },
        }
    }
}

/// The reasons of a rejection joined into the single combined message the
/// caller reports, separated by a comma and a space.
pub open spec fn joined_reasons(reasons: Seq<Seq<char>>) -> Seq<char>
    decreases reasons.len(),
{
    if reasons.len() == 0 {
        Seq::empty()
    } else if reasons.len() == 1 {
        reasons[0]
    } else {
        joined_reasons(reasons.drop_last()) + ", "@ + reasons.last()
    }
}

/// Joins a rejection's reasons into the one message the caller reports.
pub fn reject_message(reasons: &Vec<String>) -> (r: String)
    ensures
        r@ == joined_reasons(reasons@.map_values(|s: String| s@)),
{
    let ghost views = reasons@.map_values(|s: String| s@);
    let mut message = String::new();
    let mut i: usize = 0;
    while i < reasons.len()
        invariant
            0 <= i <= reasons@.len(),
            views == reasons@.map_values(|s: String| s@),
            message@ == joined_reasons(views.take(i as int)),
        decreases reasons@.len() - i,
    {
        if i > 0 {
            message.append(", ");
            proof {
                assert(views.take(i + 1).drop_last() =~= views.take(i as int));
                assert(joined_reasons(views.take(i + 1)) == joined_reasons(views.take(i as int))
                    + ", "@ + views[i as int]);
            }
        } else {
            proof {
                assert(joined_reasons(views.take(1)) == views[0]);
                assert(Seq::<char>::empty() + views[0] =~= views[0]);
            }
        }
        message.append(reasons[i].as_str());
        assert(message@ =~= joined_reasons(views.take(i + 1)));
        i += 1;
    }
    proof {
        assert(views.take(reasons@.len() as int) =~= views);
    }
    message
}

/// Evaluates one admission request: the resolved pod specification (or the
/// failure to resolve one), the requesting identity, and the settings, to
/// exactly one of the three outcomes.
pub fn validate(lookup: PodSpecLookup, identity: &RequestIdentity, settings: &Settings) -> (d:
    Decision)
    ensures
        decision_is_correct(lookup, *identity, *settings, d),
        identity_is_trusted(*identity, *settings) ==> d is Accept,
        lookup is Absent ==> d is Accept,
        (!identity_is_trusted(*identity, *settings) && (lookup matches PodSpecLookup::Found(ps)
        && (init_violation(ps) || any_violation(ps.containers@)))) ==> d is Reject,
{
    if is_trusted_identity(identity, settings) {
        return Decision::Accept;
    }
    match lookup {
        PodSpecLookup::Malformed => {
            let mut reasons: Vec<String> = Vec::new();
            reasons.push("Cannot parse validation request".to_owned());
            assert(reasons@.map_values(|s: String| s@) =~= seq![parse_failure_reason()]);
            Decision::Reject(reasons)
        },
        PodSpecLookup::Absent => Decision::Accept,
        PodSpecLookup::Found(ps) => {
            let WorkloadSpec { containers, init_containers, payload } = ps;
            let init_viol = match &init_containers {
                Some(ic) => has_allowed_privilege_escalation_container(ic),
                None => false,
            };
            let cont_viol = has_allowed_privilege_escalation_container(&containers);
            if init_viol || cont_viol {
                let mut reasons: Vec<String> = Vec::new();
                if init_viol {
                    reasons.push(
                        "one of the init containers has privilege escalation enabled".to_owned(),
                    );
                }
                if cont_viol {
                    reasons.push(
                        "one of the containers has privilege escalation enabled".to_owned(),
                    );
                }
                assert(reasons@.map_values(|s: String| s@) =~= expected_reasons(
                    init_viol,
                    cont_viol,
                ));
                Decision::Reject(reasons)
            } else {
                let default_allow = settings.default_allow_privilege_escalation;
                let (new_init, init_changed): (Option<Vec<PodContainer>>, bool) =
                    match init_containers {
                    Some(ic) => {
                        let (list, changed) = patch_list(ic, default_allow);
                        (Some(list), changed)
                    },
                    None => (None, false),
                };
                let (new_containers, cont_changed) = patch_list(containers, default_allow);
                if init_changed || cont_changed {
                    Decision::Mutate(
                        WorkloadSpec {
                            containers: new_containers,
                            init_containers: new_init,
                            payload,
                        },
                    )
                } else {
                    Decision::Accept
                }
            }
        },
    }
}

} // verus!
