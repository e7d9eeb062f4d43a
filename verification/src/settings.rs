//! Policy settings.

use vstd::prelude::*;

verus! {

/// The policy's configuration.
///
/// `default_allow_privilege_escalation` mirrors the platform's own default
/// of permitting escalation unless told otherwise: while it is `true` the
/// patcher never rewrites anything. `allowed_users` and `allowed_groups`
/// are the trust-bypass allow-lists; while both are empty no identity is
/// exempt.
pub struct Settings {
    pub default_allow_privilege_escalation: bool,
    pub allowed_users: Vec<String>,
    pub allowed_groups: Vec<String>,
}

impl Default for Settings {
    /// The defaults a configuration takes where it leaves fields unset:
    /// escalation is permitted by default and nobody is exempt.
    fn default() -> (s: Settings)
        ensures
            s.default_allow_privilege_escalation == true,
            s.allowed_users@ =~= Seq::<String>::empty(),
            s.allowed_groups@ =~= Seq::<String>::empty(),
    {
        Settings {
            default_allow_privilege_escalation: true,
            allowed_users: Vec::new(),
            allowed_groups: Vec::new(),
        }
    }
}

impl Settings {
    /// Any combination of settings values is a valid configuration.
    pub fn validate(&self) -> (r: Result<(), String>)
        ensures
            r is Ok,
    {
        Ok(())
    }
}

} // verus!
