//! The trust gate: exemption of specific identities and groups.

use vstd::prelude::*;
use crate::settings::Settings;

verus! {

/// The identity a request was made under: the requesting username and the
/// groups it belongs to.
pub struct RequestIdentity {
    pub username: String,
    pub groups: Vec<String>,
}

/// Whether some entry of `list` spells exactly the characters `x`.
pub open spec fn contains_string(list: Seq<String>, x: Seq<char>) -> bool {
    exists|i: int| 0 <= i < list.len() && list[i]@ == x
}

/// The trust gate bypasses iff the username is on the user allow-list or
/// any of the identity's groups is on the group allow-list. Either alone
/// suffices; empty allow-lists trust nobody.
pub open spec fn identity_is_trusted(identity: RequestIdentity, settings: Settings) -> bool {
    ||| contains_string(settings.allowed_users@, identity.username@)
    ||| exists|i: int|
        0 <= i < identity.groups@.len() && contains_string(
            settings.allowed_groups@,
            identity.groups@[i]@,
        )
}

/// Whether some entry of `list` equals the string `x`.
fn vec_contains_string(list: &Vec<String>, x: &String) -> (r: bool)
    ensures
        r == contains_string(list@, x@),
{
    let mut i: usize = 0;
    while i < list.len()
        invariant
            0 <= i <= list@.len(),
            forall|j: int| 0 <= j < i ==> list@[j]@ != x@,
        decreases list@.len() - i,
    {
        if list[i] == *x {
            return true;
        }
        i += 1;
    }
    false
}

/// Decides the trust gate for a request.
pub fn is_trusted_identity(identity: &RequestIdentity, settings: &Settings) -> (r: bool)
    ensures
        r == identity_is_trusted(*identity, *settings),
{
    if vec_contains_string(&settings.allowed_users, &identity.username) {
        return true;
    }
    let mut i: usize = 0;
    while i < identity.groups.len()
        invariant
            0 <= i <= identity.groups@.len(),
            forall|j: int|
                0 <= j < i ==> !contains_string(settings.allowed_groups@, identity.groups@[j]@),
        decreases identity.groups@.len() - i,
    {
        if vec_contains_string(&settings.allowed_groups, &identity.groups[i]) {
            return true;
        }
        i += 1;
    }
    false
}

} // verus!
