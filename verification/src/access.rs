//! Who may see a library: its owner, and its members in the roles a request allows.
use vstd::prelude::*;
use crate::model::texts_of;
use crate::text::str_eq;

verus! {

/// The first step of a permission check, once the library's owner is known.
#[derive(Clone, Copy, Debug, PartialEq, Eq, Structural)]
pub enum PermissionStep {
    Granted,
    Denied,
    /// The answer depends on the user's membership role.
    CheckMembership,
}

/// Whether `user_id` may act on a library in one of `allowed` roles: never when the
/// library does not exist (`owner` is `None`); always for its owner when `owner` is
/// allowed; otherwise when the user's membership role is allowed.
pub open spec fn permitted(
    owner: Option<u128>,
    role: Option<Seq<char>>,
    user_id: u128,
    allowed: Seq<Seq<char>>,
) -> bool {
    match owner {
        None => false,
        Some(o) => (o == user_id && allowed.contains("owner"@)) || (role matches Some(r)
            && allowed.contains(r)),
    }
}

pub open spec fn owner_step(owner: Option<u128>, user_id: u128, allowed: Seq<Seq<char>>) -> PermissionStep {
    match owner {
        None => PermissionStep::Denied,
        Some(o) => if o == user_id && allowed.contains("owner"@) {
            PermissionStep::Granted
        } else {
            PermissionStep::CheckMembership
        },
    }
}

fn contains_role(allowed: &Vec<String>, role: &str) -> (r: bool)
    ensures
        r == texts_of(allowed@).contains(role@),
{
    let ghost all = texts_of(allowed@);
    let n = allowed.len();
    let mut i: usize = 0;
    while i < n
        invariant
            n == allowed@.len(),
            i <= n,
            all == texts_of(allowed@),
            forall|k: int| 0 <= k < i ==> all[k] != role@,
        decreases n - i,
    {
        if str_eq(allowed[i].as_str(), role) {
            assert(all[i as int] == role@);
            return true;
        }
        i = i + 1;
    }
    false
}

/// The step after looking up the owner of the library (`None`: no such library).
pub fn permission_after_owner(owner_id: Option<u128>, user_id: u128, allowed_roles: &Vec<String>) -> (r:
    PermissionStep)
    ensures
        r == owner_step(owner_id, user_id, texts_of(allowed_roles@)),
{
    match owner_id {
        None => PermissionStep::Denied,
        Some(owner) => {
            if owner == user_id && contains_role(allowed_roles, "owner") {
                PermissionStep::Granted
            } else {
                PermissionStep::CheckMembership
            }
        },
    }
}

/// The answer after looking up the user's membership role (`None`: not a member).
pub fn permission_from_membership(role: Option<String>, allowed_roles: &Vec<String>) -> (r: bool)
    ensures
        r == (role matches Some(x) && texts_of(allowed_roles@).contains(x@)),
{
    match role {
        Some(r) => contains_role(allowed_roles, r.as_str()),
        None => false,
    }
}

/// The two steps decide `permitted`: a grant after the owner lookup, or else the
/// membership answer.
pub proof fn lemma_steps_decide_permission(
    owner: Option<u128>,
    role: Option<Seq<char>>,
    user_id: u128,
    allowed: Seq<Seq<char>>,
)
    ensures
        permitted(owner, role, user_id, allowed) == match owner_step(owner, user_id, allowed) {
            PermissionStep::Granted => true,
            PermissionStep::Denied => false,
            PermissionStep::CheckMembership => role matches Some(r) && allowed.contains(r),
        },
{
}

/// The owner of a library may act on it in any request that allows the `owner` role,
/// whatever their membership; nobody may act on a library that does not exist.
pub proof fn law_owner_and_missing_library(
    owner: u128,
    role: Option<Seq<char>>,
    user_id: u128,
    allowed: Seq<Seq<char>>,
)
    ensures
        allowed.contains("owner"@) ==> permitted(Some(owner), role, owner, allowed),
        !permitted(None, role, user_id, allowed),
{
}

} // verus!
