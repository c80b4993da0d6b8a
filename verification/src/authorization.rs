//! Pure authorization decision functions over the role hierarchy.
//!
//! Roles are opaque strings ordered by an integer hierarchy level; a string
//! outside the recognized set maps to level 0, the lowest privilege, so that
//! an unknown role fails safe. Every access decision goes through these
//! functions - they return booleans and never fail, and the caller is
//! responsible for turning `false` into a forbidden error.

use vstd::prelude::*;

use crate::errors::AuthError;
use crate::strutil::str_eq;
use crate::subject::SubjectId;

verus! {

/// Hierarchy level of a role string: higher means more privilege, and any
/// unrecognized role is ranked strictly below every recognized one.
pub open spec fn spec_role_level(role: Seq<char>) -> int {
    if role == "superadmin"@ {
        5
    } else if role == "admin"@ {
        4
    } else if role == "moderator"@ {
        3
    } else if role == "contributor"@ {
        2
    } else if role == "user"@ {
        1
    } else {
        0
    }
}

/// `role` ranks at least as high as `required`.
pub open spec fn spec_has_minimum_level(role: Seq<char>, required: Seq<char>) -> bool {
    spec_role_level(role) >= spec_role_level(required)
}

/// Management policy: the top rank manages everyone; the mid rank manages
/// strictly below itself (a peer is out of reach); nobody else manages users.
pub open spec fn spec_can_manage_user(manager: Seq<char>, target: Seq<char>) -> bool {
    if spec_role_level(manager) == 5 {
        true
    } else if spec_role_level(manager) == 4 {
        spec_role_level(target) < spec_role_level(manager)
    } else {
        false
    }
}

/// Viewing policy: the top rank views everyone; the mid rank views its own
/// rank and below; everyone else views only their own profile.
pub open spec fn spec_can_view_user(
    viewer: Seq<char>,
    viewer_id: SubjectId,
    target: Seq<char>,
    target_id: SubjectId,
) -> bool {
    if spec_role_level(viewer) == 5 {
        true
    } else if spec_role_level(viewer) == 4 {
        spec_role_level(target) <= spec_role_level(viewer)
    } else {
        viewer_id == target_id
    }
}

/// The one ownership policy, used identically for translations, dictionary
/// entries and books: the top two ranks may touch any resource, the
/// contributor (creator) rank only what it created itself, and every other
/// rank none at all.
pub open spec fn spec_can_modify_owned(
    role: Seq<char>,
    user_id: SubjectId,
    owner: Option<SubjectId>,
) -> bool {
    if spec_role_level(role) >= 4 {
        true
    } else if spec_role_level(role) == 2 {
        owner == Some(user_id)
    } else {
        false
    }
}

/// Access to another identity's data: the top two ranks unconditionally,
/// everyone else only their own.
pub open spec fn spec_can_access_user_data(
    role: Seq<char>,
    user_id: SubjectId,
    target_id: SubjectId,
) -> bool {
    if spec_role_level(role) >= 4 {
        true
    } else {
        user_id == target_id
    }
}

/// The roles that a caller may hand out: the top rank assigns every defined
/// role, the mid rank only the two lowest ranks, everyone else none.
pub open spec fn spec_assignable_roles(role: Seq<char>) -> Seq<Seq<char>> {
    if spec_role_level(role) == 5 {
        seq!["superadmin"@, "admin"@, "moderator"@, "contributor"@, "user"@]
    } else if spec_role_level(role) == 4 {
        seq!["contributor"@, "user"@]
    } else {
        Seq::empty()
    }
}

/// A role assignment is permitted only when the target role is on the
/// caller's assignable list.
pub open spec fn spec_can_assign_role(manager: Seq<char>, target: Seq<char>) -> bool {
    spec_assignable_roles(manager).contains(target)
}

/// Get role hierarchy level (higher number = more permissions).
pub fn get_role_level(role: &str) -> (level: u8)
    ensures
        level == spec_role_level(role@),
{
    if str_eq(role, "superadmin") {
        5
    } else if str_eq(role, "admin") {
        4
    } else if str_eq(role, "moderator") {
        3
    } else if str_eq(role, "contributor") {
        2
    } else if str_eq(role, "user") {
        1
    } else {
        0
    }
}

/// Check if a role has at least the level of the required role.
pub fn has_minimum_role_level(user_role: &str, required_role: &str) -> (r: bool)
    ensures
        r == spec_has_minimum_level(user_role@, required_role@),
{
    get_role_level(user_role) >= get_role_level(required_role)
}

/// Validate that a user can perform an operation requiring a specific role.
pub fn require_role(user_role: &str, required_role: &str) -> (r: Result<(), AuthError>)
    ensures
        spec_has_minimum_level(user_role@, required_role@) ==> r == Ok::<(), AuthError>(()),
        !spec_has_minimum_level(user_role@, required_role@) ==> r == Err::<(), AuthError>(
            AuthError::InsufficientPrivilege,
        ),
{
    if !has_minimum_role_level(user_role, required_role) {
        return Err(AuthError::InsufficientPrivilege);
    }
    Ok(())
}

/// Check if a user can manage another user based on role hierarchy.
pub fn can_manage_user(manager_role: &str, target_role: &str) -> (r: bool)
    ensures
        r == spec_can_manage_user(manager_role@, target_role@),
{
    let manager_level = get_role_level(manager_role);
    let target_level = get_role_level(target_role);
    if manager_level == 5 {
        true
    } else if manager_level == 4 {
        target_level < manager_level
    } else {
        false
    }
}

/// Check if a user can view another user's profile.
pub fn can_view_user(
    viewer_role: &str,
    viewer_id: SubjectId,
    target_role: &str,
    target_id: SubjectId,
) -> (r: bool)
    ensures
        r == spec_can_view_user(viewer_role@, viewer_id, target_role@, target_id),
{
    let viewer_level = get_role_level(viewer_role);
    let target_level = get_role_level(target_role);
    if viewer_level == 5 {
        true
    } else if viewer_level == 4 {
        target_level <= viewer_level
    } else {
        viewer_id == target_id
    }
}

/// Check if a user can modify translations, by rank or by ownership.
pub fn can_modify_translation(
    user_role: &str,
    user_id: SubjectId,
    translation_owner: Option<SubjectId>,
) -> (r: bool)
    ensures
        r == spec_can_modify_owned(user_role@, user_id, translation_owner),
{
    let level = get_role_level(user_role);
    if level >= 4 {
        true
    } else if level == 2 {
        match translation_owner {
            Some(owner) => owner == user_id,
            None => false,
        }
    } else {
        false
    }
}

/// Check if a user can read translations: every authenticated user can.
pub fn can_read_translation(_user_role: &str) -> (r: bool)
    ensures
        r,
{
    true
}

/// Check if a user can delete translations, by rank or by ownership.
pub fn can_delete_translation(
    user_role: &str,
    user_id: SubjectId,
    translation_owner: Option<SubjectId>,
) -> (r: bool)
    ensures
        r == spec_can_modify_owned(user_role@, user_id, translation_owner),
{
    can_modify_translation(user_role, user_id, translation_owner)
}

/// Check if a user can access user management features: only the top two ranks.
pub fn can_access_user_management(user_role: &str) -> (r: bool)
    ensures
        r == (spec_role_level(user_role@) >= 4),
{
    get_role_level(user_role) >= 4
}

/// Get roles that a user can assign to others based on hierarchy.
pub fn get_assignable_roles(user_role: &str) -> (r: Vec<&'static str>)
    ensures
        r@.len() == spec_assignable_roles(user_role@).len(),
        forall|i: int| 0 <= i < r@.len() ==> r@[i]@ == spec_assignable_roles(user_role@)[i],
{
    let level = get_role_level(user_role);
    let mut roles: Vec<&'static str> = Vec::new();
    if level == 5 {
        roles.push("superadmin");
        roles.push("admin");
        roles.push("moderator");
        roles.push("contributor");
        roles.push("user");
    } else if level == 4 {
        roles.push("contributor");
        roles.push("user");
    }
    roles
}

/// Check if a user can assign a specific role.
pub fn can_assign_role(manager_role: &str, target_role: &str) -> (r: bool)
    ensures
        r == spec_can_assign_role(manager_role@, target_role@),
{
    let assignable = get_assignable_roles(manager_role);
    let mut i: usize = 0;
    while i < assignable.len()
        invariant
            i <= assignable@.len(),
            assignable@.len() == spec_assignable_roles(manager_role@).len(),
            forall|j: int| 0 <= j < assignable@.len() ==> assignable@[j]@ == spec_assignable_roles(
                manager_role@,
            )[j],
            forall|j: int| 0 <= j < i ==> spec_assignable_roles(manager_role@)[j] != target_role@,
        decreases assignable@.len() - i,
    {
        if str_eq(assignable[i], target_role) {
            assert(spec_assignable_roles(manager_role@)[i as int] == target_role@);
            return true;
        }
        i += 1;
    }
    assert(!spec_assignable_roles(manager_role@).contains(target_role@));
    false
}

/// Check if a user can modify a resource they created; the same policy as
/// for translations.
pub fn can_modify_own_resource(
    user_role: &str,
    user_id: SubjectId,
    created_by: Option<SubjectId>,
) -> (r: bool)
    ensures
        r == spec_can_modify_owned(user_role@, user_id, created_by),
{
    can_modify_translation(user_role, user_id, created_by)
}

/// Check if a user can delete a resource they created; the same policy as
/// for translations.
pub fn can_delete_resource(
    user_role: &str,
    user_id: SubjectId,
    created_by: Option<SubjectId>,
) -> (r: bool)
    ensures
        r == spec_can_modify_owned(user_role@, user_id, created_by),
{
    can_modify_translation(user_role, user_id, created_by)
}

/// Check if a user can access another user's data.
pub fn can_access_user_data(
    user_role: &str,
    user_id: SubjectId,
    target_user_id: SubjectId,
) -> (r: bool)
    ensures
        r == spec_can_access_user_data(user_role@, user_id, target_user_id),
{
    let level = get_role_level(user_role);
    if level >= 4 {
        true
    } else {
        user_id == target_user_id
    }
}

/// The levels of the five recognized role strings, and of a string outside
/// the set, spelled out so that concrete reasoning can rest on them.
pub proof fn lemma_role_levels()
    ensures
        spec_role_level("superadmin"@) == 5,
        spec_role_level("admin"@) == 4,
        spec_role_level("moderator"@) == 3,
        spec_role_level("contributor"@) == 2,
        spec_role_level("user"@) == 1,
        spec_role_level("translator"@) == 0,
{
    reveal_strlit("superadmin");
    reveal_strlit("admin");
    reveal_strlit("moderator");
    reveal_strlit("contributor");
    reveal_strlit("user");
    reveal_strlit("translator");
    assert("superadmin"@.len() == 10);
    assert("admin"@.len() == 5);
    assert("moderator"@.len() == 9);
    assert("contributor"@.len() == 11);
    assert("user"@.len() == 4);
    assert("translator"@.len() == 10);
    assert("translator"@[0] == 't' && "superadmin"@[0] == 's');
}

/// The minimum-level relation is the comparison of hierarchy levels, and as
/// such is reflexive and transitive over all role strings.
pub proof fn lemma_minimum_level_preorder(r1: Seq<char>, r2: Seq<char>, r3: Seq<char>)
    ensures
        spec_has_minimum_level(r1, r1),
        spec_has_minimum_level(r1, r2) && spec_has_minimum_level(r2, r3)
            ==> spec_has_minimum_level(r1, r3),
{
}

/// No role below the top rank can manage its own rank: self-management is the
/// top rank's privilege alone.
pub proof fn lemma_no_self_rank_management(role: Seq<char>)
    ensures
        role != "superadmin"@ ==> !spec_can_manage_user(role, role),
{
}

/// Monotonic escalation prevention: every role on a non-top caller's
/// assignable list ranks strictly below the caller. In particular the mid
/// rank can assign neither itself nor the top rank.
pub proof fn lemma_assignable_roles_monotonic(caller: Seq<char>)
    requires
        caller != "superadmin"@,
    ensures
        forall|i: int| 0 <= i < spec_assignable_roles(caller).len()
            ==> spec_role_level(#[trigger] spec_assignable_roles(caller)[i]) < spec_role_level(
                caller,
            ),
        !spec_assignable_roles(caller).contains(caller),
        !spec_assignable_roles(caller).contains("superadmin"@),
{
    lemma_role_levels();
    if spec_role_level(caller) == 4 {
        assert forall|i: int| 0 <= i < spec_assignable_roles(caller).len()
            implies spec_role_level(#[trigger] spec_assignable_roles(caller)[i])
                < spec_role_level(caller) by {
            assert(spec_assignable_roles(caller) =~= seq!["contributor"@, "user"@]);
            if i == 0 {
                assert(spec_assignable_roles(caller)[i] == "contributor"@);
            } else {
                assert(spec_assignable_roles(caller)[i] == "user"@);
            }
        }
        if spec_assignable_roles(caller).contains(caller) {
            let i = choose|i: int| 0 <= i < spec_assignable_roles(caller).len()
                && spec_assignable_roles(caller)[i] == caller;
            assert(spec_role_level(spec_assignable_roles(caller)[i]) < spec_role_level(caller));
        }
        if spec_assignable_roles(caller).contains("superadmin"@) {
            let i = choose|i: int| 0 <= i < spec_assignable_roles(caller).len()
                && spec_assignable_roles(caller)[i] == "superadmin"@;
            assert(spec_role_level(spec_assignable_roles(caller)[i]) < spec_role_level(caller));
        }
    } else {
        assert(spec_assignable_roles(caller).len() == 0);
    }
}

/// Ownership check independence: below the top two ranks, a caller can touch
/// a resource owned by someone else under no policy at all, whatever the
/// resource type.
pub proof fn lemma_non_owner_below_admin_denied(role: Seq<char>, caller: SubjectId, owner: SubjectId)
    requires
        spec_role_level(role) < 4,
        caller != owner,
    ensures
        !spec_can_modify_owned(role, caller, Some(owner)),
{
}

} // verus!
