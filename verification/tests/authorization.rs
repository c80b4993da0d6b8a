//! Tests for the pure authorization decision functions.

use pnar_core::authorization::{
    can_access_user_data, can_access_user_management, can_assign_role, can_delete_resource,
    can_delete_translation, can_manage_user, can_modify_own_resource, can_modify_translation,
    can_read_translation, can_view_user, get_assignable_roles, get_role_level,
    has_minimum_role_level, require_role,
};
use pnar_core::errors::AuthError;
use pnar_core::subject::SubjectId;

const ALL_ROLES: [&str; 7] = [
    "superadmin",
    "admin",
    "moderator",
    "contributor",
    "user",
    "translator",
    "intruder",
];

#[test]
fn role_levels_are_the_documented_ranks() {
    assert_eq!(get_role_level("superadmin"), 5);
    assert_eq!(get_role_level("admin"), 4);
    assert_eq!(get_role_level("moderator"), 3);
    assert_eq!(get_role_level("contributor"), 2);
    assert_eq!(get_role_level("user"), 1);
    assert_eq!(get_role_level("translator"), 0);
    assert_eq!(get_role_level(""), 0);
    assert_eq!(get_role_level("Admin"), 0);
}

#[test]
fn minimum_level_is_level_comparison() {
    for r1 in ALL_ROLES {
        for r2 in ALL_ROLES {
            assert_eq!(
                has_minimum_role_level(r1, r2),
                get_role_level(r1) >= get_role_level(r2),
                "hasMinimumLevel({r1}, {r2})"
            );
        }
    }
}

#[test]
fn minimum_level_is_reflexive_and_transitive() {
    for r in ALL_ROLES {
        assert!(has_minimum_role_level(r, r));
    }
    for r1 in ALL_ROLES {
        for r2 in ALL_ROLES {
            for r3 in ALL_ROLES {
                if has_minimum_role_level(r1, r2) && has_minimum_role_level(r2, r3) {
                    assert!(has_minimum_role_level(r1, r3));
                }
            }
        }
    }
}

#[test]
fn require_role_turns_false_into_forbidden() {
    assert_eq!(require_role("moderator", "contributor"), Ok(()));
    assert_eq!(require_role("moderator", "moderator"), Ok(()));
    assert_eq!(
        require_role("moderator", "admin"),
        Err(AuthError::InsufficientPrivilege)
    );
    assert_eq!(
        require_role("nobody", "user"),
        Err(AuthError::InsufficientPrivilege)
    );
}

#[test]
fn no_self_rank_management_below_the_top() {
    for r in ALL_ROLES {
        if r == "superadmin" {
            assert!(can_manage_user(r, r));
        } else {
            assert!(!can_manage_user(r, r), "canManage({r}, {r})");
        }
    }
}

#[test]
fn admin_manages_strictly_below_and_views_own_rank() {
    let a = SubjectId::new(1);
    let b = SubjectId::new(2);
    // caller admin (level 4), target moderator (level 3), different ids
    assert!(can_view_user("admin", a, "moderator", b));
    assert!(can_manage_user("admin", "moderator"));
    // caller admin, target admin, different ids: viewable, not manageable
    assert!(can_view_user("admin", a, "admin", b));
    assert!(!can_manage_user("admin", "admin"));
    // admin never reaches the top rank
    assert!(!can_manage_user("admin", "superadmin"));
    assert!(can_view_user("admin", a, "superadmin", b) == false);
}

#[test]
fn below_admin_only_own_profile_is_visible() {
    let a = SubjectId::new(10);
    let b = SubjectId::new(20);
    for r in ["moderator", "contributor", "user", "translator", "intruder"] {
        assert!(can_view_user(r, a, "user", a));
        assert!(!can_view_user(r, a, "user", b), "canView({r})");
    }
    assert!(can_view_user("superadmin", a, "superadmin", b));
}

#[test]
fn assignable_roles_climb_no_ladder() {
    let sup = get_assignable_roles("superadmin");
    assert_eq!(
        sup,
        vec!["superadmin", "admin", "moderator", "contributor", "user"]
    );
    let adm = get_assignable_roles("admin");
    assert_eq!(adm, vec!["contributor", "user"]);
    assert!(!adm.contains(&"admin"));
    assert!(!adm.contains(&"superadmin"));
    for x in &adm {
        assert!(get_role_level(x) < get_role_level("admin"));
    }
    for r in ["moderator", "contributor", "user", "translator", "intruder"] {
        assert!(get_assignable_roles(r).is_empty());
    }
}

#[test]
fn role_assignment_follows_the_assignable_list() {
    assert!(can_assign_role("superadmin", "admin"));
    assert!(can_assign_role("superadmin", "superadmin"));
    assert!(!can_assign_role("superadmin", "translator"));
    assert!(can_assign_role("admin", "contributor"));
    assert!(can_assign_role("admin", "user"));
    assert!(!can_assign_role("admin", "admin"));
    assert!(!can_assign_role("admin", "moderator"));
    assert!(!can_assign_role("admin", "superadmin"));
    assert!(!can_assign_role("user", "user"));
}

#[test]
fn ownership_checks_are_independent_of_the_resource() {
    let a = SubjectId::new(7);
    let b = SubjectId::new(8);
    for r in ["moderator", "contributor", "user", "translator", "intruder"] {
        assert!(
            !can_modify_own_resource(r, a, Some(b)),
            "canModifyOwned({r})"
        );
        assert!(!can_delete_resource(r, a, Some(b)));
    }
    for r in ["contributor", "user", "translator", "intruder", "moderator"] {
        assert!(!can_modify_translation(r, a, Some(b)));
        assert!(!can_delete_translation(r, a, Some(b)));
    }
    // only the designated creator rank keeps ownership-based rights
    assert!(can_modify_own_resource("contributor", a, Some(a)));
    assert!(can_delete_resource("contributor", a, Some(a)));
    assert!(can_modify_translation("contributor", a, Some(a)));
    assert!(can_delete_translation("contributor", a, Some(a)));
    // every other low rank holds none, not even over its own resources
    assert!(!can_modify_own_resource("user", a, Some(a)));
    assert!(!can_modify_own_resource("moderator", a, Some(a)));
    assert!(!can_modify_translation("moderator", a, Some(a)));
    // the top two ranks need no ownership
    assert!(can_modify_translation("admin", a, Some(b)));
    assert!(can_modify_translation("superadmin", a, None));
    assert!(can_modify_own_resource("admin", a, None));
}

#[test]
fn reading_translations_is_open_and_management_is_gated() {
    for r in ALL_ROLES {
        assert!(can_read_translation(r));
    }
    assert!(can_access_user_management("superadmin"));
    assert!(can_access_user_management("admin"));
    assert!(!can_access_user_management("moderator"));
    assert!(!can_access_user_management("user"));
}

#[test]
fn user_data_access_is_rank_or_identity() {
    let a = SubjectId::new(100);
    let b = SubjectId::new(200);
    assert!(can_access_user_data("superadmin", a, b));
    assert!(can_access_user_data("admin", a, b));
    assert!(!can_access_user_data("moderator", a, b));
    assert!(can_access_user_data("moderator", a, a));
}
