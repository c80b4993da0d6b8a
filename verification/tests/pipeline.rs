//! Tests for the request pipeline: header extraction, the state machine,
//! identity resolution, extractors and gates.

use pnar_core::errors::{AuthError, ErrorClass};
use pnar_core::identity::{
    check_translation_modification_access, check_user_access, check_user_management_access,
    extract_bearer_token, present_token, require, resolve_identity, verify_presented,
    verify_request, AdminUser, AuthState, AuthenticatedUser, ContributorUser,
    HierarchyMiddleware, ManagerUser, ModeratorUser, RoleLookup, SuperAdminUser,
    TranslationManager,
};
use pnar_core::subject::SubjectId;
use pnar_core::token::TokenCodec;

const T0: i64 = 1_700_000_000;

fn codec() -> TokenCodec {
    TokenCodec::new("your-secret-key".to_string())
}

fn user(role: &str, id: u128) -> AuthenticatedUser {
    AuthenticatedUser {
        user_id: SubjectId::new(id),
        role: role.to_string(),
    }
}

#[test]
fn bearer_extraction() {
    assert_eq!(extract_bearer_token(None), None);
    assert_eq!(extract_bearer_token(Some("")), None);
    assert_eq!(extract_bearer_token(Some("Basic abc")), None);
    assert_eq!(extract_bearer_token(Some("Bearer")), None);
    assert_eq!(extract_bearer_token(Some("bearer abc")), None);
    assert_eq!(extract_bearer_token(Some("Bearer abc.def.ghi")), Some("abc.def.ghi".to_string()));
    assert_eq!(extract_bearer_token(Some("Bearer ")), Some("".to_string()));
}

#[test]
fn the_pipeline_attaches_an_identity() {
    let c = codec();
    let id = SubjectId::new(77);
    let token = c.generate_token(&id, T0).unwrap();
    let header = format!("Bearer {token}");

    let state = present_token(Some(&header));
    let state = match state {
        AuthState::TokenPresented(_) => verify_presented(state, &c, T0 + 10),
        other => panic!("expected a presented token, got {other:?}"),
    };
    match &state {
        AuthState::TokenVerified(s) => assert_eq!(*s, id),
        other => panic!("expected a verified token, got {other:?}"),
    }
    let state = resolve_identity(state, RoleLookup::Found("admin".to_string()));
    match state {
        AuthState::IdentityResolved(u) => {
            assert_eq!(u.user_id, id);
            assert_eq!(u.role, "admin");
        }
        other => panic!("expected a resolved identity, got {other:?}"),
    }
}

#[test]
fn a_missing_header_rejects_before_verification() {
    assert!(matches!(
        present_token(None),
        AuthState::Rejected(AuthError::MissingToken)
    ));
    assert!(matches!(
        present_token(Some("Token abc")),
        AuthState::Rejected(AuthError::MissingToken)
    ));
}

#[test]
fn an_expired_token_rejects_in_the_verify_step() {
    let c = codec();
    let id = SubjectId::new(5);
    let token = c.generate_token(&id, T0).unwrap();
    let header = format!("Bearer {token}");
    let state = present_token(Some(&header));
    let state = match state {
        AuthState::TokenPresented(_) => verify_presented(state, &c, T0 + 86400 + 1),
        other => panic!("unexpected {other:?}"),
    };
    assert!(matches!(
        state,
        AuthState::Rejected(AuthError::InvalidToken)
    ));
}

#[test]
fn an_unknown_subject_surfaces_as_unauthenticated() {
    let c = codec();
    let id = SubjectId::new(123);
    let token = c.generate_token(&id, T0).unwrap();
    let header = format!("Bearer {token}");
    let state = present_token(Some(&header));
    let state = match state {
        AuthState::TokenPresented(_) => verify_presented(state, &c, T0),
        other => panic!("unexpected {other:?}"),
    };
    let state = match state {
        AuthState::TokenVerified(_) => resolve_identity(state, RoleLookup::NotFound),
        other => panic!("unexpected {other:?}"),
    };
    match state {
        AuthState::Rejected(e) => {
            assert_eq!(e, AuthError::UnknownSubject);
            // indistinguishable from a missing token at the boundary
            assert_eq!(e.class(), AuthError::MissingToken.class());
            assert_eq!(e.class(), ErrorClass::Unauthenticated);
        }
        other => panic!("unexpected {other:?}"),
    }
}

#[test]
fn an_unreachable_store_degrades_to_the_lowest_privilege() {
    let c = codec();
    let id = SubjectId::new(9);
    let token = c.generate_token(&id, T0).unwrap();
    let header = format!("Bearer {token}");
    let state = present_token(Some(&header));
    let state = verify_presented(state, &c, T0);
    let state = match state {
        AuthState::TokenVerified(_) => resolve_identity(state, RoleLookup::Unavailable),
        other => panic!("unexpected {other:?}"),
    };
    match state {
        AuthState::IdentityResolved(u) => {
            assert_eq!(u.user_id, id);
            assert_eq!(u.role, "user");
            assert!(!u.can_manage_users());
        }
        other => panic!("unexpected {other:?}"),
    }
}

#[test]
fn extractors_distinguish_forbidden_from_unauthenticated() {
    let admin = user("admin", 1);
    assert!(AdminUser::from_context(Some(admin.clone())).is_ok());
    assert_eq!(
        SuperAdminUser::from_context(Some(admin.clone())).unwrap_err(),
        AuthError::InsufficientPrivilege
    );
    assert_eq!(
        SuperAdminUser::from_context(None).unwrap_err(),
        AuthError::MissingToken
    );
    assert_eq!(
        AuthError::InsufficientPrivilege.class(),
        ErrorClass::Forbidden
    );
    assert_eq!(AuthError::MissingToken.class(), ErrorClass::Unauthenticated);
}

#[test]
fn each_extractor_draws_its_own_line() {
    let cases: [(&str, bool, bool, bool, bool, bool, bool); 6] = [
        // role, superadmin, admin, moderator, contributor, manager, translation
        ("superadmin", true, true, true, true, true, true),
        ("admin", false, true, true, true, true, true),
        ("moderator", false, false, true, true, false, false),
        ("contributor", false, false, false, true, false, true),
        ("user", false, false, false, false, false, false),
        ("translator", false, false, false, false, false, false),
    ];
    for (role, sup, adm, m, c, mgr, tr) in cases {
        let u = user(role, 50);
        assert_eq!(SuperAdminUser::from_context(Some(u.clone())).is_ok(), sup, "{role}");
        assert_eq!(AdminUser::from_context(Some(u.clone())).is_ok(), adm, "{role}");
        assert_eq!(ModeratorUser::from_context(Some(u.clone())).is_ok(), m, "{role}");
        assert_eq!(ContributorUser::from_context(Some(u.clone())).is_ok(), c, "{role}");
        assert_eq!(ManagerUser::from_context(Some(u.clone())).is_ok(), mgr, "{role}");
        assert_eq!(TranslationManager::from_context(Some(u.clone())).is_ok(), tr, "{role}");
    }
}

#[test]
fn the_hierarchy_gate_checks_levels() {
    let gate = HierarchyMiddleware::admin();
    assert_eq!(gate.required_role, "admin");
    assert_eq!(gate.authorize(Some(&user("superadmin", 1))), Ok(()));
    assert_eq!(gate.authorize(Some(&user("admin", 1))), Ok(()));
    assert_eq!(
        gate.authorize(Some(&user("moderator", 1))),
        Err(AuthError::InsufficientPrivilege)
    );
    assert_eq!(gate.authorize(None), Err(AuthError::MissingToken));
    assert_eq!(HierarchyMiddleware::superadmin().required_role, "superadmin");
    assert_eq!(HierarchyMiddleware::contributor().required_role, "contributor");
    assert_eq!(HierarchyMiddleware::user().required_role, "user");
    assert_eq!(HierarchyMiddleware::new("moderator").required_role, "moderator");
}

#[test]
fn require_enforces_a_minimum_role() {
    assert_eq!(require(&user("moderator", 1), "user"), Ok(()));
    assert_eq!(
        require(&user("user", 1), "moderator"),
        Err(AuthError::InsufficientPrivilege)
    );
}

#[test]
fn identity_capability_methods_follow_the_levels() {
    let m = user("moderator", 4);
    assert!(m.is_moderator() && m.is_contributor());
    assert!(!m.is_admin() && !m.is_superadmin());
    assert!(m.can_modify_dictionary() && m.can_verify_dictionary());
    assert!(m.can_review_translations() && m.can_review_contributions());
    assert!(m.can_access_analytics());
    assert!(!m.can_manage_users() && !m.can_delete_any_content());
    assert_eq!(m.role_level(), 3);
    assert!(m.has_role_level(3) && !m.has_role_level(4));

    let c = user("contributor", 5);
    assert!(c.can_modify_dictionary() && !c.can_verify_dictionary());
    assert!(c.can_modify_translation(Some(SubjectId::new(5))));
    assert!(!c.can_modify_translation(Some(SubjectId::new(6))));
    assert!(!c.can_delete_translation(None));
}

#[test]
fn access_helpers_shape_the_errors() {
    let admin = user("admin", 1);
    let other = SubjectId::new(2);
    assert_eq!(check_user_access(&admin, other, Some("moderator")), Ok(()));
    assert_eq!(check_user_access(&admin, other, None), Ok(()));
    let plain = user("user", 3);
    assert_eq!(
        check_user_access(&plain, other, Some("user")),
        Err(AuthError::InsufficientPrivilege)
    );
    assert_eq!(check_user_access(&plain, SubjectId::new(3), None), Ok(()));
    assert_eq!(check_user_management_access(&admin, "contributor"), Ok(()));
    assert_eq!(
        check_user_management_access(&admin, "admin"),
        Err(AuthError::InsufficientPrivilege)
    );
    assert_eq!(
        check_translation_modification_access(&plain, Some(SubjectId::new(3))),
        Err(AuthError::InsufficientPrivilege)
    );
    assert_eq!(
        check_translation_modification_access(&admin, None),
        Ok(())
    );
}

#[test]
fn verify_request_is_the_single_entry_point() {
    let c = codec();
    let id = SubjectId::new(314);
    let token = c.generate_token(&id, T0).unwrap();
    let header = format!("Bearer {token}");
    assert_eq!(verify_request(Some(&header), &c, T0 + 5), Ok(id));
    assert_eq!(
        verify_request(Some(&header), &c, T0 + 86400),
        Err(AuthError::InvalidToken)
    );
    assert_eq!(verify_request(None, &c, T0), Err(AuthError::MissingToken));
    assert_eq!(
        verify_request(Some("Basic zzz"), &c, T0),
        Err(AuthError::MissingToken)
    );
    assert_eq!(
        verify_request(Some("Bearer junk"), &c, T0),
        Err(AuthError::InvalidToken)
    );
}

#[test]
fn rejection_statuses_match_the_boundary_contract() {
    assert_eq!(AuthError::MissingToken.class().status_code(), 401);
    assert_eq!(AuthError::InvalidToken.class().status_code(), 401);
    assert_eq!(AuthError::UnknownSubject.class().status_code(), 401);
    assert_eq!(AuthError::InsufficientPrivilege.class().status_code(), 403);
    assert_eq!(AuthError::UnknownSubject.error_code(), "UNAUTHORIZED");
    assert_eq!(AuthError::MissingToken.error_code(), "UNAUTHORIZED");
    assert_eq!(AuthError::InsufficientPrivilege.error_code(), "FORBIDDEN");
}

#[test]
fn can_access_user_without_a_target_role() {
    let admin = user("admin", 1);
    let plain = user("user", 2);
    assert!(admin.can_access_user(SubjectId::new(9), None));
    assert!(!plain.can_access_user(SubjectId::new(9), None));
    assert!(plain.can_access_user(SubjectId::new(2), None));
    assert!(plain.can_access_user(SubjectId::new(2), Some("user")));
}
