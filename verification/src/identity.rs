//! The request identity context and the per-request authentication pipeline.
//!
//! A request carries at most one identity: subject id plus role, attached
//! once after token verification and role resolution, immutable afterwards.
//! The pipeline is a strictly sequential state machine: a bearer token is
//! extracted from the `Authorization` header, verified, its subject
//! resolved to a live role, and only then is the identity attached; any
//! failure short-circuits into a terminal rejection. The role is looked up
//! fresh on every request, so a role change takes effect on the very next
//! request; if the role store is unreachable the pipeline degrades to the
//! lowest-privilege role rather than failing open.

use vstd::prelude::*;
use vstd::string::{StrSliceExecFns, StringExecFns};

use crate::authorization::{
    can_manage_user, can_modify_translation, can_view_user, get_role_level, require_role,
    spec_can_manage_user, spec_can_modify_owned, spec_can_view_user, spec_has_minimum_level,
    spec_role_level,
};
use crate::errors::AuthError;
use crate::strutil::str_eq;
use crate::subject::SubjectId;
use crate::token::TokenCodec;
use crate::token::token_of;
use crate::subject::spec_subject_string;

verus! {

/// The identity attached to a request: subject id and the role it resolved
/// to when the request arrived.
#[derive(Clone, Debug)]
pub struct AuthenticatedUser {
    pub user_id: SubjectId,
    pub role: String,
}

impl AuthenticatedUser {
    /// Check if the user has superadmin role (highest level access).
    pub fn is_superadmin(&self) -> (r: bool)
        ensures
            r == (spec_role_level(self.role@) == 5),
    {
        get_role_level(self.role.as_str()) == 5
    }

    /// Check if the user has admin role or higher.
    pub fn is_admin(&self) -> (r: bool)
        ensures
            r == (spec_role_level(self.role@) >= 4),
    {
        get_role_level(self.role.as_str()) >= 4
    }

    /// Check if the user has moderator role or higher.
    pub fn is_moderator(&self) -> (r: bool)
        ensures
            r == (spec_role_level(self.role@) >= 3),
    {
        get_role_level(self.role.as_str()) >= 3
    }

    /// Check if the user has contributor role or higher.
    pub fn is_contributor(&self) -> (r: bool)
        ensures
            r == (spec_role_level(self.role@) >= 2),
    {
        get_role_level(self.role.as_str()) >= 2
    }

    /// Check if the user can access another user's data based on hierarchy;
    /// with no role known for the target, only the top two ranks reach
    /// beyond their own data.
    pub fn can_access_user(&self, target_user_id: SubjectId, target_role: Option<&str>) -> (r:
        bool)
        ensures
            target_role matches Some(t) ==> r == spec_can_view_user(
                self.role@,
                self.user_id,
                t@,
                target_user_id,
            ),
            target_role is None ==> r == (spec_role_level(self.role@) >= 4 || self.user_id
                == target_user_id),
    {
        match target_role {
            Some(role) => can_view_user(self.role.as_str(), self.user_id, role, target_user_id),
            None => self.is_admin() || self.user_id == target_user_id,
        }
    }

    /// Check if the user can manage another user based on role hierarchy.
    pub fn can_manage_user(&self, target_role: &str) -> (r: bool)
        ensures
            r == spec_can_manage_user(self.role@, target_role@),
    {
        can_manage_user(self.role.as_str(), target_role)
    }

    /// Check if the user can modify dictionary entries: contributors and above.
    pub fn can_modify_dictionary(&self) -> (r: bool)
        ensures
            r == (spec_role_level(self.role@) >= 2),
    {
        self.is_contributor()
    }

    /// Check if the user can verify dictionary entries: moderators and above.
    pub fn can_verify_dictionary(&self) -> (r: bool)
        ensures
            r == (spec_role_level(self.role@) >= 3),
    {
        self.is_moderator()
    }

    /// Check if the user can modify translations based on ownership.
    pub fn can_modify_translation(&self, translation_owner: Option<SubjectId>) -> (r: bool)
        ensures
            r == spec_can_modify_owned(self.role@, self.user_id, translation_owner),
    {
        can_modify_translation(self.role.as_str(), self.user_id, translation_owner)
    }

    /// Check if the user can delete translations based on ownership.
    pub fn can_delete_translation(&self, translation_owner: Option<SubjectId>) -> (r: bool)
        ensures
            r == spec_can_modify_owned(self.role@, self.user_id, translation_owner),
    {
        can_modify_translation(self.role.as_str(), self.user_id, translation_owner)
    }

    /// Check if the user can review translations: contributors and above.
    pub fn can_review_translations(&self) -> (r: bool)
        ensures
            r == (spec_role_level(self.role@) >= 2),
    {
        self.is_contributor()
    }

    /// Check if the user can review contributions: moderators and above.
    pub fn can_review_contributions(&self) -> (r: bool)
        ensures
            r == (spec_role_level(self.role@) >= 3),
    {
        self.is_moderator()
    }

    /// Check if the user can access analytics data: moderators and above.
    pub fn can_access_analytics(&self) -> (r: bool)
        ensures
            r == (spec_role_level(self.role@) >= 3),
    {
        self.is_moderator()
    }

    /// Check if the user can manage other users: only the top two ranks.
    pub fn can_manage_users(&self) -> (r: bool)
        ensures
            r == (spec_role_level(self.role@) >= 4),
    {
        self.is_admin()
    }

    /// Check if the user can delete any content: admins and above.
    pub fn can_delete_any_content(&self) -> (r: bool)
        ensures
            r == (spec_role_level(self.role@) >= 4),
    {
        self.is_admin()
    }

    /// Get role hierarchy level (higher number = more permissions).
    pub fn role_level(&self) -> (level: u8)
        ensures
            level == spec_role_level(self.role@),
    {
        get_role_level(self.role.as_str())
    }

    /// Check if user has at least the specified role level.
    pub fn has_role_level(&self, required_level: u8) -> (r: bool)
        ensures
            r == (spec_role_level(self.role@) >= required_level),
    {
        self.role_level() >= required_level
    }
}

/// Typed wrapper holding an identity of the top rank.
#[derive(Clone, Debug)]
pub struct SuperAdminUser(pub AuthenticatedUser);

impl SuperAdminUser {
    /// Grant the identity if it holds the top rank; fail closed with
    /// forbidden on an attached identity that falls short, and with
    /// unauthenticated when no identity is attached at all.
    pub fn from_context(user: Option<AuthenticatedUser>) -> (r: Result<SuperAdminUser, AuthError>)
        ensures
            user matches Some(u) ==> (spec_role_level(u.role@) == 5 ==> (r matches Ok(g) && g.0 == u)),
            user matches Some(u) && spec_role_level(u.role@) != 5 ==> r == Err::<
                SuperAdminUser,
                AuthError,
            >(AuthError::InsufficientPrivilege),
            user is None ==> r == Err::<SuperAdminUser, AuthError>(AuthError::MissingToken),
    {
        match user {
            Some(u) => if u.is_superadmin() {
                Ok(SuperAdminUser(u))
            } else {
                Err(AuthError::InsufficientPrivilege)
            },
            None => Err(AuthError::MissingToken),
        }
    }
}

/// Typed wrapper holding an identity of admin rank or above.
#[derive(Clone, Debug)]
pub struct AdminUser(pub AuthenticatedUser);

impl AdminUser {
    /// Grant the identity if it holds admin rank or above; fail closed
    /// otherwise, distinguishing forbidden from unauthenticated.
    pub fn from_context(user: Option<AuthenticatedUser>) -> (r: Result<AdminUser, AuthError>)
        ensures
            user matches Some(u) ==> (spec_role_level(u.role@) >= 4 ==> (r matches Ok(g) && g.0 == u)),
            user matches Some(u) && spec_role_level(u.role@) < 4 ==> r == Err::<
                AdminUser,
                AuthError,
            >(AuthError::InsufficientPrivilege),
            user is None ==> r == Err::<AdminUser, AuthError>(AuthError::MissingToken),
    {
        match user {
            Some(u) => if u.is_admin() {
                Ok(AdminUser(u))
            } else {
                Err(AuthError::InsufficientPrivilege)
            },
            None => Err(AuthError::MissingToken),
        }
    }
}

/// Typed wrapper holding an identity of moderator rank or above.
#[derive(Clone, Debug)]
pub struct ModeratorUser(pub AuthenticatedUser);

impl ModeratorUser {
    /// Grant the identity if it holds moderator rank or above; fail closed
    /// otherwise, distinguishing forbidden from unauthenticated.
    pub fn from_context(user: Option<AuthenticatedUser>) -> (r: Result<ModeratorUser, AuthError>)
        ensures
            user matches Some(u) ==> (spec_role_level(u.role@) >= 3 ==> (r matches Ok(g) && g.0 == u)),
            user matches Some(u) && spec_role_level(u.role@) < 3 ==> r == Err::<
                ModeratorUser,
                AuthError,
            >(AuthError::InsufficientPrivilege),
            user is None ==> r == Err::<ModeratorUser, AuthError>(AuthError::MissingToken),
    {
        match user {
            Some(u) => if u.is_moderator() {
                Ok(ModeratorUser(u))
            } else {
                Err(AuthError::InsufficientPrivilege)
            },
            None => Err(AuthError::MissingToken),
        }
    }
}

/// Typed wrapper holding an identity of contributor rank or above.
#[derive(Clone, Debug)]
pub struct ContributorUser(pub AuthenticatedUser);

impl ContributorUser {
    /// Grant the identity if it holds contributor rank or above; fail closed
    /// otherwise, distinguishing forbidden from unauthenticated.
    pub fn from_context(user: Option<AuthenticatedUser>) -> (r: Result<ContributorUser, AuthError>)
        ensures
            user matches Some(u) ==> (spec_role_level(u.role@) >= 2 ==> (r matches Ok(g) && g.0 == u)),
            user matches Some(u) && spec_role_level(u.role@) < 2 ==> r == Err::<
                ContributorUser,
                AuthError,
            >(AuthError::InsufficientPrivilege),
            user is None ==> r == Err::<ContributorUser, AuthError>(AuthError::MissingToken),
    {
        match user {
            Some(u) => if u.is_contributor() {
                Ok(ContributorUser(u))
            } else {
                Err(AuthError::InsufficientPrivilege)
            },
            None => Err(AuthError::MissingToken),
        }
    }
}

/// Typed wrapper holding an identity with user-management privileges.
#[derive(Clone, Debug)]
pub struct ManagerUser(pub AuthenticatedUser);

impl ManagerUser {
    /// Grant the identity if it may manage users (top two ranks); fail
    /// closed otherwise, distinguishing forbidden from unauthenticated.
    pub fn from_context(user: Option<AuthenticatedUser>) -> (r: Result<ManagerUser, AuthError>)
        ensures
            user matches Some(u) ==> (spec_role_level(u.role@) >= 4 ==> (r matches Ok(g) && g.0 == u)),
            user matches Some(u) && spec_role_level(u.role@) < 4 ==> r == Err::<
                ManagerUser,
                AuthError,
            >(AuthError::InsufficientPrivilege),
            user is None ==> r == Err::<ManagerUser, AuthError>(AuthError::MissingToken),
    {
        match user {
            Some(u) => if u.can_manage_users() {
                Ok(ManagerUser(u))
            } else {
                Err(AuthError::InsufficientPrivilege)
            },
            None => Err(AuthError::MissingToken),
        }
    }
}

/// Typed wrapper holding an identity allowed to manage translations: the
/// top two ranks and the contributor rank.
#[derive(Clone, Debug)]
pub struct TranslationManager(pub AuthenticatedUser);

impl TranslationManager {
    /// Grant the identity if its rank manages translations; fail closed
    /// otherwise, distinguishing forbidden from unauthenticated.
    pub fn from_context(user: Option<AuthenticatedUser>) -> (r: Result<
        TranslationManager,
        AuthError,
    >)
        ensures
            user matches Some(u) ==> ((spec_role_level(u.role@) >= 4 || spec_role_level(u.role@)
                == 2) ==> (r matches Ok(g) && g.0 == u)),
            user matches Some(u) && !(spec_role_level(u.role@) >= 4 || spec_role_level(u.role@)
                == 2) ==> r == Err::<TranslationManager, AuthError>(
                AuthError::InsufficientPrivilege,
            ),
            user is None ==> r == Err::<TranslationManager, AuthError>(AuthError::MissingToken),
    {
        match user {
            Some(u) => {
                let level = u.role_level();
                if level >= 4 || level == 2 {
                    Ok(TranslationManager(u))
                } else {
                    Err(AuthError::InsufficientPrivilege)
                }
            },
            None => Err(AuthError::MissingToken),
        }
    }
}

/// Declarative guard requiring a minimum role for a group of handlers.
#[derive(Clone, Debug)]
pub struct HierarchyMiddleware {
    pub required_role: String,
}

impl HierarchyMiddleware {
    pub fn new(required_role: &str) -> (m: HierarchyMiddleware)
        ensures
            m.required_role@ == required_role@,
    {
        HierarchyMiddleware { required_role: String::from_str(required_role) }
    }

    /// Create middleware that requires superadmin access.
    pub fn superadmin() -> (m: HierarchyMiddleware)
        ensures
            m.required_role@ == "superadmin"@,
    {
        Self::new("superadmin")
    }

    /// Create middleware that requires admin access (admin or superadmin).
    pub fn admin() -> (m: HierarchyMiddleware)
        ensures
            m.required_role@ == "admin"@,
    {
        Self::new("admin")
    }

    /// Create middleware that requires contributor access (contributor or above).
    pub fn contributor() -> (m: HierarchyMiddleware)
        ensures
            m.required_role@ == "contributor"@,
    {
        Self::new("contributor")
    }

    /// Create middleware that requires user access (any authenticated user).
    pub fn user() -> (m: HierarchyMiddleware)
        ensures
            m.required_role@ == "user"@,
    {
        Self::new("user")
    }

    /// The enforcement step: accept an attached identity that meets the
    /// required level, reject a lesser one as forbidden, and reject a
    /// request with no identity as unauthenticated.
    pub fn authorize(&self, user: Option<&AuthenticatedUser>) -> (r: Result<(), AuthError>)
        ensures
            user matches Some(u) && spec_has_minimum_level(u.role@, self.required_role@) ==> r
                == Ok::<(), AuthError>(()),
            user matches Some(u) && !spec_has_minimum_level(u.role@, self.required_role@) ==> r
                == Err::<(), AuthError>(AuthError::InsufficientPrivilege),
            user is None ==> r == Err::<(), AuthError>(AuthError::MissingToken),
    {
        match user {
            Some(u) => require_role(u.role.as_str(), self.required_role.as_str()),
            None => Err(AuthError::MissingToken),
        }
    }
}

/// Enforce a minimum role on an already-attached identity.
pub fn require(user: &AuthenticatedUser, min_role: &str) -> (r: Result<(), AuthError>)
    ensures
        spec_has_minimum_level(user.role@, min_role@) ==> r == Ok::<(), AuthError>(()),
        !spec_has_minimum_level(user.role@, min_role@) ==> r == Err::<(), AuthError>(
            AuthError::InsufficientPrivilege,
        ),
{
    require_role(user.role.as_str(), min_role)
}

/// Helper function to check if user can access a specific user resource.
pub fn check_user_access(
    current_user: &AuthenticatedUser,
    target_user_id: SubjectId,
    target_role: Option<&str>,
) -> (r: Result<(), AuthError>)
    ensures
        target_role matches Some(t) ==> (r == Ok::<(), AuthError>(()) <==> spec_can_view_user(
            current_user.role@,
            current_user.user_id,
            t@,
            target_user_id,
        )),
        target_role is None ==> (r == Ok::<(), AuthError>(()) <==> (spec_role_level(
            current_user.role@,
        ) >= 4 || current_user.user_id == target_user_id)),
        r matches Err(e) ==> e == AuthError::InsufficientPrivilege,
{
    if !current_user.can_access_user(target_user_id, target_role) {
        return Err(AuthError::InsufficientPrivilege);
    }
    Ok(())
}

/// Helper function to check if user can manage a specific user.
pub fn check_user_management_access(current_user: &AuthenticatedUser, target_role: &str) -> (r:
    Result<(), AuthError>)
    ensures
        r == Ok::<(), AuthError>(()) <==> spec_can_manage_user(current_user.role@, target_role@),
        r matches Err(e) ==> e == AuthError::InsufficientPrivilege,
{
    if !current_user.can_manage_user(target_role) {
        return Err(AuthError::InsufficientPrivilege);
    }
    Ok(())
}

/// Helper function to check translation ownership for modification.
pub fn check_translation_modification_access(
    current_user: &AuthenticatedUser,
    translation_owner: Option<SubjectId>,
) -> (r: Result<(), AuthError>)
    ensures
        r == Ok::<(), AuthError>(()) <==> spec_can_modify_owned(
            current_user.role@,
            current_user.user_id,
            translation_owner,
        ),
        r matches Err(e) ==> e == AuthError::InsufficientPrivilege,
{
    if !current_user.can_modify_translation(translation_owner) {
        return Err(AuthError::InsufficientPrivilege);
    }
    Ok(())
}

/// The bearer token inside an `Authorization` header value, if the value
/// uses the bearer scheme.
pub open spec fn spec_bearer_of(h: Seq<char>) -> Option<Seq<char>> {
    if h.len() >= 7 && h.subrange(0, 7) == "Bearer "@ {
        Some(h.skip(7))
    } else {
        None
    }
}

/// Extract the bearer token from an `Authorization` header value.
pub fn extract_bearer_token(header: Option<&str>) -> (r: Option<String>)
    ensures
        header is None ==> r is None,
        header matches Some(h) ==> (match spec_bearer_of(h@) {
            Some(t) => r matches Some(s) && s@ == t,
            None => r is None,
        }),
{
    let h = match header {
        Some(h) => h,
        None => {
            return None;
        },
    };
    let n = h.unicode_len();
    if n < 7 {
        return None;
    }
    let prefix = h.substring_char(0, 7);
    if !str_eq(prefix, "Bearer ") {
        return None;
    }
    let token = h.substring_char(7, n);
    Some(String::from_str(token))
}

/// How the role store answered a subject lookup.
#[derive(Clone, Debug)]
pub enum RoleLookup {
    /// The subject exists and currently holds this role.
    Found(String),
    /// The subject does not exist.
    NotFound,
    /// The store could not be reached.
    Unavailable,
}

/// The per-request pipeline, one state per stage; `Rejected` and
/// `IdentityResolved` are terminal. Transitions are strictly sequential and
/// non-retryable within a request; a new request starts over.
#[derive(Clone, Debug)]
pub enum AuthState {
    /// Initial: no identity established.
    Unauthenticated,
    /// A bearer token string was extracted from the header.
    TokenPresented(String),
    /// The codec accepted the token; the subject is known.
    TokenVerified(SubjectId),
    /// Terminal success: the identity is attached to the request.
    IdentityResolved(AuthenticatedUser),
    /// Terminal failure: the request short-circuits before handler logic.
    Rejected(AuthError),
}

/// First transition: extract a bearer token from the header, or reject the
/// request as unauthenticated.
pub fn present_token(header: Option<&str>) -> (r: AuthState)
    ensures
        header is None ==> r == AuthState::Rejected(AuthError::MissingToken),
        header matches Some(h) ==> (match spec_bearer_of(h@) {
            Some(t) => r matches AuthState::TokenPresented(s) && s@ == t,
            None => r == AuthState::Rejected(AuthError::MissingToken),
        }),
{
    match extract_bearer_token(header) {
        Some(token) => AuthState::TokenPresented(token),
        None => AuthState::Rejected(AuthError::MissingToken),
    }
}

/// Second transition: verify the presented token at check time `now` and
/// parse its subject. A token the codec issued for a subject is accepted
/// before its expiry and carries that subject through; an expired, forged or
/// malformed one rejects the request, all under the same error.
pub fn verify_presented(state: AuthState, codec: &TokenCodec, now: i64) -> (r: AuthState)
    requires
        state matches AuthState::TokenPresented(_),
    ensures
        forall|v: u128, iat: i64, exp: i64|
            #[trigger] token_of(spec_subject_string(v), iat, exp, codec.spec_secret())
                == state->TokenPresented_0@ && now < exp ==> r == AuthState::TokenVerified(
                (SubjectId { value: v }),
            ),
        forall|sub: Seq<char>, iat: i64, exp: i64|
            #[trigger] token_of(sub, iat, exp, codec.spec_secret()) == state->TokenPresented_0@
                && now >= exp ==> r == AuthState::Rejected(AuthError::InvalidToken),
        forall|sub: Seq<char>, iat: i64, exp: i64|
            #[trigger] token_of(sub, iat, exp, codec.spec_secret()) == state->TokenPresented_0@
                && (forall|v: u128| sub != spec_subject_string(v)) ==> r == AuthState::Rejected(
                AuthError::InvalidToken,
            ),
        r matches AuthState::TokenVerified(_) || r matches AuthState::Rejected(_),
        r matches AuthState::Rejected(e) ==> e == AuthError::InvalidToken,
{
    let token = match state {
        AuthState::TokenPresented(t) => t,
        _ => {
            return AuthState::Rejected(AuthError::InvalidToken);
        },
    };
    match codec.verify_token(token.as_str(), now) {
        Ok(claims) => match claims.user_id() {
            Ok(subject) => AuthState::TokenVerified(subject),
            Err(_) => AuthState::Rejected(AuthError::InvalidToken),
        },
        Err(_) => AuthState::Rejected(AuthError::InvalidToken),
    }
}

/// The single entry point the routing layer calls before dispatch: extract
/// the bearer token and verify it at check time `now`, yielding the subject
/// whose role the caller then resolves (`resolve_identity` finishes the
/// pipeline once the store has answered).
///
/// A request without a bearer credential is rejected as unauthenticated
/// before any verification; a token issued under this codec's secret is
/// accepted strictly before its expiry and rejected from the expiry on; and
/// whatever else is presented fails under the one invalid-token error.
pub fn verify_request(header: Option<&str>, codec: &TokenCodec, now: i64) -> (r: Result<
    SubjectId,
    AuthError,
>)
    ensures
        header is None ==> r == Err::<SubjectId, AuthError>(AuthError::MissingToken),
        header matches Some(h) ==> (match spec_bearer_of(h@) {
            Some(t) => {
                &&& forall|v: u128, iat: i64, exp: i64|
                    #[trigger] token_of(spec_subject_string(v), iat, exp, codec.spec_secret())
                        == t && now < exp ==> r == Ok::<SubjectId, AuthError>(
                        (SubjectId { value: v }),
                    )
                &&& forall|sub: Seq<char>, iat: i64, exp: i64|
                    #[trigger] token_of(sub, iat, exp, codec.spec_secret()) == t && now >= exp
                        ==> r == Err::<SubjectId, AuthError>(AuthError::InvalidToken)
                &&& (r matches Err(e) ==> e == AuthError::InvalidToken)
            },
            None => r == Err::<SubjectId, AuthError>(AuthError::MissingToken),
        }),
{
    let state = present_token(header);
    match state {
        AuthState::TokenPresented(_) => {
            match verify_presented(state, codec, now) {
                AuthState::TokenVerified(subject) => Ok(subject),
                _ => Err(AuthError::InvalidToken),
            }
        },
        _ => Err(AuthError::MissingToken),
    }
}

/// Final transition: attach the identity under the subject's current role.
/// A missing subject rejects the request as unauthenticated; an unreachable
/// store degrades to the lowest-privilege role - privilege is never granted
/// on an authorization-source failure.
pub fn resolve_identity(state: AuthState, lookup: RoleLookup) -> (r: AuthState)
    requires
        state matches AuthState::TokenVerified(_),
    ensures
        lookup matches RoleLookup::Found(role) ==> r == AuthState::IdentityResolved(
            (AuthenticatedUser { user_id: state->TokenVerified_0, role }),
        ),
        lookup is NotFound ==> r == AuthState::Rejected(AuthError::UnknownSubject),
        lookup is Unavailable ==> (r matches AuthState::IdentityResolved(u) && u.user_id
            == state->TokenVerified_0 && u.role@ == "user"@),
{
    let subject = match state {
        AuthState::TokenVerified(s) => s,
        _ => {
            return AuthState::Rejected(AuthError::InvalidToken);
        },
    };
    match lookup {
        RoleLookup::Found(role) => AuthState::IdentityResolved(
            AuthenticatedUser { user_id: subject, role },
        ),
        RoleLookup::NotFound => AuthState::Rejected(AuthError::UnknownSubject),
        RoleLookup::Unavailable => AuthState::IdentityResolved(
            AuthenticatedUser { user_id: subject, role: String::from_str("user") },
        ),
    }
}

} // verus!

