//! The static role table: ordered roles with hierarchy levels and coarse
//! capability flags.
//!
//! This table is richer than the access-decision hierarchy in
//! `authorization`: it also defines the `translator` rank and carries
//! display metadata and capability flags for callers that want
//! capability-based rather than level-based checks. The flags are
//! informational; the core enforces levels, not flags.

use vstd::prelude::*;

use crate::strutil::str_eq;

verus! {

/// User role information.
#[derive(Clone, Debug)]
pub struct RoleInfo {
    pub role_id: &'static str,
    pub display_name: &'static str,
    pub description: &'static str,
    pub hierarchy_level: u8,
    pub can_manage_users: bool,
    pub can_manage_dictionary: bool,
    pub can_manage_translations: bool,
}

/// User role enum for type safety.
#[derive(Clone, Copy, Debug, PartialEq, Eq, Structural)]
pub enum UserRole {
    SuperAdmin,
    Admin,
    Moderator,
    Translator,
    Contributor,
    User,
}

/// Hierarchy level a role string holds in the application role table; 0 for
/// a string outside the table.
pub open spec fn spec_app_level(role: Seq<char>) -> int {
    if role == "superadmin"@ {
        6
    } else if role == "admin"@ {
        5
    } else if role == "moderator"@ {
        4
    } else if role == "translator"@ {
        3
    } else if role == "contributor"@ {
        2
    } else if role == "user"@ {
        1
    } else {
        0
    }
}

/// A role string is defined exactly when the table ranks it above 0.
pub open spec fn spec_is_valid_role(role: Seq<char>) -> bool {
    spec_app_level(role) >= 1
}

/// The role identifier at a given position of the table, ordered from the
/// highest rank down.
pub open spec fn spec_role_id_at(i: int) -> Seq<char> {
    if i == 0 {
        "superadmin"@
    } else if i == 1 {
        "admin"@
    } else if i == 2 {
        "moderator"@
    } else if i == 3 {
        "translator"@
    } else if i == 4 {
        "contributor"@
    } else {
        "user"@
    }
}

/// The display name of a role string in the table; a string outside the
/// table is displayed as the lowest rank.
pub open spec fn spec_role_display_name(role: Seq<char>) -> Seq<char> {
    if role == "superadmin"@ {
        "Super Administrator"@
    } else if role == "admin"@ {
        "Administrator"@
    } else if role == "moderator"@ {
        "Moderator"@
    } else if role == "translator"@ {
        "Translator"@
    } else if role == "contributor"@ {
        "Contributor"@
    } else {
        "User"@
    }
}

/// The description of a role string in the table; a string outside the table
/// is described as the lowest rank.
pub open spec fn spec_role_description(role: Seq<char>) -> Seq<char> {
    if role == "superadmin"@ {
        "Complete system control with all privileges"@
    } else if role == "admin"@ {
        "System administration with user and content management"@
    } else if role == "moderator"@ {
        "Content moderation and translation review"@
    } else if role == "translator"@ {
        "Create and manage own translations"@
    } else if role == "contributor"@ {
        "Submit translation suggestions and contributions"@
    } else {
        "Basic user with read access"@
    }
}

/// A table row is fully determined by its role id: the level ranks it, the
/// capability flags follow the level (user management for the top two ranks,
/// dictionary management for the top three, translation management for the
/// top four), and the display metadata is the table's.
pub open spec fn spec_table_row_consistent(info: RoleInfo) -> bool {
    &&& info.hierarchy_level as int == spec_app_level(info.role_id@)
    &&& info.can_manage_users == (spec_app_level(info.role_id@) >= 5)
    &&& info.can_manage_dictionary == (spec_app_level(info.role_id@) >= 4)
    &&& info.can_manage_translations == (spec_app_level(info.role_id@) >= 3)
    &&& info.display_name@ == spec_role_display_name(info.role_id@)
    &&& info.description@ == spec_role_description(info.role_id@)
}

/// The levels of the six defined role strings, spelled out for concrete
/// reasoning.
pub proof fn lemma_app_levels()
    ensures
        spec_app_level("superadmin"@) == 6,
        spec_app_level("admin"@) == 5,
        spec_app_level("moderator"@) == 4,
        spec_app_level("translator"@) == 3,
        spec_app_level("contributor"@) == 2,
        spec_app_level("user"@) == 1,
{
    reveal_strlit("superadmin");
    reveal_strlit("admin");
    reveal_strlit("moderator");
    reveal_strlit("translator");
    reveal_strlit("contributor");
    reveal_strlit("user");
    assert("superadmin"@.len() == 10);
    assert("admin"@.len() == 5);
    assert("moderator"@.len() == 9);
    assert("translator"@.len() == 10);
    assert("contributor"@.len() == 11);
    assert("user"@.len() == 4);
    assert("translator"@[0] == 't' && "superadmin"@[0] == 's');
}

/// Get role information by role_id.
pub fn get_role_info(role_id: &str) -> (r: Option<RoleInfo>)
    ensures
        r is Some <==> spec_is_valid_role(role_id@),
        r matches Some(info) ==> info.role_id@ == role_id@ && spec_table_row_consistent(info),
{
    proof {
        lemma_app_levels();
    }
    if str_eq(role_id, "superadmin") {
        Some(
            RoleInfo {
                role_id: "superadmin",
                display_name: "Super Administrator",
                description: "Complete system control with all privileges",
                hierarchy_level: 6,
                can_manage_users: true,
                can_manage_dictionary: true,
                can_manage_translations: true,
            },
        )
    } else if str_eq(role_id, "admin") {
        Some(
            RoleInfo {
                role_id: "admin",
                display_name: "Administrator",
                description: "System administration with user and content management",
                hierarchy_level: 5,
                can_manage_users: true,
                can_manage_dictionary: true,
                can_manage_translations: true,
            },
        )
    } else if str_eq(role_id, "moderator") {
        Some(
            RoleInfo {
                role_id: "moderator",
                display_name: "Moderator",
                description: "Content moderation and translation review",
                hierarchy_level: 4,
                can_manage_users: false,
                can_manage_dictionary: true,
                can_manage_translations: true,
            },
        )
    } else if str_eq(role_id, "translator") {
        Some(
            RoleInfo {
                role_id: "translator",
                display_name: "Translator",
                description: "Create and manage own translations",
                hierarchy_level: 3,
                can_manage_users: false,
                can_manage_dictionary: false,
                can_manage_translations: true,
            },
        )
    } else if str_eq(role_id, "contributor") {
        Some(
            RoleInfo {
                role_id: "contributor",
                display_name: "Contributor",
                description: "Submit translation suggestions and contributions",
                hierarchy_level: 2,
                can_manage_users: false,
                can_manage_dictionary: false,
                can_manage_translations: false,
            },
        )
    } else if str_eq(role_id, "user") {
        Some(
            RoleInfo {
                role_id: "user",
                display_name: "User",
                description: "Basic user with read access",
                hierarchy_level: 1,
                can_manage_users: false,
                can_manage_dictionary: false,
                can_manage_translations: false,
            },
        )
    } else {
        None
    }
}

/// Check if a role exists.
pub fn is_valid_role(role_id: &str) -> (r: bool)
    ensures
        r == spec_is_valid_role(role_id@),
{
    get_role_info(role_id).is_some()
}

/// Get all available roles, ordered from the highest rank down.
pub fn get_all_roles() -> (r: Vec<RoleInfo>)
    ensures
        r@.len() == 6,
        forall|i: int| 0 <= i < 6 ==> (#[trigger] r@[i]).role_id@ == spec_role_id_at(i),
        forall|i: int| 0 <= i < 6 ==> spec_table_row_consistent(#[trigger] r@[i]),
{
    proof {
        lemma_app_levels();
    }
    let mut roles: Vec<RoleInfo> = Vec::new();
    roles.push(
        RoleInfo {
            role_id: "superadmin",
            display_name: "Super Administrator",
            description: "Complete system control with all privileges",
            hierarchy_level: 6,
            can_manage_users: true,
            can_manage_dictionary: true,
            can_manage_translations: true,
        },
    );
    roles.push(
        RoleInfo {
            role_id: "admin",
            display_name: "Administrator",
            description: "System administration with user and content management",
            hierarchy_level: 5,
            can_manage_users: true,
            can_manage_dictionary: true,
            can_manage_translations: true,
        },
    );
    roles.push(
        RoleInfo {
            role_id: "moderator",
            display_name: "Moderator",
            description: "Content moderation and translation review",
            hierarchy_level: 4,
            can_manage_users: false,
            can_manage_dictionary: true,
            can_manage_translations: true,
        },
    );
    roles.push(
        RoleInfo {
            role_id: "translator",
            display_name: "Translator",
            description: "Create and manage own translations",
            hierarchy_level: 3,
            can_manage_users: false,
            can_manage_dictionary: false,
            can_manage_translations: true,
        },
    );
    roles.push(
        RoleInfo {
            role_id: "contributor",
            display_name: "Contributor",
            description: "Submit translation suggestions and contributions",
            hierarchy_level: 2,
            can_manage_users: false,
            can_manage_dictionary: false,
            can_manage_translations: false,
        },
    );
    roles.push(
        RoleInfo {
            role_id: "user",
            display_name: "User",
            description: "Basic user with read access",
            hierarchy_level: 1,
            can_manage_users: false,
            can_manage_dictionary: false,
            can_manage_translations: false,
        },
    );
    roles
}

/// Check if role_a has higher or equal hierarchy than role_b in the
/// application role table; an undefined role ranks at 0.
pub fn has_hierarchy_level(role_a: &str, role_b: &str) -> (r: bool)
    ensures
        r == (spec_app_level(role_a@) >= spec_app_level(role_b@)),
{
    let level_a = match get_role_info(role_a) {
        Some(info) => info.hierarchy_level,
        None => 0,
    };
    let level_b = match get_role_info(role_b) {
        Some(info) => info.hierarchy_level,
        None => 0,
    };
    level_a >= level_b
}

impl UserRole {
    /// The role string this variant names.
    pub open spec fn spec_name(self) -> Seq<char> {
        match self {
            UserRole::SuperAdmin => "superadmin"@,
            UserRole::Admin => "admin"@,
            UserRole::Moderator => "moderator"@,
            UserRole::Translator => "translator"@,
            UserRole::Contributor => "contributor"@,
            UserRole::User => "user"@,
        }
    }

    /// The string form of this role.
    pub fn as_str(&self) -> (r: &'static str)
        ensures
            r@ == self.spec_name(),
    {
        match self {
            UserRole::SuperAdmin => "superadmin",
            UserRole::Admin => "admin",
            UserRole::Moderator => "moderator",
            UserRole::Translator => "translator",
            UserRole::Contributor => "contributor",
            UserRole::User => "user",
        }
    }

    /// Parse a defined role string; a string outside the table has no variant.
    pub fn from_name(name: &str) -> (r: Option<UserRole>)
        ensures
            r matches Some(role) ==> role.spec_name() == name@,
            r is None <==> !spec_is_valid_role(name@),
    {
        proof {
            lemma_app_levels();
        }
        if str_eq(name, "superadmin") {
            Some(UserRole::SuperAdmin)
        } else if str_eq(name, "admin") {
            Some(UserRole::Admin)
        } else if str_eq(name, "moderator") {
            Some(UserRole::Moderator)
        } else if str_eq(name, "translator") {
            Some(UserRole::Translator)
        } else if str_eq(name, "contributor") {
            Some(UserRole::Contributor)
        } else if str_eq(name, "user") {
            Some(UserRole::User)
        } else {
            None
        }
    }
}

} // verus!
