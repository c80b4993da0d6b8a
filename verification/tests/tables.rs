//! Tests for the role table, the alphabet, scoring, pagination and settings.

use pnar_core::alphabet::{
    convert_kbf_to_pnar, convert_pnar_to_kbf, convert_text, pnar_alphabet, ConversionDirection,
    ConvertTextRequest,
};
use pnar_core::analytics::AnalyticsTracker;
use pnar_core::errors::AuthError;
use pnar_core::pagination::{
    calculate_offset, normalize_pagination, PaginationInfo, DEFAULT_PAGE, DEFAULT_PAGE_SIZE,
    MAX_PAGE_SIZE,
};
use pnar_core::roles::{
    get_all_roles, get_role_info, has_hierarchy_level, is_valid_role, UserRole,
};
use pnar_core::settings::{
    ApplicationSettings, CorsSettings, Environment, MonitoringSettings, SecuritySettings,
};
use pnar_core::strutil::u64_to_dec_string;

#[test]
fn the_role_table_ranks_six_roles() {
    let roles = get_all_roles();
    assert_eq!(roles.len(), 6);
    let ids: Vec<&str> = roles.iter().map(|r| r.role_id).collect();
    assert_eq!(
        ids,
        vec!["superadmin", "admin", "moderator", "translator", "contributor", "user"]
    );
    for (i, r) in roles.iter().enumerate() {
        assert_eq!(r.hierarchy_level as usize, 6 - i);
        assert_eq!(r.can_manage_users, r.hierarchy_level >= 5);
        assert_eq!(r.can_manage_dictionary, r.hierarchy_level >= 4);
        assert_eq!(r.can_manage_translations, r.hierarchy_level >= 3);
    }
}

#[test]
fn role_info_lookup() {
    let admin = get_role_info("admin").unwrap();
    assert_eq!(admin.role_id, "admin");
    assert_eq!(admin.display_name, "Administrator");
    assert_eq!(admin.hierarchy_level, 5);
    assert!(admin.can_manage_users);
    let translator = get_role_info("translator").unwrap();
    assert_eq!(translator.hierarchy_level, 3);
    assert!(!translator.can_manage_dictionary);
    assert!(translator.can_manage_translations);
    assert!(get_role_info("nobody").is_none());
    assert!(is_valid_role("user"));
    assert!(!is_valid_role("root"));
}

#[test]
fn table_hierarchy_comparison_counts_the_translator() {
    assert!(has_hierarchy_level("translator", "contributor"));
    assert!(!has_hierarchy_level("contributor", "translator"));
    assert!(has_hierarchy_level("moderator", "translator"));
    assert!(has_hierarchy_level("admin", "admin"));
    assert!(!has_hierarchy_level("unknown", "user"));
    assert!(has_hierarchy_level("user", "unknown"));
}

#[test]
fn user_role_names_round_trip() {
    let variants = [
        (UserRole::SuperAdmin, "superadmin"),
        (UserRole::Admin, "admin"),
        (UserRole::Moderator, "moderator"),
        (UserRole::Translator, "translator"),
        (UserRole::Contributor, "contributor"),
        (UserRole::User, "user"),
    ];
    for (v, name) in variants {
        assert_eq!(v.as_str(), name);
        assert_eq!(UserRole::from_name(name), Some(v));
    }
    assert_eq!(UserRole::from_name("guest"), None);
}

#[test]
fn keyboard_text_becomes_pnar_letters() {
    assert_eq!(convert_kbf_to_pnar("se"), "\u{e6}");
    assert_eq!(convert_kbf_to_pnar("Ae"), "\u{c6}");
    assert_eq!(convert_kbf_to_pnar("ii"), "\u{ef}");
    assert_eq!(convert_kbf_to_pnar("Ii"), "\u{cf}");
    assert_eq!(convert_kbf_to_pnar("gn"), "\u{f1}");
    assert_eq!(convert_kbf_to_pnar("Ng"), "\u{d1}");
    assert_eq!(convert_kbf_to_pnar("abc"), "abc");
    assert_eq!(convert_kbf_to_pnar(""), "");
    // the "se" pass runs first, then "Ae" over what is left
    assert_eq!(convert_kbf_to_pnar("Aese"), "\u{c6}\u{e6}");
    // replacement scans leftmost and does not overlap
    assert_eq!(convert_kbf_to_pnar("sese"), "\u{e6}\u{e6}");
    assert_eq!(convert_kbf_to_pnar("ses"), "\u{e6}s");
    assert_eq!(convert_kbf_to_pnar("iii"), "\u{ef}i");
}

#[test]
fn pnar_letters_become_keyboard_text() {
    assert_eq!(convert_pnar_to_kbf("\u{e6}"), "se");
    assert_eq!(convert_pnar_to_kbf("\u{c6}"), "Ae");
    assert_eq!(convert_pnar_to_kbf("\u{ef}"), "ii");
    assert_eq!(convert_pnar_to_kbf("\u{cf}"), "Ii");
    assert_eq!(convert_pnar_to_kbf("\u{f1}"), "gn");
    assert_eq!(convert_pnar_to_kbf("\u{d1}"), "Ng");
    assert_eq!(convert_pnar_to_kbf("ka \u{f1}i"), "ka gni");
    // letters with identical spellings in both forms pass through
    assert_eq!(convert_pnar_to_kbf("abc"), "abc");
}

#[test]
fn conversion_round_trips_on_pnar_text() {
    for text in ["\u{e6}\u{ef}\u{f1}", "ka \u{d1}ow", "plain words"] {
        assert_eq!(convert_kbf_to_pnar(&convert_pnar_to_kbf(text)), text);
    }
}

#[test]
fn convert_text_carries_the_direction() {
    let r = convert_text(ConvertTextRequest {
        text: "segn".to_string(),
        direction: ConversionDirection::KbfToPnar,
    });
    assert_eq!(r.converted_text, "\u{e6}\u{f1}");
    assert_eq!(r.original_text, "segn");
    assert_eq!(r.direction, ConversionDirection::KbfToPnar);
    let r = convert_text(ConvertTextRequest {
        text: "\u{e6}".to_string(),
        direction: ConversionDirection::PnarToKbf,
    });
    assert_eq!(r.converted_text, "se");
}

#[test]
fn the_alphabet_table_is_ordered() {
    let t = pnar_alphabet();
    assert_eq!(t.len(), 25);
    for (i, ch) in t.iter().enumerate() {
        assert_eq!(ch.sort_order as usize, i + 1);
    }
    assert_eq!(t[5].small, "\u{e6}");
    assert_eq!(t[5].kbf_small, "se");
    assert_eq!(t[5].kbf_capital, "Ae");
    assert_eq!(t[16].small, "\u{f1}");
    assert_eq!(t[16].kbf_small, "gn");
}

#[test]
fn contribution_points_follow_the_table() {
    let p = AnalyticsTracker::calculate_contribution_points;
    assert_eq!(p("dictionary_entry", "create"), 10);
    assert_eq!(p("dictionary_entry", "update"), 5);
    assert_eq!(p("dictionary_entry", "verify"), 15);
    assert_eq!(p("dictionary_entry", "review"), 5);
    assert_eq!(p("translation_request", "create"), 3);
    assert_eq!(p("translation_request", "complete"), 8);
    assert_eq!(p("translation_request", "verify"), 1);
    assert_eq!(p("note", "create"), 1);
}

#[test]
fn pagination_normalization_and_offsets() {
    assert_eq!(DEFAULT_PAGE, 1);
    assert_eq!(DEFAULT_PAGE_SIZE, 20);
    assert_eq!(MAX_PAGE_SIZE, 100);
    assert_eq!(normalize_pagination(None, None), (1, 20));
    assert_eq!(normalize_pagination(Some(0), Some(0)), (1, 1));
    assert_eq!(normalize_pagination(Some(-5), Some(500)), (1, 100));
    assert_eq!(normalize_pagination(Some(3), Some(25)), (3, 25));
    assert_eq!(calculate_offset(1, 20), 0);
    assert_eq!(calculate_offset(3, 25), 50);
}

#[test]
fn page_counts_cover_the_total() {
    let info = PaginationInfo::new(2, 20, 45);
    assert_eq!(info.pages, 3);
    assert_eq!(info.page, 2);
    assert_eq!(info.per_page, 20);
    assert_eq!(info.total, 45);
    assert_eq!(PaginationInfo::new(1, 20, 0).pages, 0);
    assert_eq!(PaginationInfo::new(1, 20, 20).pages, 1);
    assert_eq!(PaginationInfo::new(1, 20, 21).pages, 2);
}

#[test]
fn settings_defaults_and_derived_values() {
    let app = ApplicationSettings::default();
    assert_eq!(app.get_address(), "127.0.0.1:8000");
    assert_eq!(app.request_timeout(), 30);
    assert_eq!(app.max_request_size, 1024 * 1024);
    let cors = CorsSettings::default();
    assert_eq!(cors.allowed_origins, vec!["http://localhost:3000"]);
    assert_eq!(cors.allowed_methods, vec!["GET", "POST", "PUT", "DELETE"]);
    assert_eq!(cors.allowed_headers, vec!["Content-Type", "Authorization"]);
    assert!(cors.allow_credentials);
    let sec = SecuritySettings::default();
    assert_eq!(sec.session_timeout(), 3600);
    assert_eq!(sec.lockout_duration(), 900);
    assert_eq!(sec.password_min_length, 8);
    let mon = MonitoringSettings::default();
    assert!(mon.metrics_enabled);
    assert_eq!(mon.health_check_interval_seconds, 30);
}

#[test]
fn environments_print_and_parse() {
    assert_eq!(Environment::Development.as_str(), "development");
    assert_eq!(Environment::Production.as_str(), "production");
    assert_eq!(Environment::from_name("dev"), Some(Environment::Development));
    assert_eq!(Environment::from_name("prod"), Some(Environment::Production));
    assert_eq!(Environment::from_name("test"), Some(Environment::Test));
    assert_eq!(Environment::from_name("stage"), Some(Environment::Staging));
    // matching ignores ASCII case, as the configuration loader expects
    assert_eq!(Environment::from_name("DEV"), Some(Environment::Development));
    assert_eq!(Environment::from_name("Production"), Some(Environment::Production));
    assert_eq!(Environment::from_name("STAGING"), Some(Environment::Staging));
    assert_eq!(Environment::from_name("qa"), None);
}

#[test]
fn decimal_printing() {
    assert_eq!(u64_to_dec_string(0), "0");
    assert_eq!(u64_to_dec_string(7), "7");
    assert_eq!(u64_to_dec_string(10), "10");
    assert_eq!(u64_to_dec_string(65535), "65535");
    assert_eq!(u64_to_dec_string(u64::MAX), "18446744073709551615");
}

#[test]
fn error_messages_match_the_client_contract() {
    assert_eq!(AuthError::MissingToken.message(), "Missing authentication token");
    assert_eq!(AuthError::InvalidToken.message(), "Invalid or expired token");
    assert_eq!(AuthError::UnknownSubject.message(), "User not found");
    assert_eq!(
        AuthError::InsufficientPrivilege.message(),
        "Forbidden - insufficient permissions"
    );
    assert!(AuthError::MissingToken.is_unauthenticated());
    assert!(AuthError::UnknownSubject.is_unauthenticated());
    assert!(!AuthError::InsufficientPrivilege.is_unauthenticated());
}
