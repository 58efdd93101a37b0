use badge_admin_core::access::{
    get_safe_redirect_url, login_action, page_access, show_completed_flag, validate_redirect_url,
    AccessDecision, LoginAction, LoginAttempt,
};
use badge_admin_core::auth::{
    authenticate_user, build_group_permissions, build_user_permissions, hash_password,
    validate_credentials, verify_password,
};
use badge_admin_core::models::{Credentials, User, UserState};
use badge_admin_core::user_state::extract_user_state;

#[test]
fn test_user_state_creation() {
    let user_state = UserState::new(true, "test".to_string(), true);

    assert!(user_state.logged_in);
    assert!(user_state.is_admin);
    assert_eq!(user_state.username, "test");
}

#[test]
fn test_user_state_default() {
    let user_state = UserState::default();

    assert!(!user_state.logged_in);
    assert!(!user_state.is_admin);
    assert_eq!(user_state.username, "");
}

fn user(hash: String) -> User {
    User {
        id: "0123456789abcdef01234567".to_string(),
        username: "staff".to_string(),
        password_hash: hash,
        is_admin: true,
    }
}

#[test]
fn test_extract_user_state() {
    let u = user("x".to_string());
    let state = extract_user_state(Some(&u));
    assert!(state.is_authenticated);
    assert!(state.logged_in);
    assert!(state.is_admin);
    assert_eq!(state.username, "staff");

    let state = extract_user_state(None);
    assert!(!state.is_authenticated);
    assert!(!state.is_admin);
    assert_eq!(state.username, "");
}

#[test]
fn test_hash_and_verify_password() {
    let hash = hash_password("hunter2");
    assert!(!hash.is_empty());
    assert_ne!(hash, "hunter2");
    assert!(verify_password("hunter2", &hash));
    assert!(!verify_password("hunter3", &hash));
}

#[test]
fn test_verify_password_malformed_hash() {
    assert!(!verify_password("hunter2", "not a hash"));
    assert!(!verify_password("hunter2", ""));
}

#[test]
fn test_authenticate_user() {
    let hash = hash_password("hunter2");
    let u = user(hash);

    let found = authenticate_user(Some(u.clone()), "hunter2");
    assert!(found.is_some());
    assert_eq!(found.unwrap().username, "staff");

    assert!(authenticate_user(Some(u), "wrong").is_none());
    assert!(authenticate_user(None, "hunter2").is_none());
}

#[test]
fn test_validate_credentials() {
    let good = Credentials {
        username: "staff".to_string(),
        password: "pw".to_string(),
        next: None,
    };
    assert!(validate_credentials(&good).is_ok());

    let blank_name = Credentials {
        username: "   ".to_string(),
        password: "pw".to_string(),
        next: None,
    };
    assert_eq!(
        validate_credentials(&blank_name).unwrap_err(),
        "Username cannot be empty"
    );

    let empty_pw = Credentials {
        username: "staff".to_string(),
        password: "".to_string(),
        next: None,
    };
    assert_eq!(
        validate_credentials(&empty_pw).unwrap_err(),
        "Password cannot be empty"
    );
}

#[test]
fn test_permissions() {
    assert_eq!(build_user_permissions(true), vec!["admin".to_string()]);
    assert!(build_user_permissions(false).is_empty());
    assert!(build_group_permissions().is_empty());
}

#[test]
fn test_redirect_validation() {
    assert!(validate_redirect_url("/products"));
    assert!(!validate_redirect_url("//evil.com"));
    assert!(!validate_redirect_url("http://evil.com"));
    assert!(!validate_redirect_url(""));

    assert_eq!(get_safe_redirect_url(Some("/products".to_string())), "/products");
    assert_eq!(get_safe_redirect_url(Some("//evil.com".to_string())), "/products");
    assert_eq!(get_safe_redirect_url(Some("http://evil.com".to_string())), "/products");
    assert_eq!(get_safe_redirect_url(Some("/orders".to_string())), "/orders");
    assert_eq!(get_safe_redirect_url(None), "/products");
}

#[test]
fn test_page_access_gate() {
    let anonymous = UserState::default();
    assert!(matches!(page_access(&anonymous), AccessDecision::RedirectToLogin));

    let staff = UserState::new(true, "staff".to_string(), false);
    assert!(matches!(page_access(&staff), AccessDecision::Forbidden));

    let admin = UserState::new(true, "boss".to_string(), true);
    assert!(matches!(page_access(&admin), AccessDecision::Proceed));
}

#[test]
fn test_login_action() {
    let ok = login_action(
        &LoginAttempt::Authenticated { session_ok: true },
        Some("/orders".to_string()),
    );
    match ok {
        LoginAction::Redirect(url) => assert_eq!(url, "/orders"),
        LoginAction::ShowError(_) => panic!("expected a redirect"),
    }

    let unsafe_next = login_action(
        &LoginAttempt::Authenticated { session_ok: true },
        Some("//evil.com".to_string()),
    );
    match unsafe_next {
        LoginAction::Redirect(url) => assert_eq!(url, "/products"),
        LoginAction::ShowError(_) => panic!("expected a redirect"),
    }

    let session_fault = login_action(
        &LoginAttempt::Authenticated { session_ok: false },
        None,
    );
    match session_fault {
        LoginAction::ShowError(m) => assert_eq!(m, "Internal error"),
        LoginAction::Redirect(_) => panic!("expected an error"),
    }

    let bad = login_action(&LoginAttempt::BadCredentials, None);
    match bad {
        LoginAction::ShowError(m) => assert_eq!(m, "Bad credentials"),
        LoginAction::Redirect(_) => panic!("expected an error"),
    }

    let fault = login_action(&LoginAttempt::BackendFault, None);
    match fault {
        LoginAction::ShowError(m) => assert_eq!(m, "Server error"),
        LoginAction::Redirect(_) => panic!("expected an error"),
    }
}

#[test]
fn test_show_completed_flag() {
    assert!(show_completed_flag(Some(&"true".to_string())));
    assert!(!show_completed_flag(Some(&"false".to_string())));
    assert!(!show_completed_flag(Some(&"TRUE".to_string())));
    assert!(!show_completed_flag(None));
}
