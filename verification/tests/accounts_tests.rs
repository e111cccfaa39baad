use watch_market::accounts::{
    account_settings, add_user_decision, agent_request_notice, check_contact, check_user_update_request, registration_decision, check_old_password, check_phone_free,
    check_user_fields, check_user_update, check_username_free, hash_password, login_decision,
    password_reset_decision, phone_lookup_needed, profile_target, registration_role,
    user_update_target, LoginAccount, LoginDecision, PasswordCheck, ResetAccount,
};
use watch_market::auth::parse_subject;
use watch_market::response::ApiResponse;

const INACTIVE: &str = "Your account has not been activated yet. Please wait for an admin to approve your account or contact support for further assistance!";

/// A bcrypt hash of `password` at cost 4.
const PASSWORD_HASH: &str = "$2a$04$UuTkLRZZ6QofpDOlMz32MuuxEHA43WOemOYHPz6.SjsVsyO1tDU96";

fn assert_refused<T>(r: Result<T, ApiResponse>, code: u16, message: &str) {
    match r {
        Ok(_) => panic!("expected a refusal with {code}"),
        Err(e) => {
            assert_eq!(e.code, code);
            assert_eq!(e.message, message);
        }
    }
}

fn account(status: &str, hash: &str) -> LoginAccount {
    LoginAccount {
        id: 12,
        account_status: status.to_string(),
        password_hash: hash.to_string(),
        role_name: "agent".to_string(),
        shop_id: 3,
    }
}

#[test]
fn registration_roles() {
    let (role, status) = registration_role(&None).unwrap();
    assert_eq!((role.as_str(), status.as_str()), ("user", "active"));
    let (role, status) = registration_role(&Some("user".to_string())).unwrap();
    assert_eq!((role.as_str(), status.as_str()), ("user", "active"));
    let (role, status) = registration_role(&Some("agent".to_string())).unwrap();
    assert_eq!((role.as_str(), status.as_str()), ("agent", "pending"));
    assert_refused(registration_role(&Some("admin".to_string())), 400, "Role must be user or agent!");
}

#[test]
fn contact_checks_in_order() {
    assert_refused(check_contact("", false, false), 400, "Name must not be empty!");
    assert_refused(check_contact("Ann", false, false), 400, "Invalid email!");
    assert_refused(check_contact("Ann", true, false), 400, "Invalid phone!");
    assert!(check_contact("Ann", true, true).is_ok());
}

#[test]
fn user_field_checks_in_order() {
    assert_refused(check_user_fields("", "boss", false, false), 400, "Name must not be empty!");
    assert_refused(check_user_fields("Ann", "boss", false, false), 400, "Role must be admin, user or agent!");
    assert_refused(check_user_fields("Ann", "agent", false, true), 400, "Invalid email!");
    assert_refused(check_user_fields("Ann", "admin", true, false), 400, "Invalid phone!");
    assert!(check_user_fields("Ann", "user", true, true).is_ok());
}

#[test]
fn uniqueness_checks() {
    assert_refused(check_phone_free(true), 400, "Phone number is already in use!");
    assert!(check_phone_free(false).is_ok());
    assert_refused(check_username_free(true), 400, "User already exists!");
    assert!(check_username_free(false).is_ok());
    assert!(phone_lookup_needed("0911", "0922"));
    assert!(!phone_lookup_needed("0911", "0911"));
}

#[test]
fn account_settings_defaults() {
    let s = account_settings(&None, None, None, None);
    assert_eq!(s.account_status, "active");
    assert!(!s.can_modify_order_status && !s.can_view_address && !s.can_view_phone);
    let s = account_settings(&Some("pending".to_string()), Some(true), Some(false), Some(true));
    assert_eq!(s.account_status, "pending");
    assert!(s.can_modify_order_status && !s.can_view_address && s.can_view_phone);
}

#[test]
fn who_may_update_a_user() {
    assert!(check_user_update("admin", false, "agent").is_ok());
    assert_refused(check_user_update("agent", false, "agent"), 401, "Unauthorized!");
    assert!(check_user_update("user", true, "user").is_ok());
    assert_refused(check_user_update("user", true, "agent"), 401, "Unauthorized!");
    assert_refused(check_user_update("admin", true, "admin"), 401, "Unauthorized!");
    assert_eq!(user_update_target(5, true, 9), 9);
    assert_eq!(user_update_target(5, false, 9), 5);
    assert_eq!(profile_target(0, 9), 9);
    assert_eq!(profile_target(4, 9), 4);
}

#[test]
fn agent_request_notice_text() {
    let n = agent_request_notice("ann");
    assert_eq!(n.title, "Agent Role Upgrade Request");
    assert_eq!(n.message, "User ann has requested to upgrade to an 'Agent' role.");
}

#[test]
fn unknown_user_cannot_log_in() {
    match login_decision(&None, "password") {
        LoginDecision::Refuse(e) => {
            assert_eq!(e.code, 401);
            assert_eq!(e.message, "Invalid username!");
        }
        _ => panic!("expected a refusal"),
    }
}

#[test]
fn inactive_account_cannot_log_in() {
    match login_decision(&Some(account("pending", PASSWORD_HASH)), "password") {
        LoginDecision::Refuse(e) => {
            assert_eq!(e.code, 401);
            assert_eq!(e.message, INACTIVE);
        }
        _ => panic!("expected a refusal"),
    }
}

#[test]
fn wrong_password_cannot_log_in() {
    match login_decision(&Some(account("active", PASSWORD_HASH)), "passw0rd") {
        LoginDecision::Refuse(e) => {
            assert_eq!(e.code, 401);
            assert_eq!(e.message, "Invalid password!");
        }
        _ => panic!("expected a refusal"),
    }
}

#[test]
fn unreadable_hash_is_reported() {
    assert!(matches!(
        login_decision(&Some(account("active", "not-a-hash")), "password"),
        LoginDecision::UnreadableHash
    ));
}

#[test]
fn right_password_grants_the_login_subject() {
    match login_decision(&Some(account("active", PASSWORD_HASH)), "password") {
        LoginDecision::Grant { subject } => assert_eq!(subject, "12,agent,3"),
        _ => panic!("expected a grant"),
    }
}

#[test]
fn login_subject_is_refused_by_the_subject_reader() {
    let subject = match login_decision(&Some(account("active", PASSWORD_HASH)), "password") {
        LoginDecision::Grant { subject } => subject,
        _ => panic!("expected a grant"),
    };
    assert_refused(parse_subject(subject.as_str()), 500, "Invalid sub format in token");
}

#[test]
fn old_password_check() {
    assert!(matches!(check_old_password("password", PASSWORD_HASH), PasswordCheck::Correct));
    match check_old_password("other", PASSWORD_HASH) {
        PasswordCheck::Incorrect(e) => {
            assert_eq!(e.code, 401);
            assert_eq!(e.message, "Incorrect password!");
        }
        _ => panic!("expected a refusal"),
    }
    assert!(matches!(check_old_password("password", "$2a$"), PasswordCheck::UnreadableHash));
}

#[test]
fn a_hashed_password_is_accepted_afterwards() {
    let out = hash_password("s3cret pass").unwrap();
    assert_ne!(out.hashed_password, "s3cret pass");
    assert_eq!(out.hashed_password.len(), 60);
    assert!(out.hashed_password.starts_with("$2b$12$"));
    assert!(matches!(check_old_password("s3cret pass", out.hashed_password.as_str()), PasswordCheck::Correct));
}

#[test]
fn password_reset_decisions() {
    let acct = |status: &str, role: &str| ResetAccount {
        name: "Ann".to_string(),
        email: "ann@example.com".to_string(),
        role: role.to_string(),
        account_status: status.to_string(),
    };
    assert_refused(password_reset_decision(&None, "ann@example.com"), 401, "Invalid username!");
    assert_refused(password_reset_decision(&Some(acct("pending", "user")), "ann@example.com"), 401, INACTIVE);
    assert_refused(password_reset_decision(&Some(acct("active", "admin")), "ann@example.com"), 401, "Unauthorized!");
    assert_refused(password_reset_decision(&Some(acct("active", "user")), "bob@example.com"), 401, "Unauthorized!");
    assert_eq!(
        password_reset_decision(&Some(acct("active", "user")), "ann@example.com").unwrap(),
        "A password reset request was made for user Ann (ann@example.com). Please verify legitimacy and monitor for any suspicious activity."
    );
}

#[test]
fn registration_refusals_come_in_order() {
    let agent = Some("agent".to_string());
    let boss = Some("boss".to_string());
    assert_refused(registration_decision("", false, false, true, &boss, Err(())), 400, "Name must not be empty!");
    assert_refused(registration_decision("Ann", true, false, true, &boss, Err(())), 400, "Invalid phone!");
    assert_refused(registration_decision("Ann", true, true, true, &boss, Err(())), 400, "Phone number is already in use!");
    assert_refused(registration_decision("Ann", true, true, false, &boss, Err(())), 400, "Role must be user or agent!");
    assert_refused(registration_decision("Ann", true, true, false, &agent, Err(())), 500, "Something went wrong!");
    assert_refused(registration_decision("Ann", true, true, false, &agent, Ok(true)), 400, "User already exists!");
    let (role, status) = registration_decision("Ann", true, true, false, &agent, Ok(false)).unwrap();
    assert_eq!((role.as_str(), status.as_str()), ("agent", "pending"));
    let (role, status) = registration_decision("Ann", true, true, false, &None, Ok(false)).unwrap();
    assert_eq!((role.as_str(), status.as_str()), ("user", "active"));
}

#[test]
fn user_creation_refusals_come_in_order() {
    assert_refused(add_user_decision("agent", "", "boss", false, false, true, Err(())), 401, "Unauthorized!");
    assert_refused(add_user_decision("admin", "Ann", "boss", false, false, true, Err(())), 400, "Role must be admin, user or agent!");
    assert_refused(add_user_decision("admin", "Ann", "agent", true, true, true, Err(())), 400, "Phone number is already in use!");
    assert_refused(add_user_decision("admin", "Ann", "agent", true, true, false, Err(())), 500, "Something went wrong!");
    assert_refused(add_user_decision("admin", "Ann", "agent", true, true, false, Ok(true)), 400, "User already exists!");
    assert!(add_user_decision("admin", "Ann", "agent", true, true, false, Ok(false)).is_ok());
}

#[test]
fn user_update_refusals_come_in_order() {
    assert_refused(check_user_update_request("agent", false, "", "boss", false, false), 401, "Unauthorized!");
    assert_refused(check_user_update_request("admin", false, "", "boss", false, false), 400, "Name must not be empty!");
    assert_refused(check_user_update_request("user", true, "Ann", "user", false, true), 400, "Invalid email!");
    assert!(check_user_update_request("user", true, "Ann", "user", true, true).is_ok());
}
