use watch_market::auth::{
    bearer_token, forbid_user, forbid_user_like, optional_bearer_token, parse_subject,
    require_admin, require_admin_or_agent, verified_claims, viewer_claims, viewer_role, Claims,
};
use watch_market::response::ApiResponse;

fn assert_refused<T>(r: Result<T, ApiResponse>, code: u16, message: &str) {
    match r {
        Ok(_) => panic!("expected a refusal with {code}"),
        Err(e) => {
            assert_eq!(e.code, code);
            assert_eq!(e.message, message);
        }
    }
}

#[test]
fn bearer_header_yields_its_token() {
    assert_eq!(bearer_token(Some("Bearer abc.def.ghi")).unwrap(), "abc.def.ghi");
}

#[test]
fn bearer_header_round_trip_on_a_real_looking_token() {
    let token = "eyJhbGciOiJIUzI1NiJ9.eyJzdWIiOiIxMixhZG1pbiJ9.c2ln";
    let header = format!("Bearer {token}");
    assert_eq!(bearer_token(Some(header.as_str())).unwrap(), token);
}

#[test]
fn bearer_header_words_may_be_spread_by_whitespace() {
    assert_eq!(bearer_token(Some("  Bearer \t  tok  ")).unwrap(), "tok");
}

#[test]
fn missing_header_is_unauthorized() {
    assert_refused(bearer_token(None), 401, "Authorization header missing");
}

#[test]
fn header_without_token_is_bad_request() {
    assert_refused(bearer_token(Some("Bearer")), 400, "Invalid Authorization header format");
}

#[test]
fn header_with_other_scheme_is_bad_request() {
    assert_refused(bearer_token(Some("Basic abc")), 400, "Invalid Authorization header format");
}

#[test]
fn header_with_three_words_is_bad_request() {
    assert_refused(bearer_token(Some("Bearer a b")), 400, "Invalid Authorization header format");
}

#[test]
fn scheme_is_case_sensitive() {
    assert_refused(bearer_token(Some("bearer abc")), 400, "Invalid Authorization header format");
}

#[test]
fn optional_token_is_empty_when_absent_or_malformed() {
    assert_eq!(optional_bearer_token(None), "");
    assert_eq!(optional_bearer_token(Some("Token x")), "");
    assert_eq!(optional_bearer_token(Some("Bearer x")), "x");
}

#[test]
fn subject_with_two_pieces_is_read() {
    let c = parse_subject("12,admin").unwrap();
    assert_eq!(c.user_id, "12");
    assert_eq!(c.role, "admin");
    assert_eq!(c.user_id_number(), Some(12));
}

#[test]
fn subject_round_trip_with_negative_id() {
    let sub = format!("{},{}", -7, "agent");
    let c = parse_subject(sub.as_str()).unwrap();
    assert_eq!(c.user_id_number(), Some(-7));
    assert_eq!(c.role, "agent");
}

#[test]
fn subject_with_three_pieces_is_refused() {
    assert_refused(parse_subject("12,admin,3"), 500, "Invalid sub format in token");
}

#[test]
fn subject_with_one_piece_is_refused() {
    assert_refused(parse_subject("12"), 500, "Invalid sub format in token");
}

#[test]
fn subject_with_empty_role_is_read() {
    let c = parse_subject("5,").unwrap();
    assert_eq!(c.user_id, "5");
    assert_eq!(c.role, "");
}

#[test]
fn non_numeric_user_id_has_no_number() {
    let c = parse_subject("abc,user").unwrap();
    assert_eq!(c.user_id_number(), None);
}

#[test]
fn rejected_token_is_unauthorized() {
    assert_refused(verified_claims(None), 401, "Invalid token");
}

#[test]
fn verified_subject_gives_claims() {
    let c = verified_claims(Some("3,user".to_string())).unwrap();
    assert_eq!(c.user_id, "3");
    assert_eq!(c.role, "user");
}

#[test]
fn anonymous_viewer_has_no_claims() {
    assert!(viewer_claims("", None).unwrap().is_none());
    assert_refused(viewer_claims("tok", None), 401, "Invalid token");
    assert_refused(viewer_claims("tok", Some("1,a,b".to_string())), 500, "Invalid sub format in token");
    let c = viewer_claims("tok", Some("9,agent".to_string())).unwrap().unwrap();
    assert_eq!(c.role, "agent");
}

#[test]
fn viewer_role_defaults_to_user() {
    assert_eq!(viewer_role(&None), "user");
    let c = Claims { user_id: "1".to_string(), role: "admin".to_string() };
    assert_eq!(viewer_role(&Some(c)), "admin");
}

#[test]
fn role_gates() {
    assert!(require_admin("admin").is_ok());
    assert_refused(require_admin("agent"), 401, "Unauthorized!");
    assert!(require_admin_or_agent("agent").is_ok());
    assert!(require_admin_or_agent("admin").is_ok());
    assert_refused(require_admin_or_agent("user"), 401, "Unauthorized!");
    assert!(forbid_user("agent").is_ok());
    assert_refused(forbid_user("user"), 401, "Unauthorized!");
    assert!(forbid_user_like("agent").is_ok());
    assert_refused(forbid_user_like("superuser"), 401, "Unauthorized!");
}
