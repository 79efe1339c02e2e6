use auth_service::auth::AuthService;
use auth_service::auth::SignInRequest;
use auth_service::auth::SignOutRequest;
use auth_service::auth::SignUpRequest;
use auth_service::auth::StatusCode;
use auth_service::decimal::render_decimal;
use auth_service::sessions::SessionStore;
use auth_service::users::CreateUserError;
use auth_service::users::UserStore;

fn fresh_service() -> AuthService {
    AuthService::new(UserStore::default(), SessionStore::default())
}

#[test]
fn example_scenario() {
    let mut service = fresh_service();

    let signed_up = service.sign_up(SignUpRequest {
        username: "alice".to_owned(),
        password: "pw1".to_owned(),
    });
    assert_eq!(signed_up.status_code, StatusCode::Success);

    let signed_in = service.sign_in(SignInRequest {
        username: "alice".to_owned(),
        password: "pw1".to_owned(),
    });
    assert_eq!(signed_in.status_code, StatusCode::Success);
    assert!(!signed_in.user_uuid.is_empty());
    assert!(!signed_in.session_token.is_empty());

    let rejected = service.sign_in(SignInRequest {
        username: "alice".to_owned(),
        password: "wrong".to_owned(),
    });
    assert_eq!(rejected.status_code, StatusCode::Failure);
    let rejected_wire = rejected.to_wire();
    assert_eq!(rejected_wire.user_uuid, "Not assigned");
    assert_eq!(rejected_wire.session_token, "Not created");

    let signed_out = service.sign_out(SignOutRequest {
        session_token: signed_in.session_token,
    });
    assert_eq!(signed_out.status_code, StatusCode::Success);

    let empty_out = service.sign_out(SignOutRequest {
        session_token: "".to_owned(),
    });
    assert_eq!(empty_out.status_code, StatusCode::Success);
}

#[test]
fn sign_in_twice_yields_distinct_tokens() {
    let mut service = fresh_service();
    let signed_up = service.sign_up(SignUpRequest {
        username: "alice".to_owned(),
        password: "pw1".to_owned(),
    });
    assert_eq!(signed_up.status_code, StatusCode::Success);

    let first = service.sign_in(SignInRequest {
        username: "alice".to_owned(),
        password: "pw1".to_owned(),
    });
    let second = service.sign_in(SignInRequest {
        username: "alice".to_owned(),
        password: "pw1".to_owned(),
    });
    assert_eq!(first.status_code, StatusCode::Success);
    assert_eq!(second.status_code, StatusCode::Success);
    assert_eq!(first.user_uuid, second.user_uuid);
    assert_ne!(first.session_token, second.session_token);
}

#[test]
fn token_is_not_reused_after_sign_out() {
    let mut service = fresh_service();
    service.sign_up(SignUpRequest {
        username: "alice".to_owned(),
        password: "pw1".to_owned(),
    });

    let first = service.sign_in(SignInRequest {
        username: "alice".to_owned(),
        password: "pw1".to_owned(),
    });
    let token = first.session_token.clone();
    service.sign_out(SignOutRequest { session_token: token.clone() });

    let second = service.sign_in(SignInRequest {
        username: "alice".to_owned(),
        password: "pw1".to_owned(),
    });
    assert_eq!(second.status_code, StatusCode::Success);
    assert_ne!(second.session_token, token);
}

#[test]
fn sign_out_twice_with_same_token_succeeds_both_times() {
    let mut service = fresh_service();
    service.sign_up(SignUpRequest {
        username: "alice".to_owned(),
        password: "pw1".to_owned(),
    });
    let signed_in = service.sign_in(SignInRequest {
        username: "alice".to_owned(),
        password: "pw1".to_owned(),
    });
    assert_eq!(signed_in.status_code, StatusCode::Success);

    let first = service.sign_out(SignOutRequest {
        session_token: signed_in.session_token.clone(),
    });
    let second = service.sign_out(SignOutRequest {
        session_token: signed_in.session_token.clone(),
    });
    assert_eq!(first.status_code, StatusCode::Success);
    assert_eq!(second.status_code, StatusCode::Success);
}

#[test]
fn sign_out_accepts_a_never_issued_token() {
    let mut service = fresh_service();
    let result = service.sign_out(SignOutRequest {
        session_token: "no such token".to_owned(),
    });
    assert_eq!(result.status_code, StatusCode::Success);
}

#[test]
fn second_sign_up_with_same_username_fails() {
    let mut service = fresh_service();
    let first = service.sign_up(SignUpRequest {
        username: "alice".to_owned(),
        password: "pw1".to_owned(),
    });
    let second = service.sign_up(SignUpRequest {
        username: "alice".to_owned(),
        password: "other".to_owned(),
    });
    assert_eq!(first.status_code, StatusCode::Success);
    assert_eq!(second.status_code, StatusCode::Failure);
}

#[test]
fn to_wire_keeps_a_successful_payload() {
    let mut service = fresh_service();
    service.sign_up(SignUpRequest {
        username: "alice".to_owned(),
        password: "pw1".to_owned(),
    });
    let signed_in = service.sign_in(SignInRequest {
        username: "alice".to_owned(),
        password: "pw1".to_owned(),
    });
    let wire = signed_in.to_wire();
    assert_eq!(wire.status_code, StatusCode::Success);
    assert_eq!(wire.user_uuid, signed_in.user_uuid);
    assert_eq!(wire.session_token, signed_in.session_token);
}

#[test]
fn wire_codes_are_zero_and_one() {
    assert_eq!(StatusCode::Failure.wire_code(), 0);
    assert_eq!(StatusCode::Success.wire_code(), 1);
}

#[test]
fn user_store_resolves_only_matching_credentials() {
    let mut users = UserStore::default();
    let minted = users.create_user("alice".to_owned(), "pw1".to_owned());
    let uuid = minted.expect("fresh username must be accepted");
    assert!(!uuid.is_empty());

    let resolved = users.get_user_uuid("alice".to_owned(), "pw1".to_owned());
    assert_eq!(resolved, Some(uuid));
    let wrong_password = users.get_user_uuid("alice".to_owned(), "pw2".to_owned());
    assert_eq!(wrong_password, None);
    let unknown = users.get_user_uuid("bob".to_owned(), "pw1".to_owned());
    assert_eq!(unknown, None);
}

#[test]
fn user_store_refuses_a_duplicate_username() {
    let mut users = UserStore::default();
    let _ = users.create_user("alice".to_owned(), "pw1".to_owned());
    let duplicate = users.create_user("alice".to_owned(), "pw2".to_owned());
    assert!(matches!(duplicate, Err(CreateUserError::DuplicateUsername)));
}

#[test]
fn session_store_issues_counted_distinct_tokens() {
    let mut sessions = SessionStore::default();
    assert_eq!(sessions.issued_count(), 0);
    let first = sessions.create_session(&"7".to_owned());
    let second = sessions.create_session(&"7".to_owned());
    assert_eq!(sessions.issued_count(), 2);
    assert_ne!(first, second);
    sessions.delete_session(&first);
    assert_eq!(sessions.issued_count(), 2);
}

#[test]
fn render_decimal_matches_expected_digits() {
    assert_eq!(render_decimal(0), "0");
    assert_eq!(render_decimal(7), "7");
    assert_eq!(render_decimal(10), "10");
    assert_eq!(render_decimal(12345), "12345");
    assert_eq!(render_decimal(9876543210), "9876543210");
}
