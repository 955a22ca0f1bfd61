use chat_rs::cookie::session_cookie;
use chat_rs::db::{
    get_user_password, get_user_verification_secret, insert_new_user,
    insert_new_user_verification, is_user_exists, update_verified_status, StoreError,
};
use chat_rs::register::{register_reply, Registered};
use chat_rs::response::{health_check_handler, ErrorResponse, FlowError, HealthCheck};

#[test]
fn each_failure_has_its_status_and_message() {
    let cases = [
        (FlowError::AlreadyExists, 409, "User already exists."),
        (FlowError::InvalidToken, 400, "Invalid verification token."),
        (FlowError::StoreUnavailable, 500, "Internal server error."),
        (FlowError::HashingError, 500, "Internal server error. Please try to register again."),
        (FlowError::TokenSigningError, 500, "Internal server error. Please try to register again."),
    ];
    for (error, status, message) in cases {
        assert_eq!(error.status(), status);
        assert_eq!(error.message(), message);
        assert_eq!(
            error.response(),
            (status, ErrorResponse { success: false, error: message.to_string() })
        );
    }
}

#[test]
fn health_check_answers_ok() {
    let (status, body) = health_check_handler();
    assert_eq!(status, 200);
    assert!(body.success);
    assert_eq!(body.result, HealthCheck {});
}

#[test]
fn existence_query_reads_a_missing_answer_as_no() {
    assert_eq!(is_user_exists(Ok(Some(true))), Ok(true));
    assert_eq!(is_user_exists(Ok(Some(false))), Ok(false));
    assert_eq!(is_user_exists(Ok(None)), Ok(false));
    assert_eq!(is_user_exists(Err(StoreError::Unavailable)), Err(FlowError::StoreUnavailable));
    assert_eq!(is_user_exists(Err(StoreError::DuplicateEmail)), Err(FlowError::StoreUnavailable));
}

#[test]
fn insert_tells_a_taken_email_from_a_store_failure() {
    assert_eq!(insert_new_user(Ok(7)), Ok(7));
    assert_eq!(insert_new_user(Err(StoreError::DuplicateEmail)), Err(FlowError::AlreadyExists));
    assert_eq!(insert_new_user(Err(StoreError::Unavailable)), Err(FlowError::StoreUnavailable));
}

#[test]
fn other_store_outcomes_pass_through_or_fail_as_unavailable() {
    assert_eq!(get_user_password(Ok("$2b$hash".to_string())), Ok("$2b$hash".to_string()));
    assert_eq!(get_user_password(Err(StoreError::Unavailable)), Err(FlowError::StoreUnavailable));
    assert_eq!(get_user_verification_secret(Ok("ab".to_string())), Ok("ab".to_string()));
    assert_eq!(
        get_user_verification_secret(Err(StoreError::Unavailable)),
        Err(FlowError::StoreUnavailable)
    );
    assert_eq!(update_verified_status(Ok(())), Ok(()));
    assert_eq!(update_verified_status(Err(StoreError::Unavailable)), Err(FlowError::StoreUnavailable));
    assert_eq!(insert_new_user_verification(Ok(())), Ok(()));
    assert_eq!(
        insert_new_user_verification(Err(StoreError::DuplicateEmail)),
        Err(FlowError::StoreUnavailable)
    );
}

#[test]
fn session_cookie_is_http_only_lax_path_scoped_and_lives_as_long_as_the_token() {
    assert_eq!(session_cookie("abc"), "token=abc; HttpOnly; SameSite=Lax; Path=/; Max-Age=300");
}

#[test]
fn session_cookie_is_not_secure() {
    assert!(!session_cookie("abc.def.ghi").contains("Secure"));
}

#[test]
fn registration_reply_carries_both_tokens() {
    let reply = register_reply(Registered {
        access_token: "access".to_string(),
        verification_token: "verification".to_string(),
    });
    assert_eq!(reply.status, 200);
    assert!(reply.body.success);
    assert_eq!(reply.body.result.message, "User registration complete.");
    assert_eq!(reply.body.result.verification_token, "verification");
    assert_eq!(reply.set_cookie, "token=access; HttpOnly; SameSite=Lax; Path=/; Max-Age=300");
}
