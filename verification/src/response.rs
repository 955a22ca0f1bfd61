//! Typed failures and the bodies that go back to the client.

use vstd::prelude::*;

verus! {

pub const STATUS_OK: u16 = 200;

pub const STATUS_BAD_REQUEST: u16 = 400;

pub const STATUS_CONFLICT: u16 = 409;

pub const STATUS_UNSUPPORTED_MEDIA_TYPE: u16 = 415;

pub const STATUS_UNPROCESSABLE_ENTITY: u16 = 422;

pub const STATUS_INTERNAL_SERVER_ERROR: u16 = 500;

/// Every way in which a registration or an activation can fail. Lower
/// layers' errors are folded into one of these before a response is written,
/// so that no internal error text reaches the client.
#[derive(Clone, Copy, Debug, PartialEq, Eq)]
pub enum FlowError {
    /// An account with the e-mail address exists already.
    AlreadyExists,
    /// The password could not be hashed.
    HashingError,
    /// The account store failed or gave no usable answer.
    StoreUnavailable,
    /// A token could not be signed, or the signing configuration is missing.
    TokenSigningError,
    /// The verification token is malformed, expired or not signed with the
    /// account's secret. Which of these is never told to the client.
    InvalidToken,
}

/// Body of a failed request.
#[derive(Clone, Debug, PartialEq, Eq)]
pub struct ErrorResponse {
    pub success: bool,
    pub error: String,
}

/// `ErrorResponse` as contracts see it: texts in place of strings.
pub struct ErrorResponseView {
    pub success: bool,
    pub error: Seq<char>,
}

impl View for ErrorResponse {
    type V = ErrorResponseView;

    open spec fn view(&self) -> ErrorResponseView {
        ErrorResponseView { success: self.success, error: self.error@ }
    }
}

/// Body of a successful request, around its result.
#[derive(Clone, Debug, PartialEq, Eq)]
pub struct SuccessResponse<T> {
    pub success: bool,
    pub result: T,
}

/// Result of the health check: nothing but the fact that it was answered.
#[derive(Clone, Copy, Debug, PartialEq, Eq)]
pub struct HealthCheck {}

/// The HTTP status that a failure is answered with.
pub open spec fn status_of(error: FlowError) -> u16 {
    match error {
        FlowError::AlreadyExists => STATUS_CONFLICT,
        FlowError::InvalidToken => STATUS_BAD_REQUEST,
        FlowError::HashingError => STATUS_INTERNAL_SERVER_ERROR,
        FlowError::StoreUnavailable => STATUS_INTERNAL_SERVER_ERROR,
        FlowError::TokenSigningError => STATUS_INTERNAL_SERVER_ERROR,
    }
}

/// The message that a failure is answered with.
pub open spec fn message_of(error: FlowError) -> Seq<char> {
    match error {
        FlowError::AlreadyExists => "User already exists."@,
        FlowError::InvalidToken => "Invalid verification token."@,
        FlowError::HashingError => "Internal server error. Please try to register again."@,
        FlowError::StoreUnavailable => "Internal server error."@,
        FlowError::TokenSigningError => "Internal server error. Please try to register again."@,
    }
}

impl FlowError {
    /// The HTTP status of the response to this failure: 409 for an existing
    /// account, 400 for a bad token, 500 for everything internal.
    pub fn status(&self) -> (code: u16)
        ensures
            code == status_of(*self),
    {
        match self {
            FlowError::AlreadyExists => STATUS_CONFLICT,
            FlowError::InvalidToken => STATUS_BAD_REQUEST,
            FlowError::HashingError => STATUS_INTERNAL_SERVER_ERROR,
            FlowError::StoreUnavailable => STATUS_INTERNAL_SERVER_ERROR,
            FlowError::TokenSigningError => STATUS_INTERNAL_SERVER_ERROR,
        }
    }

    /// The client-facing message of this failure.
    pub fn message(&self) -> (text: &'static str)
        ensures
            text@ == message_of(*self),
    {
        match self {
            FlowError::AlreadyExists => "User already exists.",
            FlowError::InvalidToken => "Invalid verification token.",
            FlowError::HashingError => "Internal server error. Please try to register again.",
            FlowError::StoreUnavailable => "Internal server error.",
            FlowError::TokenSigningError => "Internal server error. Please try to register again.",
        }
    }

    /// Status and body of the response to this failure.
    pub fn response(&self) -> (reply: (u16, ErrorResponse))
        ensures
            reply.0 == status_of(*self),
            !reply.1.success,
            reply.1.error@ == message_of(*self),
    {
        (self.status(), ErrorResponse { success: false, error: self.message().to_owned() })
    }
}

/// Answers the health check: status 200 around an empty result.
pub fn health_check_handler() -> (reply: (u16, SuccessResponse<HealthCheck>))
    ensures
        reply.0 == STATUS_OK,
        reply.1.success,
{
    (STATUS_OK, SuccessResponse { success: true, result: HealthCheck {  } })
}

} // verus!
