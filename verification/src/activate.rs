//! The activation flow.
//!
//! A verification token is signed with the secret of the account it
//! verifies, so the key to check it with is known only once its subject is.
//! The flow therefore reads the subject without trusting it, asks the store
//! for that account's secret, and only then verifies the token in full, with
//! that secret. The account is marked verified after the full check alone.
//!
//! Like the registration flow, this one decides and leaves the store to its
//! caller: `activate_handler` maps state and outcome to the next state and
//! the next action.

use crate::clock::unix_now;
use crate::db::{get_user_verification_secret, update_verified_status, StoreError};
use crate::response::{FlowError, SuccessResponse, STATUS_OK};
use crate::token::{peek_subject, peeked_subject, verified, verify_token_at};
use vstd::prelude::*;

verus! {

/// Query of an activation request.
#[derive(Clone, Debug, PartialEq, Eq)]
pub struct ActivateSchema {
    pub token: String,
}

/// `ActivateSchema` as contracts see it: texts in place of strings.
pub struct ActivateSchemaView {
    pub token: Seq<char>,
}

impl View for ActivateSchema {
    type V = ActivateSchemaView;

    open spec fn view(&self) -> ActivateSchemaView {
        ActivateSchemaView { token: self.token@ }
    }
}

/// Result of a successful activation, as the response body shows it.
#[derive(Clone, Debug, PartialEq, Eq)]
pub struct ActivateResponse {
    pub message: String,
}

/// Where an activation stands.
#[derive(Clone, Debug, PartialEq, Eq)]
pub enum ActivateState {
    /// Nothing has happened yet.
    AwaitingRequest,
    /// The store was asked for the secret of the account that the token
    /// names.
    FetchingSecret { token: String, user_id: u128 },
    /// The token held; the store was asked to mark the account verified.
    UpdatingStatus,
    /// The response is out.
    Finished,
}

/// `ActivateState` as contracts see it: texts in place of strings.
pub enum ActivateStateView {
    AwaitingRequest,
    FetchingSecret { token: Seq<char>, user_id: u128 },
    UpdatingStatus,
    Finished,
}

impl View for ActivateState {
    type V = ActivateStateView;

    open spec fn view(&self) -> ActivateStateView {
        match self {
            ActivateState::AwaitingRequest => ActivateStateView::AwaitingRequest,
            ActivateState::FetchingSecret { token, user_id } => ActivateStateView::FetchingSecret {
                token: token@,
                user_id: *user_id,
            },
            ActivateState::UpdatingStatus => ActivateStateView::UpdatingStatus,
            ActivateState::Finished => ActivateStateView::Finished,
        }
    }
}

/// What came back from the step that the flow asked for.
#[derive(Debug, PartialEq, Eq)]
pub enum ActivateEvent {
    /// An activation request arrived.
    Request(ActivateSchema),
    /// Outcome of fetching the account's verification secret.
    SecretFetched(Result<String, StoreError>),
    /// Outcome of marking the account verified.
    StatusUpdated(Result<(), StoreError>),
}

/// `ActivateEvent` as contracts see it: texts in place of strings.
pub enum ActivateEventView {
    Request(ActivateSchemaView),
    SecretFetched(Result<Seq<char>, StoreError>),
    StatusUpdated(Result<(), StoreError>),
}

impl View for ActivateEvent {
    type V = ActivateEventView;

    open spec fn view(&self) -> ActivateEventView {
        match self {
            ActivateEvent::Request(params) => ActivateEventView::Request(params@),
            ActivateEvent::SecretFetched(Ok(secret)) => ActivateEventView::SecretFetched(
                Ok(secret@),
            ),
            ActivateEvent::SecretFetched(Err(error)) => ActivateEventView::SecretFetched(
                Err(*error),
            ),
            ActivateEvent::StatusUpdated(outcome) => ActivateEventView::StatusUpdated(*outcome),
        }
    }
}

/// What the flow asks its caller to do next.
#[derive(Debug, PartialEq, Eq)]
pub enum ActivateAction {
    /// Fetch the verification secret of this account.
    FetchSecret { user_id: u128 },
    /// Set this account's verification status.
    SetVerified { user_id: u128, verified: bool },
    /// Answer the request; the flow is over.
    Respond(Result<(), FlowError>),
}

/// Ends the flow with a failure.
pub open spec fn failed(error: FlowError) -> (ActivateStateView, ActivateAction) {
    (ActivateStateView::Finished, ActivateAction::Respond(Err(error)))
}

/// A request starts the flow: the token must at least parse, and names the
/// account whose secret is fetched.
pub open spec fn next_on_request(params: ActivateSchemaView) -> (ActivateStateView, ActivateAction) {
    match peeked_subject(params.token) {
        Err(_) => failed(FlowError::InvalidToken),
        Ok(user_id) => (
            ActivateStateView::FetchingSecret { token: params.token, user_id },
            ActivateAction::FetchSecret { user_id },
        ),
    }
}

/// After the secret was fetched: the token is verified in full with it, and
/// only a token that holds lets the account be marked verified.
pub open spec fn next_on_secret_fetched(
    token: Seq<char>,
    user_id: u128,
    outcome: Result<Seq<char>, StoreError>,
    now: u64,
) -> (ActivateStateView, ActivateAction) {
    match outcome {
        Err(_) => failed(FlowError::StoreUnavailable),
        Ok(secret) => if verified(token, secret, now) is Ok {
            (
                ActivateStateView::UpdatingStatus,
                ActivateAction::SetVerified { user_id, verified: true },
            )
        } else {
            failed(FlowError::InvalidToken)
        },
    }
}

/// After the status update: success, unless the store failed.
pub open spec fn next_on_status_updated(outcome: Result<(), StoreError>) -> (
    ActivateStateView,
    ActivateAction,
) {
    match outcome {
        Err(_) => failed(FlowError::StoreUnavailable),
        Ok(_) => (ActivateStateView::Finished, ActivateAction::Respond(Ok(()))),
    }
}

/// The flow's transition function, with the clock at `now`. An outcome that
/// does not answer what the state asked for ends the flow as a store
/// failure.
pub open spec fn activate_next(state: ActivateStateView, event: ActivateEventView, now: u64) -> (
    ActivateStateView,
    ActivateAction,
) {
    match (state, event) {
        (ActivateStateView::AwaitingRequest, ActivateEventView::Request(params)) => next_on_request(
            params,
        ),
        (
            ActivateStateView::FetchingSecret { token, user_id },
            ActivateEventView::SecretFetched(outcome),
        ) => next_on_secret_fetched(token, user_id, outcome, now),
        (ActivateStateView::UpdatingStatus, ActivateEventView::StatusUpdated(outcome)) =>
            next_on_status_updated(outcome),
        _ => failed(FlowError::StoreUnavailable),
    }
}

/// The outcome of a secret lookup as contracts see it.
pub open spec fn secret_outcome_view(outcome: Result<String, StoreError>) -> Result<
    Seq<char>,
    StoreError,
> {
    match outcome {
        Ok(secret) => Ok(secret@),
        Err(error) => Err(error),
    }
}

fn fail(error: FlowError) -> (res: (ActivateState, ActivateAction))
    ensures
        (res.0@, res.1) == failed(error),
{
    (ActivateState::Finished, ActivateAction::Respond(Err(error)))
}

/// Starts the flow for a request.
pub fn on_request(params: ActivateSchema) -> (res: (ActivateState, ActivateAction))
    ensures
        (res.0@, res.1) == next_on_request(params@),
{
    match peek_subject(params.token.as_str()) {
        Err(_) => fail(FlowError::InvalidToken),
        Ok(user_id) => (
            ActivateState::FetchingSecret { token: params.token, user_id },
            ActivateAction::FetchSecret { user_id },
        ),
    }
}

/// Goes on after the secret was fetched, with the clock at `now`.
pub fn on_secret_fetched(
    token: String,
    user_id: u128,
    outcome: Result<String, StoreError>,
    now: u64,
) -> (res: (ActivateState, ActivateAction))
    ensures
        (res.0@, res.1) == next_on_secret_fetched(token@, user_id, secret_outcome_view(outcome), now),
{
    match get_user_verification_secret(outcome) {
        Err(error) => fail(error),
        Ok(secret) => match verify_token_at(token.as_str(), secret.as_str(), now) {
            Err(_) => fail(FlowError::InvalidToken),
            Ok(_) => (
                ActivateState::UpdatingStatus,
                ActivateAction::SetVerified { user_id, verified: true },
            ),
        },
    }
}

/// Goes on after the status update.
pub fn on_status_updated(outcome: Result<(), StoreError>) -> (res: (ActivateState, ActivateAction))
    ensures
        (res.0@, res.1) == next_on_status_updated(outcome),
{
    match update_verified_status(outcome) {
        Err(error) => fail(error),
        Ok(()) => (ActivateState::Finished, ActivateAction::Respond(Ok(()))),
    }
}

/// One step of the activation flow: from the state and the outcome of the
/// last action to the next state and the next action.
///
/// The clock is read here, so the step is the transition function's value
/// at some second; what it is at each second, `activate_next` says.
pub fn activate_handler(state: ActivateState, event: ActivateEvent) -> (res: (
    ActivateState,
    ActivateAction,
))
    ensures
        exists|now: u64| (res.0@, res.1) == #[trigger] activate_next(state@, event@, now),
{
    let ghost before = state@;
    let ghost incoming = event@;
    match (state, event) {
        (ActivateState::AwaitingRequest, ActivateEvent::Request(params)) => {
            let res = on_request(params);
            assert((res.0@, res.1) == activate_next(before, incoming, 0));
            res
        },
        (ActivateState::FetchingSecret { token, user_id }, ActivateEvent::SecretFetched(outcome)) => {
            let now = unix_now();
            let res = on_secret_fetched(token, user_id, outcome, now);
            assert((res.0@, res.1) == activate_next(before, incoming, now));
            res
        },
        (ActivateState::UpdatingStatus, ActivateEvent::StatusUpdated(outcome)) => {
            let res = on_status_updated(outcome);
            assert((res.0@, res.1) == activate_next(before, incoming, 0));
            res
        },
        _ => {
            let res = fail(FlowError::StoreUnavailable);
            assert((res.0@, res.1) == activate_next(before, incoming, 0));
            res
        },
    }
}

/// The response to a completed activation: status 200 and a confirmation.
pub fn activate_reply() -> (reply: (u16, SuccessResponse<ActivateResponse>))
    ensures
        reply.0 == STATUS_OK,
        reply.1.success,
        reply.1.result.message@ == "User activated."@,
{
    (
        STATUS_OK,
        SuccessResponse {
            success: true,
            result: ActivateResponse { message: "User activated.".to_owned() },
        },
    )
}

} // verus!
