//! The registration flow.
//!
//! A registration talks to the account store three times and reads the
//! signing configuration once. The library does not perform these steps: it
//! decides. `register_handler` takes the flow's state and the outcome of the
//! step before, and returns the next state and what is to be done next. The
//! caller performs that action and comes back with its outcome, until the
//! action is `Respond`.
//!
//! In order: is there an account with the e-mail address already; hash the
//! password and insert the account; read issuer and access-token secret;
//! sign the access token, draw the account's verification secret and store
//! it; sign the verification token with that secret; respond. The first
//! failure ends the flow, and no later step is asked for.

use crate::clock::unix_now;
use crate::cookie::{session_cookie, session_cookie_text};
use crate::db::{
    insert_new_user, insert_new_user_verification, inserted_user, is_user_exists, user_exists,
    NewUser, NewUserVerification, NewUserVerificationView, NewUserView, StoreError,
};
use crate::password::{
    hash_password, hash_text, is_hash_shaped, password_matches, HashingError,
};
use crate::response::{FlowError, SuccessResponse, STATUS_OK};
use crate::secret::{draw_secret_bytes, secret_from_bytes, secret_text, SECRET_BYTES};
use crate::text::text_of;
use crate::token::{claims_issued_at, holds_as_issued, issue_token_at, token_for};
use vstd::prelude::*;

verus! {

/// Body of a registration request.
#[derive(Clone, Debug, PartialEq, Eq)]
pub struct RegisterSchema {
    pub email: String,
    pub password: String,
}

/// `RegisterSchema` as contracts see it: texts in place of strings.
pub struct RegisterSchemaView {
    pub email: Seq<char>,
    pub password: Seq<char>,
}

impl View for RegisterSchema {
    type V = RegisterSchemaView;

    open spec fn view(&self) -> RegisterSchemaView {
        RegisterSchemaView { email: self.email@, password: self.password@ }
    }
}

/// Result of a successful registration, as the response body shows it.
#[derive(Clone, Debug, PartialEq, Eq)]
pub struct RegisterResponse {
    pub message: String,
    pub verification_token: String,
}

/// What a completed registration hands out: the access token for the session
/// cookie and the verification token for the activation link.
#[derive(Clone, Debug, PartialEq, Eq)]
pub struct Registered {
    pub access_token: String,
    pub verification_token: String,
}

/// `Registered` as contracts see it: texts in place of strings.
pub struct RegisteredView {
    pub access_token: Seq<char>,
    pub verification_token: Seq<char>,
}

impl View for Registered {
    type V = RegisteredView;

    open spec fn view(&self) -> RegisteredView {
        RegisteredView {
            access_token: self.access_token@,
            verification_token: self.verification_token@,
        }
    }
}

/// Where a registration stands.
#[derive(Clone, Debug, PartialEq, Eq)]
pub enum RegisterState {
    /// Nothing has happened yet.
    AwaitingRequest,
    /// The store was asked whether the e-mail address is taken.
    CheckingUser { body: RegisterSchema },
    /// The store was asked to insert the account.
    InsertingUser,
    /// The account exists; issuer and access-token secret are being read.
    LoadingConfig { user_id: u128 },
    /// The store was asked to keep the account's verification secret.
    InsertingVerification { user_id: u128, issuer: String, access_token: String, secret: String },
    /// The response is out.
    Finished,
}

/// `RegisterState` as contracts see it: texts in place of strings.
pub enum RegisterStateView {
    AwaitingRequest,
    CheckingUser { body: RegisterSchemaView },
    InsertingUser,
    LoadingConfig { user_id: u128 },
    InsertingVerification {
        user_id: u128,
        issuer: Seq<char>,
        access_token: Seq<char>,
        secret: Seq<char>,
    },
    Finished,
}

impl View for RegisterState {
    type V = RegisterStateView;

    open spec fn view(&self) -> RegisterStateView {
        match self {
            RegisterState::AwaitingRequest => RegisterStateView::AwaitingRequest,
            RegisterState::CheckingUser { body } => RegisterStateView::CheckingUser { body: body@ },
            RegisterState::InsertingUser => RegisterStateView::InsertingUser,
            RegisterState::LoadingConfig { user_id } => RegisterStateView::LoadingConfig {
                user_id: *user_id,
            },
            RegisterState::InsertingVerification { user_id, issuer, access_token, secret } =>
                RegisterStateView::InsertingVerification {
                    user_id: *user_id,
                    issuer: issuer@,
                    access_token: access_token@,
                    secret: secret@,
                },
            RegisterState::Finished => RegisterStateView::Finished,
        }
    }
}

/// What came back from the step that the flow asked for.
#[derive(Debug, PartialEq, Eq)]
pub enum RegisterEvent {
    /// A registration request arrived.
    Request(RegisterSchema),
    /// Outcome of the existence query.
    UserChecked(Result<Option<bool>, StoreError>),
    /// Outcome of the account insert: the new account's identifier.
    UserInserted(Result<u128, StoreError>),
    /// The configured issuer and access-token secret, each as far as it is
    /// set.
    ConfigLoaded { issuer: Option<String>, access_token_secret: Option<String> },
    /// Outcome of storing the verification secret.
    VerificationInserted(Result<(), StoreError>),
}

/// `RegisterEvent` as contracts see it: texts in place of strings.
pub enum RegisterEventView {
    Request(RegisterSchemaView),
    UserChecked(Result<Option<bool>, StoreError>),
    UserInserted(Result<u128, StoreError>),
    ConfigLoaded { issuer: Option<Seq<char>>, access_token_secret: Option<Seq<char>> },
    VerificationInserted(Result<(), StoreError>),
}

impl View for RegisterEvent {
    type V = RegisterEventView;

    open spec fn view(&self) -> RegisterEventView {
        match self {
            RegisterEvent::Request(body) => RegisterEventView::Request(body@),
            RegisterEvent::UserChecked(row) => RegisterEventView::UserChecked(*row),
            RegisterEvent::UserInserted(outcome) => RegisterEventView::UserInserted(*outcome),
            RegisterEvent::ConfigLoaded { issuer, access_token_secret } =>
                RegisterEventView::ConfigLoaded {
                    issuer: text_of(*issuer),
                    access_token_secret: text_of(*access_token_secret),
                },
            RegisterEvent::VerificationInserted(outcome) => RegisterEventView::VerificationInserted(
                *outcome,
            ),
        }
    }
}

/// What the flow asks its caller to do next.
#[derive(Debug, PartialEq, Eq)]
pub enum RegisterAction {
    /// Ask the store whether an account with this e-mail address exists.
    CheckUser { email: String },
    /// Insert this account.
    InsertUser(NewUser),
    /// Read issuer and access-token secret from the configuration.
    LoadConfig,
    /// Store this verification secret.
    InsertVerification(NewUserVerification),
    /// Answer the request; the flow is over.
    Respond(Result<Registered, FlowError>),
}

/// `RegisterAction` as contracts see it: texts in place of strings.
pub enum RegisterActionView {
    CheckUser { email: Seq<char> },
    InsertUser(NewUserView),
    LoadConfig,
    InsertVerification(NewUserVerificationView),
    Respond(Result<RegisteredView, FlowError>),
}

impl View for RegisterAction {
    type V = RegisterActionView;

    open spec fn view(&self) -> RegisterActionView {
        match self {
            RegisterAction::CheckUser { email } => RegisterActionView::CheckUser { email: email@ },
            RegisterAction::InsertUser(user) => RegisterActionView::InsertUser(user@),
            RegisterAction::LoadConfig => RegisterActionView::LoadConfig,
            RegisterAction::InsertVerification(verification) =>
                RegisterActionView::InsertVerification(verification@),
            RegisterAction::Respond(Ok(registered)) => RegisterActionView::Respond(Ok(registered@)),
            RegisterAction::Respond(Err(error)) => RegisterActionView::Respond(Err(*error)),
        }
    }
}

/// What a step of the flow takes from outside the request: the outcome of
/// hashing, the clock, and fresh random bytes. A step reads only what it
/// needs.
pub struct Outside {
    /// The hash that bcrypt made of the password, or `None` where it failed.
    pub hash: Option<Seq<char>>,
    /// The second at which a token is issued.
    pub now: u64,
    /// The bytes behind the verification secret.
    pub random: Seq<u8>,
}

/// Ends the flow with a failure.
pub open spec fn failed(error: FlowError) -> (RegisterStateView, RegisterActionView) {
    (RegisterStateView::Finished, RegisterActionView::Respond(Err(error)))
}

/// A request starts the flow with the existence query.
pub open spec fn next_on_request(body: RegisterSchemaView) -> (
    RegisterStateView,
    RegisterActionView,
) {
    (RegisterStateView::CheckingUser { body }, RegisterActionView::CheckUser { email: body.email })
}

/// After hashing: the account is inserted with the hash in place of the
/// password.
pub open spec fn next_on_hashed(email: Seq<char>, hash: Option<Seq<char>>) -> (
    RegisterStateView,
    RegisterActionView,
) {
    match hash {
        None => failed(FlowError::HashingError),
        Some(hash) => (
            RegisterStateView::InsertingUser,
            RegisterActionView::InsertUser(NewUserView { email, password: hash }),
        ),
    }
}

/// After the existence query: an existing account ends the flow before
/// anything is written; otherwise the password is hashed.
pub open spec fn next_on_user_checked(
    body: RegisterSchemaView,
    row: Result<Option<bool>, StoreError>,
    hash: Option<Seq<char>>,
) -> (RegisterStateView, RegisterActionView) {
    match user_exists(row) {
        Err(error) => failed(error),
        Ok(true) => failed(FlowError::AlreadyExists),
        Ok(false) => next_on_hashed(body.email, hash),
    }
}

/// After the insert: the configuration is read for the new account.
pub open spec fn next_on_user_inserted(outcome: Result<u128, StoreError>) -> (
    RegisterStateView,
    RegisterActionView,
) {
    match inserted_user(outcome) {
        Err(error) => failed(error),
        Ok(user_id) => (
            RegisterStateView::LoadingConfig { user_id },
            RegisterActionView::LoadConfig,
        ),
    }
}

/// After the configuration was read: the access token is signed with the
/// service-wide secret, and the account's own secret is drawn and sent to
/// the store.
pub open spec fn next_on_config_loaded(
    user_id: u128,
    issuer: Option<Seq<char>>,
    access_token_secret: Option<Seq<char>>,
    now: u64,
    random: Seq<u8>,
) -> (RegisterStateView, RegisterActionView) {
    if issuer is Some && access_token_secret is Some && claims_issued_at(user_id, issuer->0, now)
        is Some && token_for(claims_issued_at(user_id, issuer->0, now)->0, access_token_secret->0)
        is Some {
        (
            RegisterStateView::InsertingVerification {
                user_id,
                issuer: issuer->0,
                access_token: token_for(
                    claims_issued_at(user_id, issuer->0, now)->0,
                    access_token_secret->0,
                )->0,
                secret: secret_text(random),
            },
            RegisterActionView::InsertVerification(
                NewUserVerificationView { user_id, secret: secret_text(random) },
            ),
        )
    } else {
        failed(FlowError::TokenSigningError)
    }
}

/// After the secret was stored: the verification token is signed with it,
/// and both tokens go out.
pub open spec fn next_on_verification_inserted(
    user_id: u128,
    issuer: Seq<char>,
    access_token: Seq<char>,
    secret: Seq<char>,
    outcome: Result<(), StoreError>,
    now: u64,
) -> (RegisterStateView, RegisterActionView) {
    if outcome is Err {
        failed(FlowError::StoreUnavailable)
    } else if claims_issued_at(user_id, issuer, now) is Some && token_for(
        claims_issued_at(user_id, issuer, now)->0,
        secret,
    ) is Some {
        (
            RegisterStateView::Finished,
            RegisterActionView::Respond(
                Ok(
                    RegisteredView {
                        access_token,
                        verification_token: token_for(
                            claims_issued_at(user_id, issuer, now)->0,
                            secret,
                        )->0,
                    },
                ),
            ),
        )
    } else {
        failed(FlowError::TokenSigningError)
    }
}

/// The flow's transition function. An outcome that does not answer what the
/// state asked for ends the flow as a store failure.
pub open spec fn register_next(state: RegisterStateView, event: RegisterEventView, outside: Outside) -> (
    RegisterStateView,
    RegisterActionView,
) {
    match (state, event) {
        (RegisterStateView::AwaitingRequest, RegisterEventView::Request(body)) => next_on_request(
            body,
        ),
        (RegisterStateView::CheckingUser { body }, RegisterEventView::UserChecked(row)) =>
            next_on_user_checked(body, row, outside.hash),
        (RegisterStateView::InsertingUser, RegisterEventView::UserInserted(outcome)) =>
            next_on_user_inserted(outcome),
        (
            RegisterStateView::LoadingConfig { user_id },
            RegisterEventView::ConfigLoaded { issuer, access_token_secret },
        ) => next_on_config_loaded(user_id, issuer, access_token_secret, outside.now, outside.random),
        (
            RegisterStateView::InsertingVerification { user_id, issuer, access_token, secret },
            RegisterEventView::VerificationInserted(outcome),
        ) => next_on_verification_inserted(
            user_id,
            issuer,
            access_token,
            secret,
            outcome,
            outside.now,
        ),
        _ => failed(FlowError::StoreUnavailable),
    }
}

/// What can be said of the outside world whatever it does: the random bytes
/// are as many as a secret takes, and a hash that bcrypt returned for the
/// password under check is a hash of that password.
pub open spec fn plausible(outside: Outside, state: RegisterStateView) -> bool {
    &&& outside.random.len() == SECRET_BYTES
    &&& (state is CheckingUser && outside.hash is Some) ==> {
        &&& is_hash_shaped(outside.hash->0)
        &&& password_matches(state->CheckingUser_body.password, outside.hash->0)
    }
}

/// What holds of the tokens that a step signs: each holds as issued, the
/// access token under the service-wide secret, the verification token under
/// the account's own.
pub open spec fn issued_tokens_hold(
    state: RegisterStateView,
    event: RegisterEventView,
    outside: Outside,
) -> bool {
    match (state, event) {
        (
            RegisterStateView::LoadingConfig { user_id },
            RegisterEventView::ConfigLoaded { issuer: Some(issuer), access_token_secret: Some(key) },
        ) => signed_token_holds(user_id, issuer, key, outside.now),
        (
            RegisterStateView::InsertingVerification { user_id, issuer, access_token, secret },
            RegisterEventView::VerificationInserted(Ok(_)),
        ) => signed_token_holds(user_id, issuer, secret, outside.now),
        _ => true,
    }
}

/// The token signed for `user_id` at `now` under `key`, if there is one,
/// holds as issued.
pub open spec fn signed_token_holds(user_id: u128, issuer: Seq<char>, key: Seq<char>, now: u64) -> bool {
    (claims_issued_at(user_id, issuer, now) is Some && token_for(
        claims_issued_at(user_id, issuer, now)->0,
        key,
    ) is Some) ==> holds_as_issued(
        token_for(claims_issued_at(user_id, issuer, now)->0, key)->0,
        key,
        claims_issued_at(user_id, issuer, now)->0,
    )
}

fn fail(error: FlowError) -> (res: (RegisterState, RegisterAction))
    ensures
        (res.0@, res.1@) == failed(error),
{
    (RegisterState::Finished, RegisterAction::Respond(Err(error)))
}

/// Starts the flow for a request.
pub fn on_request(body: RegisterSchema) -> (res: (RegisterState, RegisterAction))
    ensures
        (res.0@, res.1@) == next_on_request(body@),
{
    let email = body.email.clone();
    (RegisterState::CheckingUser { body }, RegisterAction::CheckUser { email })
}

/// Goes on after the password was hashed: inserts the account with the hash,
/// or ends the flow where hashing failed.
pub fn on_hashed(email: String, hashed: Result<String, HashingError>) -> (res: (
    RegisterState,
    RegisterAction,
))
    ensures
        (res.0@, res.1@) == next_on_hashed(email@, hash_text(hashed)),
{
    match hashed {
        Err(_) => fail(FlowError::HashingError),
        Ok(hash) => (
            RegisterState::InsertingUser,
            RegisterAction::InsertUser(NewUser { email, password: hash }),
        ),
    }
}

/// Goes on after the account insert.
pub fn on_user_inserted(outcome: Result<u128, StoreError>) -> (res: (RegisterState, RegisterAction))
    ensures
        (res.0@, res.1@) == next_on_user_inserted(outcome),
{
    match insert_new_user(outcome) {
        Err(error) => fail(error),
        Ok(user_id) => (RegisterState::LoadingConfig { user_id }, RegisterAction::LoadConfig),
    }
}

/// Goes on after the configuration was read, with the clock at `now` and
/// `random` as the bytes of the account's secret.
pub fn on_config_loaded(
    user_id: u128,
    issuer: Option<String>,
    access_token_secret: Option<String>,
    now: u64,
    random: &[u8; 32],
) -> (res: (RegisterState, RegisterAction))
    ensures
        (res.0@, res.1@) == next_on_config_loaded(
            user_id,
            text_of(issuer),
            text_of(access_token_secret),
            now,
            random@,
        ),
        (issuer is Some && access_token_secret is Some) ==> signed_token_holds(
            user_id,
            issuer->0@,
            access_token_secret->0@,
            now,
        ),
{
    match (issuer, access_token_secret) {
        (Some(issuer), Some(key)) => match issue_token_at(
            user_id,
            issuer.as_str(),
            key.as_str(),
            now,
        ) {
            Err(_) => fail(FlowError::TokenSigningError),
            Ok(access_token) => {
                let secret = secret_from_bytes(random);
                let kept = secret.clone();
                (
                    RegisterState::InsertingVerification {
                        user_id,
                        issuer,
                        access_token,
                        secret: kept,
                    },
                    RegisterAction::InsertVerification(NewUserVerification { user_id, secret }),
                )
            },
        },
        _ => fail(FlowError::TokenSigningError),
    }
}

/// Goes on after the verification secret was stored, with the clock at
/// `now`.
pub fn on_verification_inserted(
    user_id: u128,
    issuer: String,
    access_token: String,
    secret: String,
    outcome: Result<(), StoreError>,
    now: u64,
) -> (res: (RegisterState, RegisterAction))
    ensures
        (res.0@, res.1@) == next_on_verification_inserted(
            user_id,
            issuer@,
            access_token@,
            secret@,
            outcome,
            now,
        ),
        outcome is Ok ==> signed_token_holds(user_id, issuer@, secret@, now),
{
    match insert_new_user_verification(outcome) {
        Err(error) => fail(error),
        Ok(()) => match issue_token_at(user_id, issuer.as_str(), secret.as_str(), now) {
            Err(_) => fail(FlowError::TokenSigningError),
            Ok(verification_token) => (
                RegisterState::Finished,
                RegisterAction::Respond(Ok(Registered { access_token, verification_token })),
            ),
        },
    }
}

/// One step of the registration flow: from the state and the outcome of the
/// last action to the next state and the next action.
///
/// Hashing, the clock and the random generator are consulted here, so the
/// step is the transition function's value for some outcome of theirs; what
/// it is for each outcome, `register_next` says.
pub fn register_handler(state: RegisterState, event: RegisterEvent) -> (res: (
    RegisterState,
    RegisterAction,
))
    ensures
        exists|outside: Outside|
            plausible(outside, state@) && issued_tokens_hold(state@, event@, outside) && (
                res.0@,
                res.1@,
            ) == #[trigger] register_next(state@, event@, outside),
{
    let ghost idle = Outside { hash: None, now: 0, random: Seq::new(32, |i: int| 0u8) };
    let ghost before = state@;
    let ghost incoming = event@;
    match (state, event) {
        (RegisterState::AwaitingRequest, RegisterEvent::Request(body)) => {
            let res = on_request(body);
            assert(plausible(idle, before) && issued_tokens_hold(before, incoming, idle) && (
                res.0@,
                res.1@,
            ) == register_next(before, incoming, idle));
            res
        },
        (RegisterState::CheckingUser { body }, RegisterEvent::UserChecked(row)) => {
            match is_user_exists(row) {
                Err(error) => {
                    let res = fail(error);
                    assert(plausible(idle, before) && issued_tokens_hold(before, incoming, idle)
                        && (res.0@, res.1@) == register_next(before, incoming, idle));
                    res
                },
                Ok(true) => {
                    let res = fail(FlowError::AlreadyExists);
                    assert(plausible(idle, before) && issued_tokens_hold(before, incoming, idle)
                        && (res.0@, res.1@) == register_next(before, incoming, idle));
                    res
                },
                Ok(false) => {
                    let hashed = hash_password(body.password.as_str());
                    let ghost seen = Outside {
                        hash: hash_text(hashed),
                        now: 0,
                        random: idle.random,
                    };
                    let res = on_hashed(body.email, hashed);
                    assert(plausible(seen, before) && issued_tokens_hold(before, incoming, seen)
                        && (res.0@, res.1@) == register_next(before, incoming, seen));
                    res
                },
            }
        },
        (RegisterState::InsertingUser, RegisterEvent::UserInserted(outcome)) => {
            let res = on_user_inserted(outcome);
            assert(plausible(idle, before) && issued_tokens_hold(before, incoming, idle) && (
                res.0@,
                res.1@,
            ) == register_next(before, incoming, idle));
            res
        },
        (
            RegisterState::LoadingConfig { user_id },
            RegisterEvent::ConfigLoaded { issuer, access_token_secret },
        ) => {
            let now = unix_now();
            let random = draw_secret_bytes();
            let ghost seen = Outside { hash: None, now, random: random@ };
            let res = on_config_loaded(user_id, issuer, access_token_secret, now, &random);
            assert(plausible(seen, before) && issued_tokens_hold(before, incoming, seen) && (
                res.0@,
                res.1@,
            ) == register_next(before, incoming, seen));
            res
        },
        (
            RegisterState::InsertingVerification { user_id, issuer, access_token, secret },
            RegisterEvent::VerificationInserted(outcome),
        ) => {
            let now = unix_now();
            let ghost seen = Outside { hash: None, now, random: idle.random };
            let res = on_verification_inserted(user_id, issuer, access_token, secret, outcome, now);
            assert(plausible(seen, before) && issued_tokens_hold(before, incoming, seen) && (
                res.0@,
                res.1@,
            ) == register_next(before, incoming, seen));
            res
        },
        _ => {
            let res = fail(FlowError::StoreUnavailable);
            assert(plausible(idle, before) && issued_tokens_hold(before, incoming, idle) && (
                res.0@,
                res.1@,
            ) == register_next(before, incoming, idle));
            res
        },
    }
}

/// Status, body and `Set-Cookie` header value of the response to a
/// completed registration.
#[derive(Clone, Debug, PartialEq, Eq)]
pub struct RegisterReply {
    pub status: u16,
    pub body: SuccessResponse<RegisterResponse>,
    pub set_cookie: String,
}

/// The response to a completed registration: status 200, the verification
/// token in the body, the access token in the session cookie.
pub fn register_reply(registered: Registered) -> (reply: RegisterReply)
    ensures
        reply.status == STATUS_OK,
        reply.body.success,
        reply.body.result.message@ == "User registration complete."@,
        reply.body.result.verification_token@ == registered.verification_token@,
        reply.set_cookie@ == session_cookie_text(registered.access_token@),
{
    let set_cookie = session_cookie(registered.access_token.as_str());
    RegisterReply {
        status: STATUS_OK,
        body: SuccessResponse {
            success: true,
            result: RegisterResponse {
                message: "User registration complete.".to_owned(),
                verification_token: registered.verification_token,
            },
        },
        set_cookie,
    }
}

} // verus!
