use chat_rs::activate::{
    activate_handler, activate_reply, on_secret_fetched, ActivateAction, ActivateEvent,
    ActivateSchema, ActivateState,
};
use chat_rs::db::{NewUser, NewUserVerification, StoreError};
use chat_rs::password::verify_password;
use chat_rs::register::{
    on_config_loaded, on_hashed, on_verification_inserted, register_handler, register_reply,
    RegisterAction, RegisterEvent, RegisterSchema, RegisterState, Registered,
};
use chat_rs::response::FlowError;
use chat_rs::token::{issue_token_at, peek_subject, verify_token, TokenFailure};

const ISSUER: &str = "chat";
const ACCESS_SECRET: &str = "service-wide-secret";

#[derive(Clone, Debug, PartialEq)]
struct Account {
    id: u128,
    email: String,
    password_hash: String,
    verified: bool,
}

/// An account store in memory: unique e-mail addresses, identifiers counted up.
#[derive(Clone, Debug, PartialEq)]
struct MemoryStore {
    accounts: Vec<Account>,
    secrets: Vec<(u128, String)>,
    next_id: u128,
    down: bool,
    secrets_down: bool,
}

impl MemoryStore {
    fn new() -> Self {
        MemoryStore {
            accounts: Vec::new(),
            secrets: Vec::new(),
            next_id: 1,
            down: false,
            secrets_down: false,
        }
    }

    fn has_email(&self, email: &str) -> bool {
        self.accounts.iter().any(|a| a.email == email)
    }

    fn insert(&mut self, user: NewUser) -> Result<u128, StoreError> {
        if self.has_email(&user.email) {
            return Err(StoreError::DuplicateEmail);
        }
        let id = self.next_id;
        self.next_id += 1;
        self.accounts.push(Account {
            id,
            email: user.email,
            password_hash: user.password,
            verified: false,
        });
        Ok(id)
    }

    fn secret_of(&self, id: u128) -> Result<String, StoreError> {
        self.secrets
            .iter()
            .find(|(owner, _)| *owner == id)
            .map(|(_, secret)| secret.clone())
            .ok_or(StoreError::Unavailable)
    }

    fn account(&self, id: u128) -> &Account {
        self.accounts.iter().find(|a| a.id == id).unwrap()
    }
}

fn body(email: &str, password: &str) -> RegisterSchema {
    RegisterSchema { email: email.to_string(), password: password.to_string() }
}

fn register(store: &mut MemoryStore, body: RegisterSchema) -> Result<Registered, FlowError> {
    let (mut state, mut action) =
        register_handler(RegisterState::AwaitingRequest, RegisterEvent::Request(body));
    loop {
        let event = match action {
            RegisterAction::CheckUser { email } => {
                if store.down {
                    RegisterEvent::UserChecked(Err(StoreError::Unavailable))
                } else {
                    RegisterEvent::UserChecked(Ok(Some(store.has_email(&email))))
                }
            }
            RegisterAction::InsertUser(user) => RegisterEvent::UserInserted(store.insert(user)),
            RegisterAction::LoadConfig => RegisterEvent::ConfigLoaded {
                issuer: Some(ISSUER.to_string()),
                access_token_secret: Some(ACCESS_SECRET.to_string()),
            },
            RegisterAction::InsertVerification(NewUserVerification { user_id, secret }) => {
                if store.secrets_down {
                    RegisterEvent::VerificationInserted(Err(StoreError::Unavailable))
                } else {
                    store.secrets.push((user_id, secret));
                    RegisterEvent::VerificationInserted(Ok(()))
                }
            }
            RegisterAction::Respond(outcome) => {
                assert_eq!(state, RegisterState::Finished);
                return outcome;
            }
        };
        let next = register_handler(state, event);
        state = next.0;
        action = next.1;
    }
}

fn activate(store: &mut MemoryStore, token: &str) -> Result<(), FlowError> {
    let (mut state, mut action) = activate_handler(
        ActivateState::AwaitingRequest,
        ActivateEvent::Request(ActivateSchema { token: token.to_string() }),
    );
    loop {
        let event = match action {
            ActivateAction::FetchSecret { user_id } => {
                ActivateEvent::SecretFetched(store.secret_of(user_id))
            }
            ActivateAction::SetVerified { user_id, verified } => {
                if store.down {
                    ActivateEvent::StatusUpdated(Err(StoreError::Unavailable))
                } else {
                    for account in store.accounts.iter_mut() {
                        if account.id == user_id {
                            account.verified = verified;
                        }
                    }
                    ActivateEvent::StatusUpdated(Ok(()))
                }
            }
            ActivateAction::Respond(outcome) => {
                assert_eq!(state, ActivateState::Finished);
                return outcome;
            }
        };
        let next = activate_handler(state, event);
        state = next.0;
        action = next.1;
    }
}

#[test]
fn registration_creates_an_unverified_account_with_a_hashed_password() {
    let mut store = MemoryStore::new();
    let registered = register(&mut store, body("a@x.com", "s3cret")).unwrap();
    assert_eq!(store.accounts.len(), 1);
    let account = store.account(1).clone();
    assert_eq!(account.email, "a@x.com");
    assert!(!account.verified);
    assert_ne!(account.password_hash, "s3cret");
    assert!(verify_password("s3cret", &account.password_hash));
    assert_eq!(store.secrets.len(), 1);
    assert_eq!(store.secrets[0].0, 1);
    assert_eq!(store.secrets[0].1.len(), 64);
    assert!(!registered.access_token.is_empty());
    assert!(!registered.verification_token.is_empty());
}

#[test]
fn registration_signs_each_token_with_its_own_key() {
    let mut store = MemoryStore::new();
    let registered = register(&mut store, body("a@x.com", "s3cret")).unwrap();
    let secret = store.secrets[0].1.clone();
    let access = verify_token(&registered.access_token, ACCESS_SECRET).unwrap();
    assert_eq!(access.sub, 1);
    assert_eq!(access.iss, ISSUER);
    let verification = verify_token(&registered.verification_token, &secret).unwrap();
    assert_eq!(verification.sub, 1);
    assert_eq!(verification.iss, ISSUER);
    assert_eq!(
        verify_token(&registered.access_token, &secret),
        Err(TokenFailure::SignatureInvalid)
    );
    assert_eq!(
        verify_token(&registered.verification_token, ACCESS_SECRET),
        Err(TokenFailure::SignatureInvalid)
    );
}

#[test]
fn second_registration_with_the_same_email_is_refused_and_changes_nothing() {
    let mut store = MemoryStore::new();
    register(&mut store, body("a@x.com", "s3cret")).unwrap();
    let before = store.clone();
    assert_eq!(register(&mut store, body("a@x.com", "other")), Err(FlowError::AlreadyExists));
    assert_eq!(store, before);
    assert!(verify_password("s3cret", &store.account(1).password_hash));
}

#[test]
fn registrations_with_different_emails_get_accounts_of_their_own() {
    let mut store = MemoryStore::new();
    register(&mut store, body("a@x.com", "s3cret")).unwrap();
    register(&mut store, body("b@x.com", "s3cret")).unwrap();
    assert_eq!(store.accounts.len(), 2);
    assert_ne!(store.secrets[0].1, store.secrets[1].1);
    assert_ne!(store.account(1).password_hash, store.account(2).password_hash);
}

#[test]
fn emails_are_compared_as_stored() {
    let mut store = MemoryStore::new();
    register(&mut store, body("a@x.com", "s3cret")).unwrap();
    assert!(register(&mut store, body("A@x.com", "s3cret")).is_ok());
}

#[test]
fn registration_fails_before_any_write_when_the_store_is_down() {
    let mut store = MemoryStore::new();
    store.down = true;
    assert_eq!(register(&mut store, body("a@x.com", "s3cret")), Err(FlowError::StoreUnavailable));
    assert!(store.accounts.is_empty());
    assert!(store.secrets.is_empty());
}

#[test]
fn failed_secret_insert_leaves_an_account_that_cannot_be_verified() {
    let mut store = MemoryStore::new();
    store.secrets_down = true;
    assert_eq!(register(&mut store, body("a@x.com", "s3cret")), Err(FlowError::StoreUnavailable));
    assert_eq!(store.accounts.len(), 1);
    assert!(!store.account(1).verified);
    assert!(store.secrets.is_empty());
    store.secrets_down = false;
    assert_eq!(register(&mut store, body("a@x.com", "s3cret")), Err(FlowError::AlreadyExists));
}

#[test]
fn first_step_asks_whether_the_email_is_taken() {
    let (state, action) =
        register_handler(RegisterState::AwaitingRequest, RegisterEvent::Request(body("a@x.com", "s3cret")));
    assert_eq!(state, RegisterState::CheckingUser { body: body("a@x.com", "s3cret") });
    assert_eq!(action, RegisterAction::CheckUser { email: "a@x.com".to_string() });
}

#[test]
fn existing_account_ends_the_flow_without_hashing_or_writing() {
    let state = RegisterState::CheckingUser { body: body("a@x.com", "s3cret") };
    let (state, action) = register_handler(state, RegisterEvent::UserChecked(Ok(Some(true))));
    assert_eq!(state, RegisterState::Finished);
    assert_eq!(action, RegisterAction::Respond(Err(FlowError::AlreadyExists)));
}

#[test]
fn unanswered_existence_query_counts_as_no_account() {
    let state = RegisterState::CheckingUser { body: body("a@x.com", "s3cret") };
    let (state, action) = register_handler(state, RegisterEvent::UserChecked(Ok(None)));
    assert_eq!(state, RegisterState::InsertingUser);
    match action {
        RegisterAction::InsertUser(user) => {
            assert_eq!(user.email, "a@x.com");
            assert!(verify_password("s3cret", &user.password));
        }
        other => panic!("unexpected action {:?}", other),
    }
}

#[test]
fn uniqueness_violation_on_insert_is_an_existing_account() {
    let (state, action) = register_handler(
        RegisterState::InsertingUser,
        RegisterEvent::UserInserted(Err(StoreError::DuplicateEmail)),
    );
    assert_eq!(state, RegisterState::Finished);
    assert_eq!(action, RegisterAction::Respond(Err(FlowError::AlreadyExists)));
}

#[test]
fn store_failures_end_the_registration() {
    let (_, action) = register_handler(
        RegisterState::CheckingUser { body: body("a@x.com", "s3cret") },
        RegisterEvent::UserChecked(Err(StoreError::Unavailable)),
    );
    assert_eq!(action, RegisterAction::Respond(Err(FlowError::StoreUnavailable)));
    let (_, action) = register_handler(
        RegisterState::InsertingUser,
        RegisterEvent::UserInserted(Err(StoreError::Unavailable)),
    );
    assert_eq!(action, RegisterAction::Respond(Err(FlowError::StoreUnavailable)));
    let (_, action) = register_handler(
        RegisterState::InsertingVerification {
            user_id: 1,
            issuer: ISSUER.to_string(),
            access_token: "t".to_string(),
            secret: "s".to_string(),
        },
        RegisterEvent::VerificationInserted(Err(StoreError::Unavailable)),
    );
    assert_eq!(action, RegisterAction::Respond(Err(FlowError::StoreUnavailable)));
}

#[test]
fn inserted_account_leads_to_the_configuration() {
    let (state, action) =
        register_handler(RegisterState::InsertingUser, RegisterEvent::UserInserted(Ok(42)));
    assert_eq!(state, RegisterState::LoadingConfig { user_id: 42 });
    assert_eq!(action, RegisterAction::LoadConfig);
}

#[test]
fn missing_configuration_is_a_signing_failure() {
    for (issuer, secret) in [
        (None, Some(ACCESS_SECRET.to_string())),
        (Some(ISSUER.to_string()), None),
        (None, None),
    ] {
        let (state, action) = register_handler(
            RegisterState::LoadingConfig { user_id: 42 },
            RegisterEvent::ConfigLoaded { issuer, access_token_secret: secret },
        );
        assert_eq!(state, RegisterState::Finished);
        assert_eq!(action, RegisterAction::Respond(Err(FlowError::TokenSigningError)));
    }
}

#[test]
fn loaded_configuration_leads_to_a_fresh_secret_for_the_account() {
    let (state, action) = register_handler(
        RegisterState::LoadingConfig { user_id: 42 },
        RegisterEvent::ConfigLoaded {
            issuer: Some(ISSUER.to_string()),
            access_token_secret: Some(ACCESS_SECRET.to_string()),
        },
    );
    let secret = match action {
        RegisterAction::InsertVerification(NewUserVerification { user_id, secret }) => {
            assert_eq!(user_id, 42);
            secret
        }
        other => panic!("unexpected action {:?}", other),
    };
    assert_eq!(secret.len(), 64);
    assert!(secret.chars().all(|c| c.is_ascii_digit() || ('a'..='f').contains(&c)));
    match state {
        RegisterState::InsertingVerification { user_id, issuer, access_token, secret: kept } => {
            assert_eq!(user_id, 42);
            assert_eq!(issuer, ISSUER);
            assert_eq!(kept, secret);
            assert_eq!(verify_token(&access_token, ACCESS_SECRET).unwrap().sub, 42);
        }
        other => panic!("unexpected state {:?}", other),
    }
}

#[test]
fn out_of_turn_outcomes_end_the_flow() {
    let (state, action) =
        register_handler(RegisterState::AwaitingRequest, RegisterEvent::UserInserted(Ok(1)));
    assert_eq!(state, RegisterState::Finished);
    assert_eq!(action, RegisterAction::Respond(Err(FlowError::StoreUnavailable)));
    let (state, action) =
        register_handler(RegisterState::Finished, RegisterEvent::Request(body("a@x.com", "s3cret")));
    assert_eq!(state, RegisterState::Finished);
    assert_eq!(action, RegisterAction::Respond(Err(FlowError::StoreUnavailable)));
    let (state, action) =
        activate_handler(ActivateState::UpdatingStatus, ActivateEvent::SecretFetched(Ok("s".to_string())));
    assert_eq!(state, ActivateState::Finished);
    assert_eq!(action, ActivateAction::Respond(Err(FlowError::StoreUnavailable)));
}

#[test]
fn steps_with_given_outcomes_are_deterministic() {
    let (state, action) = on_hashed("a@x.com".to_string(), Ok("$2b$12$hash".to_string()));
    assert_eq!(state, RegisterState::InsertingUser);
    assert_eq!(
        action,
        RegisterAction::InsertUser(NewUser {
            email: "a@x.com".to_string(),
            password: "$2b$12$hash".to_string()
        })
    );
    let (_, action) = on_hashed("a@x.com".to_string(), Err(chat_rs::password::HashingError));
    assert_eq!(action, RegisterAction::Respond(Err(FlowError::HashingError)));

    let access_token = issue_token_at(42, ISSUER, ACCESS_SECRET, 1_000).unwrap();
    let (state, action) = on_config_loaded(
        42,
        Some(ISSUER.to_string()),
        Some(ACCESS_SECRET.to_string()),
        1_000,
        &[0xab; 32],
    );
    let secret = "ab".repeat(32);
    assert_eq!(
        state,
        RegisterState::InsertingVerification {
            user_id: 42,
            issuer: ISSUER.to_string(),
            access_token: access_token.clone(),
            secret: secret.clone(),
        }
    );
    assert_eq!(
        action,
        RegisterAction::InsertVerification(NewUserVerification { user_id: 42, secret: secret.clone() })
    );

    let (state, action) = on_verification_inserted(
        42,
        ISSUER.to_string(),
        access_token.clone(),
        secret.clone(),
        Ok(()),
        1_010,
    );
    assert_eq!(state, RegisterState::Finished);
    assert_eq!(
        action,
        RegisterAction::Respond(Ok(Registered {
            access_token,
            verification_token: issue_token_at(42, ISSUER, &secret, 1_010).unwrap(),
        }))
    );

    let (_, action) = on_config_loaded(
        42,
        Some(ISSUER.to_string()),
        Some(ACCESS_SECRET.to_string()),
        u64::MAX,
        &[0; 32],
    );
    assert_eq!(action, RegisterAction::Respond(Err(FlowError::TokenSigningError)));
}

#[test]
fn activation_marks_the_account_verified() {
    let mut store = MemoryStore::new();
    let registered = register(&mut store, body("a@x.com", "s3cret")).unwrap();
    assert!(!store.account(1).verified);
    assert_eq!(activate(&mut store, &registered.verification_token), Ok(()));
    assert!(store.account(1).verified);
}

#[test]
fn activation_twice_succeeds_twice() {
    let mut store = MemoryStore::new();
    let registered = register(&mut store, body("a@x.com", "s3cret")).unwrap();
    assert_eq!(activate(&mut store, &registered.verification_token), Ok(()));
    let once = store.clone();
    assert!(once.account(1).verified);
    assert_eq!(activate(&mut store, &registered.verification_token), Ok(()));
    assert_eq!(store, once);
}

#[test]
fn activation_touches_only_the_account_that_the_token_names() {
    let mut store = MemoryStore::new();
    register(&mut store, body("a@x.com", "s3cret")).unwrap();
    let second = register(&mut store, body("b@x.com", "0ther")).unwrap();
    assert_eq!(activate(&mut store, &second.verification_token), Ok(()));
    assert!(!store.account(1).verified);
    assert!(store.account(2).verified);
}

#[test]
fn activation_with_text_that_is_no_token_is_refused() {
    let mut store = MemoryStore::new();
    register(&mut store, body("a@x.com", "s3cret")).unwrap();
    assert_eq!(activate(&mut store, "not-a-token"), Err(FlowError::InvalidToken));
    assert!(!store.account(1).verified);
}

#[test]
fn access_token_does_not_activate() {
    let mut store = MemoryStore::new();
    let registered = register(&mut store, body("a@x.com", "s3cret")).unwrap();
    assert_eq!(activate(&mut store, &registered.access_token), Err(FlowError::InvalidToken));
    assert!(!store.account(1).verified);
}

#[test]
fn token_signed_with_another_accounts_secret_does_not_activate() {
    let mut store = MemoryStore::new();
    register(&mut store, body("a@x.com", "s3cret")).unwrap();
    register(&mut store, body("b@x.com", "0ther")).unwrap();
    let secret_of_b = store.secret_of(2).unwrap();
    let forged = issue_token_at(1, ISSUER, &secret_of_b, now()).unwrap();
    assert_eq!(peek_subject(&forged), Ok(1));
    assert_eq!(activate(&mut store, &forged), Err(FlowError::InvalidToken));
    assert!(!store.account(1).verified);
    assert!(!store.account(2).verified);
}

#[test]
fn expired_token_does_not_activate() {
    let mut store = MemoryStore::new();
    register(&mut store, body("a@x.com", "s3cret")).unwrap();
    let secret = store.secret_of(1).unwrap();
    let expired = issue_token_at(1, ISSUER, &secret, now() - 300).unwrap();
    assert_eq!(activate(&mut store, &expired), Err(FlowError::InvalidToken));
    assert!(!store.account(1).verified);
    let valid = issue_token_at(1, ISSUER, &secret, now() - 200).unwrap();
    assert_eq!(activate(&mut store, &valid), Ok(()));
}

#[test]
fn token_for_an_account_without_secret_is_a_store_failure() {
    let mut store = MemoryStore::new();
    let token = issue_token_at(9, ISSUER, "whatever", now()).unwrap();
    assert_eq!(activate(&mut store, &token), Err(FlowError::StoreUnavailable));
}

#[test]
fn failed_status_update_fails_the_activation() {
    let mut store = MemoryStore::new();
    let registered = register(&mut store, body("a@x.com", "s3cret")).unwrap();
    store.down = true;
    assert_eq!(
        activate(&mut store, &registered.verification_token),
        Err(FlowError::StoreUnavailable)
    );
    assert!(!store.account(1).verified);
}

#[test]
fn activation_steps_in_order() {
    let token = issue_token_at(5, ISSUER, "s3", now()).unwrap();
    let (state, action) = activate_handler(
        ActivateState::AwaitingRequest,
        ActivateEvent::Request(ActivateSchema { token: token.clone() }),
    );
    assert_eq!(state, ActivateState::FetchingSecret { token: token.clone(), user_id: 5 });
    assert_eq!(action, ActivateAction::FetchSecret { user_id: 5 });
    let (state, action) = activate_handler(state, ActivateEvent::SecretFetched(Ok("s3".to_string())));
    assert_eq!(state, ActivateState::UpdatingStatus);
    assert_eq!(action, ActivateAction::SetVerified { user_id: 5, verified: true });
    let (state, action) = activate_handler(state, ActivateEvent::StatusUpdated(Ok(())));
    assert_eq!(state, ActivateState::Finished);
    assert_eq!(action, ActivateAction::Respond(Ok(())));
}

#[test]
fn activation_steps_at_a_given_time() {
    let token = issue_token_at(5, ISSUER, "s3", 1_000).unwrap();
    let (state, action) = on_secret_fetched(token.clone(), 5, Ok("s3".to_string()), 1_299);
    assert_eq!(state, ActivateState::UpdatingStatus);
    assert_eq!(action, ActivateAction::SetVerified { user_id: 5, verified: true });
    let (state, action) = on_secret_fetched(token.clone(), 5, Ok("s3".to_string()), 1_300);
    assert_eq!(state, ActivateState::Finished);
    assert_eq!(action, ActivateAction::Respond(Err(FlowError::InvalidToken)));
    let (_, action) = on_secret_fetched(token.clone(), 5, Ok("s4".to_string()), 1_000);
    assert_eq!(action, ActivateAction::Respond(Err(FlowError::InvalidToken)));
    let (_, action) = on_secret_fetched(token, 5, Err(StoreError::Unavailable), 1_000);
    assert_eq!(action, ActivateAction::Respond(Err(FlowError::StoreUnavailable)));
}

fn now() -> u64 {
    std::time::SystemTime::now().duration_since(std::time::UNIX_EPOCH).unwrap().as_secs()
}

#[test]
fn register_twice_then_activate_end_to_end() {
    let mut store = MemoryStore::new();

    let first = register(&mut store, body("a@x.com", "p1"));
    let registered = first.unwrap();
    let reply = register_reply(registered.clone());
    assert_eq!(reply.status, 200);
    assert!(reply.body.success);
    assert_eq!(reply.body.result.message, "User registration complete.");
    assert!(!reply.body.result.verification_token.is_empty());
    assert!(reply.set_cookie.starts_with("token="));
    assert!(reply.set_cookie.contains(&registered.access_token));

    let second = register(&mut store, body("a@x.com", "p1")).unwrap_err();
    let (status, error) = second.response();
    assert_eq!(status, 409);
    assert!(!error.success);
    assert_eq!(error.error, "User already exists.");

    let verification_token = reply.body.result.verification_token;
    assert_eq!(activate(&mut store, &verification_token), Ok(()));
    let (status, success) = activate_reply();
    assert_eq!(status, 200);
    assert!(success.success);
    assert_eq!(success.result.message, "User activated.");
    assert!(store.account(1).verified);

    let refused = activate(&mut store, "not-a-token").unwrap_err();
    let (status, error) = refused.response();
    assert_eq!(status, 400);
    assert!(!error.success);
    assert_eq!(error.error, "Invalid verification token.");
}
