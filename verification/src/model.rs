//! A model of the account store, and what the two flows do to it.
//!
//! The store is a collaborator of this library, not a part of it. To say what
//! a whole registration or activation amounts to, this module describes a
//! store that is always available and enforces what the flows rely on:
//! identifiers and e-mail addresses are unique, a new account is unverified,
//! and a secret belongs to an account. Each flow is then run against that
//! store, answer by answer, and the theorems below state the result.

use crate::activate::{
    activate_next, ActivateAction, ActivateEventView, ActivateSchemaView, ActivateStateView,
};
use crate::db::StoreError;
use crate::password::{is_hash_shaped, password_matches};
use crate::register::{
    plausible, register_next, signed_token_holds, Outside, RegisterActionView, RegisterEventView,
    RegisterSchemaView, RegisterStateView, RegisteredView,
};
use crate::response::FlowError;
use crate::secret::secret_text;
use crate::token::{
    claims_issued_at, claims_of, hs256_payload, in_time, peeked_subject, token_for, verified,
    ClaimsView, TokenFailure, TOKEN_LIFETIME_SECS,
};
use vstd::prelude::*;

verus! {

/// An account as the store keeps it.
pub struct Account {
    pub email: Seq<char>,
    pub password_hash: Seq<char>,
    pub verified: bool,
}

/// The store's content: accounts by identifier, and verification secrets by
/// the identifier of the account they belong to.
pub struct Store {
    pub accounts: Map<u128, Account>,
    pub secrets: Map<u128, Seq<char>>,
}

impl Store {
    /// No two accounts share an e-mail address, and every secret belongs to
    /// an account.
    pub open spec fn wf(self) -> bool {
        &&& forall|a: u128, b: u128|
            #![trigger self.accounts[a], self.accounts[b]]
            self.accounts.dom().contains(a) && self.accounts.dom().contains(b)
                && self.accounts[a].email == self.accounts[b].email ==> a == b
        &&& forall|id: u128|
            self.secrets.dom().contains(id) ==> #[trigger] self.accounts.dom().contains(id)
    }

    /// True where some account holds this e-mail address.
    pub open spec fn exists_by_email(self, email: Seq<char>) -> bool {
        exists|id: u128| self.accounts.dom().contains(id) && #[trigger] self.accounts[id].email == email
    }

    /// The store with a new, unverified account.
    pub open spec fn insert_account(self, id: u128, email: Seq<char>, password_hash: Seq<char>) -> Store {
        Store {
            accounts: self.accounts.insert(id, Account { email, password_hash, verified: false }),
            secrets: self.secrets,
        }
    }

    /// The store with a secret kept for an account.
    pub open spec fn insert_secret(self, id: u128, secret: Seq<char>) -> Store {
        Store { accounts: self.accounts, secrets: self.secrets.insert(id, secret) }
    }

    /// The store with an account's verification status set. An identifier
    /// that names no account changes nothing.
    pub open spec fn set_verified(self, id: u128, verified: bool) -> Store {
        if self.accounts.dom().contains(id) {
            Store {
                accounts: self.accounts.insert(
                    id,
                    Account {
                        email: self.accounts[id].email,
                        password_hash: self.accounts[id].password_hash,
                        verified,
                    },
                ),
                secrets: self.secrets,
            }
        } else {
            self
        }
    }
}

/// All that one registration meets outside the store.
pub struct World {
    /// The identifier that the store gives the next account.
    pub next_id: u128,
    /// The configured issuer, if set.
    pub issuer: Option<Seq<char>>,
    /// The configured access-token secret, if set.
    pub access_token_secret: Option<Seq<char>>,
    /// Outcome of hashing the password.
    pub hash: Option<Seq<char>>,
    /// The clock when the access token is signed.
    pub access_issued_at: u64,
    /// The clock when the verification token is signed.
    pub verification_issued_at: u64,
    /// The random bytes behind the verification secret.
    pub random: Seq<u8>,
}

/// What a step in `state` sees of the world.
pub open spec fn outside_at(world: World, state: RegisterStateView) -> Outside {
    Outside {
        hash: world.hash,
        now: if state is InsertingVerification {
            world.verification_issued_at
        } else {
            world.access_issued_at
        },
        random: world.random,
    }
}

/// The store's answer to an action of the registration flow, and the store
/// after it. An account is inserted only where its e-mail address is free.
pub open spec fn answer_registration(store: Store, action: RegisterActionView, world: World) -> (
    Store,
    RegisterEventView,
) {
    match action {
        RegisterActionView::CheckUser { email } => (
            store,
            RegisterEventView::UserChecked(Ok(Some(store.exists_by_email(email)))),
        ),
        RegisterActionView::InsertUser(user) => if store.exists_by_email(user.email) {
            (store, RegisterEventView::UserInserted(Err(StoreError::DuplicateEmail)))
        } else {
            (
                store.insert_account(world.next_id, user.email, user.password),
                RegisterEventView::UserInserted(Ok(world.next_id)),
            )
        },
        RegisterActionView::LoadConfig => (
            store,
            RegisterEventView::ConfigLoaded {
                issuer: world.issuer,
                access_token_secret: world.access_token_secret,
            },
        ),
        RegisterActionView::InsertVerification(verification) => (
            store.insert_secret(verification.user_id, verification.secret),
            RegisterEventView::VerificationInserted(Ok(())),
        ),
        RegisterActionView::Respond(_) => (store, RegisterEventView::VerificationInserted(Ok(()))),
    }
}

/// Performs the pending action against the store and takes the flow's next
/// step. A flow that has responded stays where it is.
pub open spec fn advance_registration(
    store: Store,
    state: RegisterStateView,
    action: RegisterActionView,
    world: World,
) -> (Store, RegisterStateView, RegisterActionView) {
    if action is Respond {
        (store, state, action)
    } else {
        let (after, event) = answer_registration(store, action, world);
        let (next, then) = register_next(state, event, outside_at(world, state));
        (after, next, then)
    }
}

/// A whole registration against the store: the store afterwards and the
/// response.
pub open spec fn registration(store: Store, body: RegisterSchemaView, world: World) -> (
    Store,
    Result<RegisteredView, FlowError>,
) {
    let (s0, a0) = register_next(
        RegisterStateView::AwaitingRequest,
        RegisterEventView::Request(body),
        outside_at(world, RegisterStateView::AwaitingRequest),
    );
    let (store1, s1, a1) = advance_registration(store, s0, a0, world);
    let (store2, s2, a2) = advance_registration(store1, s1, a1, world);
    let (store3, s3, a3) = advance_registration(store2, s2, a2, world);
    let (store4, s4, a4) = advance_registration(store3, s3, a3, world);
    match a4 {
        RegisterActionView::Respond(outcome) => (store4, outcome),
        _ => (store4, Err(FlowError::StoreUnavailable)),
    }
}

/// The access token of a registration in `world` for the account `next_id`.
pub open spec fn access_token_in(world: World) -> Option<Seq<char>> {
    if world.issuer is Some && world.access_token_secret is Some && claims_issued_at(
        world.next_id,
        world.issuer->0,
        world.access_issued_at,
    ) is Some {
        token_for(
            claims_issued_at(world.next_id, world.issuer->0, world.access_issued_at)->0,
            world.access_token_secret->0,
        )
    } else {
        None
    }
}

/// The verification token of a registration in `world`, signed with the
/// account's own secret.
pub open spec fn verification_token_in(world: World) -> Option<Seq<char>> {
    if world.issuer is Some && claims_issued_at(
        world.next_id,
        world.issuer->0,
        world.verification_issued_at,
    ) is Some {
        token_for(
            claims_issued_at(world.next_id, world.issuer->0, world.verification_issued_at)->0,
            secret_text(world.random),
        )
    } else {
        None
    }
}

/// Nothing outside the store fails: the password was hashed, and both tokens
/// could be signed.
pub open spec fn all_goes_well(world: World) -> bool {
    &&& world.hash is Some
    &&& access_token_in(world) is Some
    &&& verification_token_in(world) is Some
}

/// A registration for a free e-mail address, in a world where nothing fails,
/// succeeds: the store then holds the account, unverified, under the hash of
/// its password, together with its secret, and is otherwise as before; the
/// response carries the access token and a verification token signed with
/// that secret.
pub proof fn lemma_first_registration_succeeds(store: Store, body: RegisterSchemaView, world: World)
    requires
        store.wf(),
        !store.exists_by_email(body.email),
        !store.accounts.dom().contains(world.next_id),
        all_goes_well(world),
    ensures
        registration(store, body, world).0 == store.insert_account(
            world.next_id,
            body.email,
            world.hash->0,
        ).insert_secret(world.next_id, secret_text(world.random)),
        registration(store, body, world).1 matches Ok(registered) && registered == (RegisteredView {
            access_token: access_token_in(world)->0,
            verification_token: verification_token_in(world)->0,
        }),
        registration(store, body, world).0.wf(),
        registration(store, body, world).0.exists_by_email(body.email),
{
    let id = world.next_id;
    let with_account = store.insert_account(id, body.email, world.hash->0);
    let after = with_account.insert_secret(id, secret_text(world.random));
    assert(with_account.accounts[id].email == body.email);
    assert(after.exists_by_email(body.email)) by {
        assert(after.accounts.dom().contains(id) && after.accounts[id].email == body.email);
    }
    assert(after.wf()) by {
        assert forall|a: u128, b: u128|
            after.accounts.dom().contains(a) && after.accounts.dom().contains(b)
                && after.accounts[a].email == after.accounts[b].email implies a == b by {
            if a == id && b != id {
                assert(store.accounts.dom().contains(b) && store.accounts[b].email == body.email);
            }
            if b == id && a != id {
                assert(store.accounts.dom().contains(a) && store.accounts[a].email == body.email);
            }
        }
    }
}

/// A registration for an e-mail address that an account already holds is
/// refused as `AlreadyExists`, whatever the password and whatever happens
/// outside the store, and leaves the store exactly as it was.
pub proof fn lemma_taken_email_is_refused(store: Store, body: RegisterSchemaView, world: World)
    requires
        store.exists_by_email(body.email),
    ensures
        registration(store, body, world).0 == store,
        registration(store, body, world).1 matches Err(error) && error == FlowError::AlreadyExists,
{
}

/// After a first registration has succeeded, a second one with the same
/// e-mail address is refused as `AlreadyExists` and changes nothing: the
/// first account stands as it was made.
pub proof fn lemma_second_registration_is_refused(
    store: Store,
    first: RegisterSchemaView,
    first_world: World,
    second: RegisterSchemaView,
    second_world: World,
)
    requires
        store.wf(),
        !store.exists_by_email(first.email),
        !store.accounts.dom().contains(first_world.next_id),
        all_goes_well(first_world),
        second.email == first.email,
    ensures
        registration(store, first, first_world).1 is Ok,
        registration(registration(store, first, first_world).0, second, second_world).1 matches Err(
            error,
        ) && error == FlowError::AlreadyExists,
        registration(registration(store, first, first_world).0, second, second_world).0
            == registration(store, first, first_world).0,
        registration(store, first, first_world).0.accounts[first_world.next_id] == (Account {
            email: first.email,
            password_hash: first_world.hash->0,
            verified: false,
        }),
{
    lemma_first_registration_succeeds(store, first, first_world);
    lemma_taken_email_is_refused(registration(store, first, first_world).0, second, second_world);
}

/// Whatever account a registration inserts is unverified and holds the
/// outcome of hashing in place of the password. Where that outcome is what
/// hashing promises, the stored text verifies the password, and differs from
/// every password that is not itself shaped like a hash.
pub proof fn lemma_registration_stores_the_hash(store: Store, body: RegisterSchemaView, world: World)
    requires
        !store.accounts.dom().contains(world.next_id),
        registration(store, body, world).0.accounts.dom().contains(world.next_id),
    ensures
        world.hash is Some,
        registration(store, body, world).0.accounts[world.next_id] == (Account {
            email: body.email,
            password_hash: world.hash->0,
            verified: false,
        }),
        plausible(
            outside_at(world, RegisterStateView::CheckingUser { body }),
            RegisterStateView::CheckingUser { body },
        ) ==> {
            &&& password_matches(
                body.password,
                registration(store, body, world).0.accounts[world.next_id].password_hash,
            )
            &&& !is_hash_shaped(body.password) ==> registration(
                store,
                body,
                world,
            ).0.accounts[world.next_id].password_hash != body.password
        },
{
}

/// A registration writes nothing unless the password was hashed: where
/// hashing fails, the store stays as it was and the request fails.
pub proof fn lemma_nothing_is_written_without_a_hash(
    store: Store,
    body: RegisterSchemaView,
    world: World,
)
    requires
        world.hash is None,
    ensures
        registration(store, body, world).0 == store,
        registration(store, body, world).1 is Err,
        !store.exists_by_email(body.email) ==> (registration(store, body, world).1 matches Err(
            error,
        ) && error == FlowError::HashingError),
{
}

/// The store's answer to an action of the activation flow, and the store
/// after it. An account without a secret makes the lookup fail.
pub open spec fn answer_activation(store: Store, action: ActivateAction) -> (
    Store,
    ActivateEventView,
) {
    match action {
        ActivateAction::FetchSecret { user_id } => if store.secrets.dom().contains(user_id) {
            (store, ActivateEventView::SecretFetched(Ok(store.secrets[user_id])))
        } else {
            (store, ActivateEventView::SecretFetched(Err(StoreError::Unavailable)))
        },
        ActivateAction::SetVerified { user_id, verified } => (
            store.set_verified(user_id, verified),
            ActivateEventView::StatusUpdated(Ok(())),
        ),
        ActivateAction::Respond(_) => (store, ActivateEventView::StatusUpdated(Ok(()))),
    }
}

/// Performs the pending action against the store and takes the flow's next
/// step, with the clock at `now`.
pub open spec fn advance_activation(
    store: Store,
    state: ActivateStateView,
    action: ActivateAction,
    now: u64,
) -> (Store, ActivateStateView, ActivateAction) {
    if action is Respond {
        (store, state, action)
    } else {
        let (after, event) = answer_activation(store, action);
        let (next, then) = activate_next(state, event, now);
        (after, next, then)
    }
}

/// A whole activation against the store at `now`: the store afterwards and
/// the response.
pub open spec fn activation(store: Store, params: ActivateSchemaView, now: u64) -> (
    Store,
    Result<(), FlowError>,
) {
    let (s0, a0) = activate_next(
        ActivateStateView::AwaitingRequest,
        ActivateEventView::Request(params),
        now,
    );
    let (store1, s1, a1) = advance_activation(store, s0, a0, now);
    let (store2, s2, a2) = advance_activation(store1, s1, a1, now);
    match a2 {
        ActivateAction::Respond(outcome) => (store2, outcome),
        _ => (store2, Err(FlowError::StoreUnavailable)),
    }
}

/// True where `token` names an account of the store and verifies, at `now`,
/// under that account's own secret.
pub open spec fn valid_for_store(store: Store, token: Seq<char>, now: u64) -> bool {
    &&& peeked_subject(token) is Ok
    &&& store.secrets.dom().contains(peeked_subject(token)->Ok_0)
    &&& verified(token, store.secrets[peeked_subject(token)->Ok_0], now) is Ok
}

/// An activation succeeds exactly where the token names an account and
/// holds under that account's own secret, and then marks that account, and
/// no other, verified. Otherwise the store stays as it was.
pub proof fn lemma_activation_needs_own_secret(store: Store, params: ActivateSchemaView, now: u64)
    ensures
        activation(store, params, now).1 is Ok <==> valid_for_store(store, params.token, now),
        valid_for_store(store, params.token, now) ==> activation(store, params, now).0
            == store.set_verified(peeked_subject(params.token)->Ok_0, true),
        !valid_for_store(store, params.token, now) ==> activation(store, params, now).0 == store,
        !valid_for_store(store, params.token, now) ==> activation(store, params, now).1 is Err,
{
}

/// An activation leaves a well-formed store well-formed, and touches neither
/// the secrets nor anything of an account but its verification status.
pub proof fn lemma_activation_keeps_the_rest(store: Store, params: ActivateSchemaView, now: u64)
    requires
        store.wf(),
    ensures
        activation(store, params, now).0.wf(),
        activation(store, params, now).0.secrets == store.secrets,
        activation(store, params, now).0.accounts.dom() == store.accounts.dom(),
        forall|id: u128| #[trigger]
            store.accounts.dom().contains(id) ==> {
                &&& activation(store, params, now).0.accounts[id].email == store.accounts[id].email
                &&& activation(store, params, now).0.accounts[id].password_hash
                    == store.accounts[id].password_hash
                &&& store.accounts[id].verified ==> activation(
                    store,
                    params,
                    now,
                ).0.accounts[id].verified
            },
{
    lemma_activation_needs_own_secret(store, params, now);
    if valid_for_store(store, params.token, now) {
        let id = peeked_subject(params.token)->Ok_0;
        let after = store.set_verified(id, true);
        assert(after.accounts.dom() =~= store.accounts.dom());
    }
}

/// Activating twice with a token that is still valid succeeds both times and
/// leaves the account verified both times; the second activation changes
/// nothing.
pub proof fn lemma_activation_is_idempotent(
    store: Store,
    params: ActivateSchemaView,
    first_now: u64,
    second_now: u64,
)
    requires
        store.wf(),
        valid_for_store(store, params.token, first_now),
        valid_for_store(store, params.token, second_now),
    ensures
        activation(store, params, first_now).1 is Ok,
        activation(store, params, first_now).0.accounts[peeked_subject(
            params.token,
        )->Ok_0].verified,
        activation(activation(store, params, first_now).0, params, second_now).1 is Ok,
        activation(activation(store, params, first_now).0, params, second_now).0.accounts[peeked_subject(
            params.token,
        )->Ok_0].verified,
        activation(activation(store, params, first_now).0, params, second_now).0 == activation(
            store,
            params,
            first_now,
        ).0,
{
    let id = peeked_subject(params.token)->Ok_0;
    lemma_activation_needs_own_secret(store, params, first_now);
    let once = store.set_verified(id, true);
    assert(store.accounts.dom().contains(id));
    assert(valid_for_store(once, params.token, second_now));
    lemma_activation_needs_own_secret(once, params, second_now);
    assert(once.set_verified(id, true).accounts =~= once.accounts);
}

/// The verification token of a registration that succeeded activates the
/// new account for as long as it has time left, and no other account with
/// it: where the token holds as issued, which is what signing promises, an
/// activation with it succeeds and marks exactly that account verified.
pub proof fn lemma_registered_account_can_be_activated(
    store: Store,
    body: RegisterSchemaView,
    world: World,
    now: u64,
)
    requires
        store.wf(),
        !store.exists_by_email(body.email),
        !store.accounts.dom().contains(world.next_id),
        all_goes_well(world),
        signed_token_holds(
            world.next_id,
            world.issuer->0,
            secret_text(world.random),
            world.verification_issued_at,
        ),
        now < world.verification_issued_at + TOKEN_LIFETIME_SECS,
    ensures
        activation(
            registration(store, body, world).0,
            ActivateSchemaView { token: verification_token_in(world)->0 },
            now,
        ).1 is Ok,
        activation(
            registration(store, body, world).0,
            ActivateSchemaView { token: verification_token_in(world)->0 },
            now,
        ).0 == registration(store, body, world).0.set_verified(world.next_id, true),
        activation(
            registration(store, body, world).0,
            ActivateSchemaView { token: verification_token_in(world)->0 },
            now,
        ).0.accounts[world.next_id].verified,
{
    lemma_first_registration_succeeds(store, body, world);
    let registered = registration(store, body, world).0;
    let token = verification_token_in(world)->0;
    let secret = secret_text(world.random);
    let claims = claims_issued_at(world.next_id, world.issuer->0, world.verification_issued_at)->0;
    assert(registered.secrets.dom().contains(world.next_id));
    assert(registered.secrets[world.next_id] == secret);
    assert(verified(token, secret, now) == in_time(claims, now));
    assert(valid_for_store(registered, token, now));
    lemma_activation_needs_own_secret(registered, ActivateSchemaView { token }, now);
}

/// A token whose signature holds under `key` and whose payload amounts to
/// `claims` verifies at every second before `claims.exp` and is expired at
/// that second and at every later one.
pub proof fn lemma_valid_until_expiry(token: Seq<char>, key: Seq<char>, claims: ClaimsView, now: u64)
    requires
        hs256_payload(token, key) is Ok,
        claims_of(hs256_payload(token, key)->Ok_0) == Some(claims),
    ensures
        now < claims.exp ==> (verified(token, key, now) matches Ok(held) && held == claims),
        now >= claims.exp ==> (verified(token, key, now) matches Err(failure) && failure
            == TokenFailure::Expired),
{
}

/// A token issued at `issued_at` expires exactly one lifetime later: it is
/// good at the second of its issuance and during the lifetime, and no longer
/// at `issued_at + TOKEN_LIFETIME_SECS`.
pub proof fn lemma_lifetime_of_issued_claims(sub: u128, iss: Seq<char>, issued_at: u64, now: u64)
    requires
        claims_issued_at(sub, iss, issued_at) is Some,
    ensures
        in_time(claims_issued_at(sub, iss, issued_at)->0, issued_at) is Ok,
        in_time(claims_issued_at(sub, iss, issued_at)->0, now) is Ok <==> now < issued_at
            + TOKEN_LIFETIME_SECS,
{
}

} // verus!
