//! What the account store is asked and how its answers are read.
//!
//! The store itself lives outside this library. Each function here takes the
//! raw outcome of one store operation and turns it into the value that the
//! flows go on with, or into the failure that ends the request.

use crate::response::FlowError;
use vstd::prelude::*;

verus! {

/// A failed store operation.
#[derive(Clone, Copy, Debug, PartialEq, Eq)]
pub enum StoreError {
    /// The store could not be reached, or the operation failed in it.
    Unavailable,
    /// An insert hit the store's uniqueness constraint on e-mail addresses.
    DuplicateEmail,
}

/// An account to be created.
#[derive(Clone, Debug, PartialEq, Eq)]
pub struct NewUser {
    pub email: String,
    /// The password's hash, never the password.
    pub password: String,
}

/// `NewUser` as contracts see it: texts in place of strings.
pub struct NewUserView {
    pub email: Seq<char>,
    pub password: Seq<char>,
}

impl View for NewUser {
    type V = NewUserView;

    open spec fn view(&self) -> NewUserView {
        NewUserView { email: self.email@, password: self.password@ }
    }
}

/// A verification secret to be stored for an account.
#[derive(Clone, Debug, PartialEq, Eq)]
pub struct NewUserVerification {
    pub user_id: u128,
    pub secret: String,
}

/// `NewUserVerification` as contracts see it: texts in place of strings.
pub struct NewUserVerificationView {
    pub user_id: u128,
    pub secret: Seq<char>,
}

impl View for NewUserVerification {
    type V = NewUserVerificationView;

    open spec fn view(&self) -> NewUserVerificationView {
        NewUserVerificationView { user_id: self.user_id, secret: self.secret@ }
    }
}

/// How the outcome of the existence query reads: a missing answer counts as
/// "no such account".
pub open spec fn user_exists(row: Result<Option<bool>, StoreError>) -> Result<bool, FlowError> {
    match row {
        Ok(Some(exists)) => Ok(exists),
        Ok(None) => Ok(false),
        Err(_) => Err(FlowError::StoreUnavailable),
    }
}

/// How the outcome of an account insert reads: a collision on the e-mail
/// address is an existing account, not a store failure.
pub open spec fn inserted_user(outcome: Result<u128, StoreError>) -> Result<u128, FlowError> {
    match outcome {
        Ok(id) => Ok(id),
        Err(StoreError::DuplicateEmail) => Err(FlowError::AlreadyExists),
        Err(StoreError::Unavailable) => Err(FlowError::StoreUnavailable),
    }
}

/// Reads the outcome of "is there an account with this e-mail address?".
pub fn is_user_exists(row: Result<Option<bool>, StoreError>) -> (res: Result<bool, FlowError>)
    ensures
        res == user_exists(row),
{
    match row {
        Ok(Some(exists)) => Ok(exists),
        Ok(None) => Ok(false),
        Err(_) => Err(FlowError::StoreUnavailable),
    }
}

/// Reads the outcome of inserting an account: the new account's identifier.
pub fn insert_new_user(outcome: Result<u128, StoreError>) -> (res: Result<u128, FlowError>)
    ensures
        res == inserted_user(outcome),
{
    match outcome {
        Ok(id) => Ok(id),
        Err(StoreError::DuplicateEmail) => Err(FlowError::AlreadyExists),
        Err(StoreError::Unavailable) => Err(FlowError::StoreUnavailable),
    }
}

/// Reads the outcome of fetching an account's password hash.
pub fn get_user_password(outcome: Result<String, StoreError>) -> (res: Result<String, FlowError>)
    ensures
        outcome matches Ok(hash) ==> (res matches Ok(kept) && kept == hash),
        outcome is Err ==> (res matches Err(e) && e == FlowError::StoreUnavailable),
{
    match outcome {
        Ok(hash) => Ok(hash),
        Err(_) => Err(FlowError::StoreUnavailable),
    }
}

/// Reads the outcome of updating an account's verification status.
pub fn update_verified_status(outcome: Result<(), StoreError>) -> (res: Result<(), FlowError>)
    ensures
        res is Ok <==> outcome is Ok,
        res matches Err(e) ==> e == FlowError::StoreUnavailable,
{
    match outcome {
        Ok(()) => Ok(()),
        Err(_) => Err(FlowError::StoreUnavailable),
    }
}

/// Reads the outcome of fetching an account's verification secret. An
/// account without one is a store failure like any other.
pub fn get_user_verification_secret(outcome: Result<String, StoreError>) -> (res: Result<
    String,
    FlowError,
>)
    ensures
        outcome matches Ok(secret) ==> (res matches Ok(kept) && kept == secret),
        outcome is Err ==> (res matches Err(e) && e == FlowError::StoreUnavailable),
{
    match outcome {
        Ok(secret) => Ok(secret),
        Err(_) => Err(FlowError::StoreUnavailable),
    }
}

/// Reads the outcome of storing an account's verification secret.
pub fn insert_new_user_verification(outcome: Result<(), StoreError>) -> (res: Result<(), FlowError>)
    ensures
        res is Ok <==> outcome is Ok,
        res matches Err(e) ==> e == FlowError::StoreUnavailable,
{
    match outcome {
        Ok(()) => Ok(()),
        Err(_) => Err(FlowError::StoreUnavailable),
    }
}

} // verus!
