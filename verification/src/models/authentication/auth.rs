//! Checking a password against the hash that the store keeps.

use crate::custom_errors::app_error::AppError;
use crate::library::Library;
use crate::models::user::User;
use crate::workflow::{seen, Outcome, Task};
use vstd::prelude::*;

verus! {

/// The credentials a user signs in with.
#[derive(Debug, PartialEq, Eq)]
pub struct AuthUser {
    pub email: String,
    pub pass: String,
}

/// `bcrypt::BcryptError`, carried through as it is: nothing is read off it.
#[verifier::external_type_specification]
#[verifier::external_body]
pub struct ExBcryptError(bcrypt::BcryptError);

/// What comparing a password with a bcrypt hash comes to: whether they
/// match, or nothing where the hash cannot be read.
pub uninterp spec fn bcrypt_verdict(password: Seq<char>, hash: Seq<char>) -> Option<bool>;

/// `bcrypt::verify`: it reads cost and salt off the hash, hashes the
/// password with them and compares. The verdict depends on the two texts
/// alone; it is an error where the hash is malformed or names a cost that
/// is not allowed, and the name gives nothing there.
#[verifier::external_body]
pub(crate) fn bcrypt_verify(password: &str, hash: &str) -> (verdict: Result<
    bool,
    bcrypt::BcryptError,
>)
    ensures
        match verdict {
            Ok(same) => bcrypt_verdict(password@, hash@) == Some(same),
            Err(_) => bcrypt_verdict(password@, hash@) is None,
        },
{
    bcrypt::verify(password, hash)
}

/// `bcrypt::hash` at the default cost: it draws a fresh salt, so two calls
/// differ, but whatever hash comes out matches the password it was made from.
#[verifier::external_body]
pub(crate) fn bcrypt_hash(password: &str) -> (hashed: Result<String, bcrypt::BcryptError>)
    ensures
        hashed is Ok ==> bcrypt_verdict(password@, hashed->Ok_0@) == Some(true),
{
    bcrypt::hash(password, bcrypt::DEFAULT_COST)
}

/// Whether `password` matches `hash`; a hash that cannot be read matches nothing.
pub open spec fn password_matches(password: Seq<char>, hash: Seq<char>) -> bool {
    bcrypt_verdict(password, hash) == Some(true)
}

/// What a comparison that came out as `verdict` means for the sign-in: it
/// goes on only after a clear match.
pub fn password_check(verdict: Result<bool, bcrypt::BcryptError>) -> (checked: Result<
    (),
    AppError,
>)
    ensures
        checked is Ok <==> verdict == Ok::<bool, bcrypt::BcryptError>(true),
        checked is Err ==> checked == Err::<(), AppError>(AppError::PasswordHashError),
{
    match verdict {
        Ok(does_match) => {
            if does_match {
                Ok(())
            } else {
                Err(AppError::PasswordHashError)
            }
        },
        Err(_) => Err(AppError::PasswordHashError),
    }
}

impl AuthUser {
    /// Signs a user in: finds the user with the e-mail address and checks
    /// the password against the hash that the store keeps.
    ///
    /// Malformed credentials are `InvalidCredentials`, an address that no
    /// user has `NotFound`, a password that does not match
    /// `PasswordHashError`.
    pub fn authenticate(store: &mut Library, email: String, password: String) -> (user: Result<
        User,
        AppError,
    >)
        ensures
            final(store)@ == old(store)@,
            seen(user) == old(store)@.authenticate(email@, password@),
    {
        let ghost address = email@;
        let ghost secret = password@;
        let result = store.perform(Task::Authenticate { email, password });
        proof {
            old(store)@.lemma_authenticate(address, secret);
        }
        match result {
            Ok(Outcome::User(user)) => Ok(user),
            Ok(_) => Err(AppError::InternalError),
            Err(error) => Err(error),
        }
    }

    /// Checks `pwd` against the hash of `user`: anything but a clear match
    /// is `PasswordHashError`.
    pub fn verify_password(pwd: String, user: &User) -> (checked: Result<(), AppError>)
        ensures
            checked is Ok <==> password_matches(pwd@, user.pass@),
            checked is Err ==> checked == Err::<(), AppError>(AppError::PasswordHashError),
    {
        password_check(bcrypt_verify(pwd.as_str(), user.pass.as_str()))
    }
}

} // verus!
