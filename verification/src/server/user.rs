//! Signing up and signing in: passwords and what a sign-in gives.

use crate::error::{law_owned_text_is_kept, lemma_literal_detail, AppError};
use crate::types::User;
use vstd::prelude::*;

verus! {

/// What a user sends to sign in.
#[derive(Debug, Clone)]
pub struct SigninInput {
    pub email: String,
    pub password: String,
}

/// What a user sends to sign up.
#[derive(Debug, Clone)]
pub struct CreateUser {
    pub fullname: String,
    pub email: String,
    pub password: String,
}

impl CreateUser {
    /// Checks that the e-mail address is free: `taken` says whether the
    /// database has an account for it already.
    pub fn check_free(&self, taken: bool) -> (out: Result<(), AppError>)
        ensures
            out is Ok <==> !taken,
            out matches Err(e) ==> e is AlreadyExist && e.detail()@ == "user"@,
    {
        if taken {
            let e = AppError::already_exist("user");
            proof {
                lemma_literal_detail("user", e.detail());
            }
            Err(e)
        } else {
            Ok(())
        }
    }
}

/// Whether a password is the one that a stored hash was made of, as Argon2
/// with its default parameters finds; `None` where the text is no hash.
pub uninterp spec fn password_check(password: Seq<char>, hash: Seq<char>) -> Option<bool>;

/// Hashes a password with `Argon2::default().hash_password` and a salt from
/// `SaltString::generate` on the random numbers of the system. The hash
/// differs from call to call; where there is none, what comes back is the
/// text of the error. Trusted: whatever the salt, a hash that comes out is
/// one that the password is found to match, for a hash records its salt and
/// its parameters and matching computes it again from them.
#[verifier::external_body]
fn argon2_hash(password: &str) -> (out: Result<String, String>)
    ensures
        out matches Ok(hash) ==> password_check(password@, hash@) == Some(true),
{
    let salt = argon2::password_hash::SaltString::generate(
        &mut argon2::password_hash::rand_core::OsRng,
    );
    let hasher = argon2::Argon2::default();
    match argon2::PasswordHasher::hash_password(&hasher, password.as_bytes(), &salt) {
        Ok(hash) => Ok(hash.to_string()),
        Err(e) => Err(e.to_string()),
    }
}

/// Reads a hash with `PasswordHash::new` and holds a password against it with
/// `Argon2::default().verify_password`; where the text is no hash, what comes
/// back is the text of the error. Trusted: the outcome depends on the two
/// texts alone.
#[verifier::external_body]
fn argon2_verify(password: &str, hash: &str) -> (out: Result<bool, String>)
    ensures
        match out {
            Ok(same) => password_check(password@, hash@) == Some(same),
            Err(_) => password_check(password@, hash@) is None,
        },
{
    let hash = match argon2::PasswordHash::new(hash) {
        Ok(hash) => hash,
        Err(e) => return Err(e.to_string()),
    };
    let hasher = argon2::Argon2::default();
    Ok(argon2::PasswordVerifier::verify_password(&hasher, password.as_bytes(), &hash).is_ok())
}

/// What is said of a password that could not be hashed, or of a hash that
/// could not be read, with the cause that the hasher gave.
pub open spec fn hash_failure(cause: Seq<char>) -> Seq<char> {
    "password hash error: "@ + cause
}

/// The error for a cause that the hasher gave.
fn hash_error(cause: String) -> (e: AppError)
    ensures
        e is Internal,
        e.detail()@ == hash_failure(cause@),
{
    let mut text = String::from_str("password hash error: ");
    text.append(cause.as_str());
    let e = AppError::any(text);
    proof {
        law_owned_text_is_kept(text, e.detail());
    }
    e
}

/// Hashes a password for storing it. The hash is new with each call, and is
/// always one that `verify_password` finds the password to match.
pub fn hash_password(password: &str) -> (out: Result<String, AppError>)
    ensures
        out matches Ok(hash) ==> password_check(password@, hash@) == Some(true),
        out matches Err(e) ==> e is Internal && exists|cause: Seq<char>|
            e.detail()@ == #[trigger] hash_failure(cause),
{
    match argon2_hash(password) {
        Ok(hash) => Ok(hash),
        Err(cause) => Err(hash_error(cause)),
    }
}

/// Tells whether a password is the one that a stored hash was made of.
pub fn verify_password(password: &str, hash: &str) -> (out: Result<bool, AppError>)
    ensures
        match out {
            Ok(same) => password_check(password@, hash@) == Some(same),
            Err(e) => password_check(password@, hash@) is None && e is Internal && exists|
                cause: Seq<char>,
            |
                e.detail()@ == #[trigger] hash_failure(cause),
        },
{
    match argon2_verify(password, hash) {
        Ok(same) => Ok(same),
        Err(cause) => Err(hash_error(cause)),
    }
}

/// Decides a sign-in from the account that the database has for the e-mail
/// address, if any. The account is handed out only with the right password,
/// and then without its hash.
pub fn signin(user: Option<User>, input: &SigninInput) -> (out: Result<Option<User>, AppError>)
    ensures
        match user {
            None => out matches Ok(None),
            Some(found) => match password_check(input.password@, found.password_hash@) {
                None => out is Err,
                Some(false) => out matches Ok(None),
                Some(true) => out matches Ok(Some(given)) && given.id == found.id && given.ws_id
                    == found.ws_id && given.fullname@ == found.fullname@ && given.email@
                    == found.email@ && given.created_at == found.created_at
                    && given.password_hash@.len() == 0,
            },
        },
{
    let mut found = match user {
        Some(found) => found,
        None => return Ok(None),
    };
    let same = verify_password(input.password.as_str(), found.password_hash.as_str())?;
    if same {
        found.password_hash = String::new();
        Ok(Some(found))
    } else {
        Ok(None)
    }
}

/// Turns the outcome of a sign-in into the answer for the client: the account,
/// or a refusal that does not say whether the address or the password was
/// wrong.
pub fn signin_answer(found: Option<User>) -> (out: Result<User, AppError>)
    ensures
        match found {
            Some(user) => out matches Ok(given) && given == user,
            None => out matches Err(e) && e is Forbidden && e.detail()@
                == "invalid email or password"@,
        },
{
    match found {
        Some(user) => Ok(user),
        None => {
            let e = AppError::forbidden("invalid email or password");
            proof {
                lemma_literal_detail("invalid email or password", e.detail());
            }
            Err(e)
        },
    }
}

} // verus!
