//! Credential checks for signing in and signing up.
//!
//! Password hashing and verification are delegated to the `bcrypt` crate;
//! everything around the two calls — which error a caller sees for which
//! outcome — is verified.

use vstd::prelude::*;

use crate::asserts::{spec_valid_username, valid_username};
use crate::errors::ResponseError;
use crate::user::{NewUser, User};

verus! {

/// The form fields a sign-in or sign-up request carries.
#[derive(Debug)]
pub struct AuthForm {
    pub username: String,
    pub password: String,
}

/// The profile an external identity provider reports for a signed-in user.
#[derive(Debug)]
pub struct DiscordUser {
    pub id: String,
    pub username: String,
    pub avatar: String,
    pub discriminator: String,
    pub public_flags: usize,
    pub locale: String,
    pub mfa_enabled: bool,
    pub premium_type: usize,
}

/// The query-string payload of the external provider's sign-in redirect.
#[derive(Debug)]
pub struct DiscordRedirect {
    pub code: String,
}

#[verifier::external_type_specification]
#[verifier::external_body]
pub struct ExBcryptError(bcrypt::BcryptError);

/// Whether bcrypt's check of `password` against the salted hash `hash`
/// succeeds. The check re-derives the hash from the password and the salt
/// embedded in the hash string, so it depends on the two arguments alone.
pub uninterp spec fn password_matches(password: Seq<char>, hash: Seq<char>) -> bool;

/// Relies on bcrypt::verify: it recomputes the hash of `password` under the
/// salt carried in `hash` and compares; the boolean it returns is a function
/// of the two arguments.
#[verifier::external_body]
fn verify_password(password: &str, hash: &str) -> (r: Result<bool, bcrypt::BcryptError>)
    ensures
        r matches Ok(b) ==> b == password_matches(password@, hash@),
{
    bcrypt::verify(password, hash)
}

/// Relies on bcrypt::hash: the salted hash it produces verifies against the
/// hashed password.
#[verifier::external_body]
fn hash_password(password: &str, cost: u32) -> (r: Result<String, bcrypt::BcryptError>)
    ensures
        r matches Ok(h) ==> password_matches(password@, h@),
{
    bcrypt::hash(password, cost)
}

/// The bcrypt work factor used when hashing a fresh password.
pub const HASH_COST: u32 = 10;

/// What a sign-in attempt reports for each outcome of the hash check: a
/// match signs the user in, a mismatch is an access error, and a failure of
/// the check itself (a malformed stored hash) is an internal error.
pub fn password_verdict(outcome: Result<bool, bcrypt::BcryptError>) -> (r: Result<
    (),
    ResponseError,
>)
    ensures
        outcome matches Ok(true) ==> r == Ok::<(), ResponseError>(()),
        outcome matches Ok(false) ==> (r matches Err(e) && e matches ResponseError::AccessError(m)
            && m@ == "Password is invalid"@),
        outcome matches Err(_) ==> (r matches Err(e) && e is InternalError),
{
    match outcome {
        Ok(true) => Ok(()),
        Ok(false) => Err(ResponseError::AccessError("Password is invalid")),
        Err(_) => Err(ResponseError::InternalError),
    }
}

/// Check a sign-in attempt against the stored account: an account without a
/// stored hash uses passwordless authentication and cannot sign in this way;
/// otherwise the submitted password must match the stored hash.
pub fn check_credentials(user: &User, password: &str) -> (r: Result<(), ResponseError>)
    ensures
        user.password is None ==> (r matches Err(e) && e matches ResponseError::BadRequestMessage(
            m,
        ) && m@ == "Account uses passwordless authentication"@),
        user.password matches Some(h) ==> match r {
            Ok(_) => password_matches(password@, h@),
            Err(e) => e is InternalError || (e matches ResponseError::AccessError(m) && m@
                == "Password is invalid"@ && !password_matches(password@, h@)),
        },
{
    match &user.password {
        None => Err(ResponseError::BadRequestMessage("Account uses passwordless authentication")),
        Some(h) => password_verdict(verify_password(password, h.as_str())),
    }
}

/// Validate a sign-up form and hash its password. On success the returned
/// record stores the hash, never the password itself; a failure of the hash
/// computation is an internal error.
pub fn prepare_sign_up<'a>(form: &'a AuthForm) -> (r: Result<NewUser<'a>, ResponseError>)
    ensures
        !spec_valid_username(form.username@) ==> (r matches Err(e)
            && e matches ResponseError::BadRequestMessage(m) && m@
            == "This username is not allowed"@),
        spec_valid_username(form.username@) ==> match r {
            Ok(nu) => nu.username@ == form.username@ && (nu.password matches Some(h)
                && password_matches(form.password@, h@)) && nu.nickname is None && nu.email is None
                && nu.color is None && nu.file_id is None,
            Err(e) => e is InternalError,
        },
{
    if !valid_username(&form.username) {
        return Err(ResponseError::BadRequestMessage("This username is not allowed"));
    }
    let hashed = match hash_password(form.password.as_str(), HASH_COST) {
        Ok(h) => h,
        Err(_) => {
            return Err(ResponseError::InternalError);
        },
    };
    Ok(NewUser { username: form.username.as_str(), password: Some(hashed), ..Default::default() })
}

/// The local account created for a first-time external sign-in: the external
/// id becomes the username (sidestepping username validation), and the
/// external display name becomes the nickname, so the user does not see the
/// numeric id as their name.
pub fn discord_new_user<'a>(discord_user: &'a DiscordUser) -> (nu: NewUser<'a>)
    ensures
        nu.username@ == discord_user.id@,
        nu.nickname matches Some(n) && n@ == discord_user.username@,
        nu.email is None,
        nu.password is None,
        nu.color is None,
        nu.file_id is None,
{
    NewUser {
        username: discord_user.id.as_str(),
        nickname: Some(discord_user.username.clone()),
        ..Default::default()
    }
}

} // verus!
