//! Tests for sign-up preparation and credential checks, run against the real
//! hash implementation.

use room_permissions::auth::{check_credentials, discord_new_user, prepare_sign_up, AuthForm, DiscordUser};
use room_permissions::errors::ResponseError;
use room_permissions::user::User;

fn account_with(password_hash: Option<String>) -> User {
    User {
        id: 1,
        username: "alice".to_string(),
        nickname: None,
        email: None,
        password: password_hash,
        color: None,
        file_id: None,
        is_admin: false,
        last_login: None,
        created_at: 0,
    }
}

#[test]
fn sign_up_hashes_and_sign_in_verifies() {
    let form = AuthForm { username: "alice".to_string(), password: "correct horse".to_string() };
    let new_user = prepare_sign_up(&form).unwrap();
    assert_eq!(new_user.username, "alice");
    let hash = new_user.password.clone().unwrap();
    // The stored value is a salted hash, not the password.
    assert_ne!(hash, "correct horse");

    let user = account_with(Some(hash));
    assert_eq!(check_credentials(&user, "correct horse"), Ok(()));
    assert_eq!(
        check_credentials(&user, "wrong horse"),
        Err(ResponseError::AccessError("Password is invalid"))
    );
}

#[test]
fn sign_up_rejects_invalid_usernames() {
    let form = AuthForm { username: "no spaces".to_string(), password: "irrelevant".to_string() };
    assert_eq!(
        prepare_sign_up(&form).map(|nu| nu.username.to_string()),
        Err(ResponseError::BadRequestMessage("This username is not allowed"))
    );
}

#[test]
fn passwordless_accounts_cannot_sign_in_with_a_password() {
    let user = account_with(None);
    assert_eq!(
        check_credentials(&user, "anything"),
        Err(ResponseError::BadRequestMessage("Account uses passwordless authentication"))
    );
}

#[test]
fn malformed_stored_hash_is_an_internal_error() {
    let user = account_with(Some("not a bcrypt hash".to_string()));
    assert_eq!(check_credentials(&user, "anything"), Err(ResponseError::InternalError));
}

#[test]
fn external_sign_in_maps_id_to_username() {
    let discord_user = DiscordUser {
        id: "123456789".to_string(),
        username: "Alice".to_string(),
        avatar: "abc".to_string(),
        discriminator: "0001".to_string(),
        public_flags: 0,
        locale: "en-US".to_string(),
        mfa_enabled: false,
        premium_type: 0,
    };
    let nu = discord_new_user(&discord_user);
    assert_eq!(nu.username, "123456789");
    assert_eq!(nu.nickname, Some("Alice".to_string()));
    assert_eq!(nu.password, None);
    assert_eq!(nu.email, None);
}
