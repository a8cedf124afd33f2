//! Validation predicates for user-supplied names, paths and credentials.
//!
//! Each `valid_*` function decides a simple grammar: a character-class check
//! together with a length range (counted in characters, not bytes).

use vstd::prelude::*;
use vstd::string::StrSliceExecFns;

use crate::vars::{
    NICKNAME_MAX_LEN, NICKNAME_MIN_LEN, PASSWORD_MAX_LEN, PASSWORD_MIN_LEN, ROOM_NAME_MAX_LEN,
    ROOM_NAME_MIN_LEN, USERNAME_MAX_LEN, USERNAME_MIN_LEN,
};

verus! {

/// A character usable in usernames and room paths: ASCII letters, digits and
/// underscore.
pub open spec fn word_char(c: char) -> bool {
    (('a' as u32) <= (c as u32) && (c as u32) <= ('z' as u32)) || (('A' as u32) <= (c as u32)
        && (c as u32) <= ('Z' as u32)) || (('0' as u32) <= (c as u32) && (c as u32) <= ('9' as u32))
        || c == '_'
}

/// A character tolerated in e-mail addresses: letters, digits and the
/// punctuation of the local-part grammar.
pub open spec fn email_char(c: char) -> bool {
    word_char(c) || c == '!' || c == '#' || c == '$' || c == '%' || c == '&' || c == '\'' || c
        == '*' || c == '+' || c == ',' || c == '-' || c == '.' || c == '/' || c == '=' || c == '?'
        || c == '^' || c == '`' || c == '{' || c == '|' || c == '}' || c == '~' || c == '"' || c
        == '(' || c == ')' || c == ':' || c == ';' || c == '<' || c == '>' || c == '@' || c == '['
        || c == ']'
}

pub open spec fn spec_in_range(s: Seq<char>, min: usize, max: usize) -> bool {
    min <= s.len() && s.len() <= max
}

pub open spec fn spec_valid_username(s: Seq<char>) -> bool {
    spec_in_range(s, USERNAME_MIN_LEN, USERNAME_MAX_LEN) && (forall|i: int|
        0 <= i < s.len() ==> word_char(s[i]))
}

pub open spec fn spec_valid_password(s: Seq<char>) -> bool {
    spec_in_range(s, PASSWORD_MIN_LEN, PASSWORD_MAX_LEN)
}

pub open spec fn spec_valid_nickname(s: Seq<char>) -> bool {
    spec_in_range(s, NICKNAME_MIN_LEN, NICKNAME_MAX_LEN)
}

pub open spec fn spec_valid_email(s: Seq<char>) -> bool {
    spec_in_range(s, 4, 100) && (forall|i: int| 0 <= i < s.len() ==> email_char(s[i]))
}

pub open spec fn spec_valid_room_name(s: Seq<char>) -> bool {
    spec_in_range(s, ROOM_NAME_MIN_LEN, ROOM_NAME_MAX_LEN)
}

pub open spec fn spec_valid_room_path(s: Seq<char>) -> bool {
    spec_in_range(s, USERNAME_MIN_LEN, USERNAME_MAX_LEN) && (forall|i: int|
        0 <= i < s.len() ==> word_char(s[i]))
}

/// Does the character count of `string` lie in `min ..= max`?
pub fn in_range(string: &str, min: usize, max: usize) -> (r: bool)
    ensures
        r == spec_in_range(string@, min, max),
{
    let char_count = string.unicode_len();
    min <= char_count && char_count <= max
}

fn is_word_char(c: char) -> (r: bool)
    ensures
        r == word_char(c),
{
    let u = c as u32;
    (('a' as u32) <= u && u <= ('z' as u32)) || (('A' as u32) <= u && u <= ('Z' as u32)) || (('0'
        as u32) <= u && u <= ('9' as u32)) || c == '_'
}

fn is_email_char(c: char) -> (r: bool)
    ensures
        r == email_char(c),
{
    is_word_char(c) || c == '!' || c == '#' || c == '$' || c == '%' || c == '&' || c == '\'' || c
        == '*' || c == '+' || c == ',' || c == '-' || c == '.' || c == '/' || c == '=' || c == '?'
        || c == '^' || c == '`' || c == '{' || c == '|' || c == '}' || c == '~' || c == '"' || c
        == '(' || c == ')' || c == ':' || c == ';' || c == '<' || c == '>' || c == '@' || c == '['
        || c == ']'
}

fn all_word_chars(s: &str) -> (r: bool)
    ensures
        r == (forall|i: int| 0 <= i < s@.len() ==> word_char(s@[i])),
{
    let n = s.unicode_len();
    for i in 0..n
        invariant
            n == s@.len(),
            forall|k: int| 0 <= k < i ==> word_char(s@[k]),
    {
        if !is_word_char(s.get_char(i)) {
            return false;
        }
    }
    true
}

fn all_email_chars(s: &str) -> (r: bool)
    ensures
        r == (forall|i: int| 0 <= i < s@.len() ==> email_char(s@[i])),
{
    let n = s.unicode_len();
    for i in 0..n
        invariant
            n == s@.len(),
            forall|k: int| 0 <= k < i ==> email_char(s@[k]),
    {
        if !is_email_char(s.get_char(i)) {
            return false;
        }
    }
    true
}

/// A username: 1 to 30 characters, ASCII letters, digits or underscore.
pub fn valid_username(username: &String) -> (r: bool)
    ensures
        r == spec_valid_username(username@),
{
    in_range(username.as_str(), USERNAME_MIN_LEN, USERNAME_MAX_LEN) && all_word_chars(
        username.as_str(),
    )
}

/// A password: 8 to 64 characters, unrestricted content.
pub fn valid_password(password: &String) -> (r: bool)
    ensures
        r == spec_valid_password(password@),
{
    in_range(password.as_str(), PASSWORD_MIN_LEN, PASSWORD_MAX_LEN)
}

/// A nickname: 1 to 30 characters, unrestricted content.
pub fn valid_nickname(nickname: String) -> (r: bool)
    ensures
        r == spec_valid_nickname(nickname@),
{
    in_range(nickname.as_str(), NICKNAME_MIN_LEN, NICKNAME_MAX_LEN)
}

/// An e-mail address: 4 to 100 characters drawn from the local-part
/// character class.
pub fn valid_email(email: String) -> (r: bool)
    ensures
        r == spec_valid_email(email@),
{
    in_range(email.as_str(), 4, 100) && all_email_chars(email.as_str())
}

/// A room title: 2 to 32 characters, unrestricted content.
pub fn valid_room_name(name: String) -> (r: bool)
    ensures
        r == spec_valid_room_name(name@),
{
    in_range(name.as_str(), ROOM_NAME_MIN_LEN, ROOM_NAME_MAX_LEN)
}

/// A room path: same grammar as a username, since it appears in URLs.
pub fn valid_room_path(username: &String) -> (r: bool)
    ensures
        r == spec_valid_room_path(username@),
{
    in_range(username.as_str(), USERNAME_MIN_LEN, USERNAME_MAX_LEN) && all_word_chars(
        username.as_str(),
    )
}

} // verus!
