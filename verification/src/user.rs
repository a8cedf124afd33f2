//! User records and the insertable form used when signing up.

use vstd::prelude::*;

verus! {

/// An account. Only `id` and the stored `password` hash matter to the
/// permission subsystem; the rest is profile data carried along.
#[derive(Debug)]
pub struct User {
    pub id: i64,
    pub username: String,
    pub nickname: Option<String>,
    pub email: Option<String>,
    /// Salted password hash; `None` for accounts using an external identity.
    pub password: Option<String>,
    pub color: Option<String>,
    pub file_id: Option<i32>,
    pub is_admin: bool,
    pub last_login: Option<i64>,
    pub created_at: i64,
}

impl Clone for User {
    fn clone(&self) -> (res: User)
        ensures
            res == *self,
    {
        User {
            id: self.id,
            username: self.username.clone(),
            nickname: clone_opt_string(&self.nickname),
            email: clone_opt_string(&self.email),
            password: clone_opt_string(&self.password),
            color: clone_opt_string(&self.color),
            file_id: self.file_id,
            is_admin: self.is_admin,
            last_login: self.last_login,
            created_at: self.created_at,
        }
    }
}

/// Clone an optional owned string, preserving the value exactly.
pub(crate) fn clone_opt_string(s: &Option<String>) -> (res: Option<String>)
    ensures
        res == *s,
{
    match s {
        Some(v) => Some(v.clone()),
        None => None,
    }
}

/// The fields a caller supplies when creating a user; the store assigns the
/// identity and the creation timestamp.
#[derive(Debug)]
pub struct NewUser<'a> {
    pub username: &'a str,
    pub nickname: Option<String>,
    pub email: Option<String>,
    pub password: Option<String>,
    pub color: Option<String>,
    pub file_id: Option<i32>,
}

impl<'a> Default for NewUser<'a> {
    fn default() -> (r: Self)
        ensures
            r.username@ == Seq::<char>::empty(),
            r.nickname is None,
            r.email is None,
            r.password is None,
            r.color is None,
            r.file_id is None,
    {
        proof {
            reveal_strlit("");
        }
        Self { username: "", nickname: None, email: None, password: None, color: None, file_id: None }
    }
}

} // verus!
