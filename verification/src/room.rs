//! Room records and the insertable form used when creating one.

use vstd::prelude::*;

use crate::asserts::{
    spec_valid_room_name, spec_valid_room_path, valid_room_name, valid_room_path,
};
use crate::errors::ResponseError;
use crate::user::clone_opt_string;

verus! {

/// A room. Permission checks only read its `id`; the permission subsystem
/// treats room lookup itself as an external concern.
#[derive(Debug)]
pub struct Room {
    pub id: i64,
    pub title: String,
    /// URL component under which the room is reachable.
    pub path: String,
    pub is_public: bool,
    pub is_deleted: bool,
    pub password: Option<String>,
    pub created_at: i64,
    pub last_login: Option<i64>,
    pub deleted_at: Option<i64>,
}

impl Clone for Room {
    fn clone(&self) -> (res: Room)
        ensures
            res == *self,
    {
        Room {
            id: self.id,
            title: self.title.clone(),
            path: self.path.clone(),
            is_public: self.is_public,
            is_deleted: self.is_deleted,
            password: clone_opt_string(&self.password),
            created_at: self.created_at,
            last_login: self.last_login,
            deleted_at: self.deleted_at,
        }
    }
}

/// The fields a caller supplies when creating a room.
#[derive(Debug)]
pub struct NewRoom<'a> {
    pub title: &'a str,
    pub path: &'a str,
    pub is_public: bool,
}

impl<'a> Default for NewRoom<'a> {
    fn default() -> (r: Self)
        ensures
            r.title@ == Seq::<char>::empty(),
            r.path@ == Seq::<char>::empty(),
            r.is_public,
    {
        proof {
            reveal_strlit("");
        }
        Self { title: "", path: "", is_public: true }
    }
}

/// The form fields a room-creation request carries.
#[derive(Debug)]
pub struct CreateRoom {
    pub title: String,
    pub path: String,
}

/// A room as reported to clients, together with its live state.
#[derive(Debug)]
pub struct RoomResponse {
    pub room: Room,
    /// What the room's player currently plays, if anything.
    pub playing: Option<String>,
    /// How many clients are connected.
    pub online: i32,
}

/// Validate a room-creation form and build the insertable room: the title
/// and path must satisfy their grammars, and a fresh room is public.
pub fn prepare_room<'a>(form: &'a CreateRoom) -> (r: Result<NewRoom<'a>, ResponseError>)
    ensures
        !spec_valid_room_name(form.title@) ==> (r matches Err(e)
            && e matches ResponseError::BadRequestMessage(m) && m@ == "Invalid room name"@),
        spec_valid_room_name(form.title@) && !spec_valid_room_path(form.path@) ==> (r matches Err(e)
            && e matches ResponseError::BadRequestMessage(m) && m@ == "Invalid room path"@),
        spec_valid_room_name(form.title@) && spec_valid_room_path(form.path@) ==> (r matches Ok(nr)
            && nr.title@ == form.title@ && nr.path@ == form.path@ && nr.is_public),
{
    if !valid_room_name(form.title.clone()) {
        return Err(ResponseError::BadRequestMessage("Invalid room name"));
    }
    if !valid_room_path(&form.path) {
        return Err(ResponseError::BadRequestMessage("Invalid room path"));
    }
    Ok(NewRoom { title: form.title.as_str(), path: form.path.as_str(), is_public: true })
}

} // verus!
