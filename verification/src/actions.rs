//! Role actions of a room, gated by the permission resolver.
//!
//! Each function mirrors one request a client can make: listing the
//! requester's own precedence chain, listing all roles of a room, and
//! creating a role. A denied permission surfaces as an access error; a
//! malformed room surfaces as an internal error — never as a denial.

use vstd::prelude::*;

use crate::errors::ResponseError;
use crate::permissions::{resolve, ActionType};
use crate::role::{default_grants, grants_of_role, NewRole, Role};
use crate::room::Room;
use crate::store::{list_user_roles_in_room, RoleStore, StoreError};
use crate::user::User;

verus! {

/// The path parameters of a room-scoped request.
#[derive(Debug)]
pub struct Url {
    pub room_path: String,
}

/// The form fields a role-creation request carries.
#[derive(Debug)]
pub struct CreateRole {
    pub name: String,
}

/// The requester's own precedence chain in the room: assigned roles first,
/// then the generic roles, each segment in ascending position order.
pub fn list_user_roles(user: Option<&User>, room: &Room, store: &RoleStore) -> (r: Result<
    Vec<Role>,
    ResponseError,
>)
    ensures
        ({
            let principal = match user {
                Some(u) => Some(u.id),
                None => None::<i64>,
            };
            match r {
                Ok(v) => v@ == store.applicable_roles(principal, room.id) && v@.len() > 0,
                Err(e) => e is InternalError && store.applicable_roles(principal, room.id).len()
                    == 0,
            }
        }),
{
    let user_id: Option<i64> = match user {
        Some(u) => Some(u.id),
        None => None,
    };
    match list_user_roles_in_room(user_id, room.id, store) {
        Ok(v) => Ok(v),
        Err(e) => Err(ResponseError::from(e)),
    }
}

/// All roles of the room, provided the requester holds the role-management
/// permission; denied requesters get an access error.
pub fn list_room_roles(user: Option<&User>, room: &Room, store: &RoleStore) -> (r: Result<
    Vec<Role>,
    ResponseError,
>)
    ensures
        ({
            let principal = match user {
                Some(u) => Some(u.id),
                None => None::<i64>,
            };
            let verdict = resolve(*store, principal, room.id, ActionType::RoleCreate);
            match r {
                Ok(v) => verdict == Ok::<bool, StoreError>(true) && v@ == store.room_roles(room.id),
                Err(e) => (e is InternalError && verdict is Err) || ((e
                    matches ResponseError::AccessError(m) && m@ == "Not allowed to view roles"@)
                    && verdict == Ok::<bool, StoreError>(false)),
            }
        }),
{
    let verdict = match user {
        Some(u) => u.is_allowed(room, ActionType::RoleCreate, store),
        None => User::is_anonymous_allowed(room, ActionType::RoleCreate, store),
    };
    match verdict {
        Err(e) => Err(ResponseError::from(e)),
        Ok(false) => Err(ResponseError::AccessError("Not allowed to view roles")),
        Ok(true) => Ok(Role::list_by_room_id(room.id, store)),
    }
}

/// Create a custom role in the room, provided the requester holds the
/// role-creation permission. The created role starts out assigned-only at
/// position 999 with every permission inherited.
pub fn create_role(
    user: &User,
    room: &Room,
    form: &CreateRole,
    store: &mut RoleStore,
    now: i64,
) -> (r: Result<Role, ResponseError>)
    requires
        old(store).wf(),
        old(store).spec_next_role_id() < i64::MAX,
    ensures
        final(store).wf(),
        r matches Err(_) ==> *final(store) == *old(store),
        ({
            let verdict = resolve(*old(store), Some(user.id), room.id, ActionType::RoleCreate);
            match r {
                Ok(role) => {
                    &&& verdict == Ok::<bool, StoreError>(true)
                    &&& role.name@ == form.name@
                    &&& role.room_id == room.id
                    &&& role.position == 999i32
                    &&& !role.is_default
                    &&& !role.is_generic
                    &&& !role.anonymous_eligible
                    &&& role.color is None
                    &&& grants_of_role(role) == default_grants()
                    &&& role.id == old(store).spec_next_role_id()
                    &&& role.created_at == now
                    &&& exists|idx: int|
                        0 <= idx <= old(store).spec_roles().len() && final(store).spec_roles()
                            == old(store).spec_roles().insert(idx, role)
                    &&& final(store).spec_assignments() == old(store).spec_assignments()
                },
                Err(e) => (e is InternalError && verdict is Err) || ((e
                    matches ResponseError::AccessError(m) && m@ == "Not allowed to create role"@)
                    && verdict == Ok::<bool, StoreError>(false)),
            }
        }),
{
    match user.is_allowed(room, ActionType::RoleCreate, store) {
        Err(e) => {
            return Err(ResponseError::from(e));
        },
        Ok(false) => {
            return Err(ResponseError::AccessError("Not allowed to create role"));
        },
        Ok(true) => {},
    }
    let new_role = NewRole { room_id: room.id, name: form.name.as_str(), ..Default::default() };
    let role = new_role.create(store, now);
    Ok(role)
}

} // verus!
