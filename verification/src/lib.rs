//! Room permission resolution: a three-valued permission lattice resolved
//! across a position-ordered role hierarchy.
//!
//! A room owns a set of roles; each role bundles a tri-state verdict
//! ([`permission_state::PermissionState`]) for every governable action plus a
//! `position` priority (lower value = higher priority). A principal (an
//! identified user or the anonymous case) holds an ordered chain of
//! applicable roles; the resolver walks that chain and returns the first
//! non-`Unset` verdict, applying a position guard for actions that target
//! another user or role.

pub mod actions;
pub mod asserts;
pub mod auth;
pub mod errors;
pub mod permission_state;
pub mod permissions;
pub mod role;
pub mod room;
pub mod store;
pub mod user;
pub mod vars;

pub use errors::ResponseError;
pub use permission_state::PermissionState;
pub use permissions::{ActionType, AssertPermission};
pub use role::{NewRole, NewUserRole, Role, UserRole};
pub use room::Room;
pub use store::{RoleStore, StoreError};
pub use user::User;
