//! Tests for the room-creation validation and the role actions.

use room_permissions::actions::{create_role, list_room_roles, list_user_roles, CreateRole};
use room_permissions::errors::ResponseError;
use room_permissions::permission_state::PermissionState;
use room_permissions::role::{NewUserRole, Role};
use room_permissions::room::{prepare_room, CreateRoom, Room};
use room_permissions::store::RoleStore;
use room_permissions::user::User;

fn make_room(id: i64) -> Room {
    Room {
        id,
        title: "room".to_string(),
        path: "room".to_string(),
        is_public: true,
        is_deleted: false,
        password: None,
        created_at: 0,
        last_login: None,
        deleted_at: None,
    }
}

fn make_user(id: i64) -> User {
    User {
        id,
        username: format!("user{}", id),
        nickname: None,
        email: None,
        password: None,
        color: None,
        file_id: None,
        is_admin: false,
        last_login: None,
        created_at: 0,
    }
}

#[test]
fn room_form_is_validated_in_order() {
    let ok = CreateRoom { title: "Movie Night".to_string(), path: "movies".to_string() };
    let prepared = prepare_room(&ok).unwrap();
    assert_eq!(prepared.title, "Movie Night");
    assert_eq!(prepared.path, "movies");
    assert!(prepared.is_public);

    let bad_title = CreateRoom { title: "x".to_string(), path: "movies".to_string() };
    assert!(matches!(
        prepare_room(&bad_title),
        Err(ResponseError::BadRequestMessage("Invalid room name"))
    ));

    let bad_path = CreateRoom { title: "Movie Night".to_string(), path: "mo vies".to_string() };
    assert!(matches!(
        prepare_room(&bad_path),
        Err(ResponseError::BadRequestMessage("Invalid room path"))
    ));
}

#[test]
fn owners_may_list_and_create_roles() {
    let mut store = RoleStore::new();
    let room = make_room(1);
    let owner = make_user(42);
    store.seed_default_roles(1, owner.id, 100);

    let listed = list_room_roles(Some(&owner), &room, &store).unwrap();
    assert_eq!(listed.len(), 5);

    let form = CreateRole { name: "Curator".to_string() };
    let created = create_role(&owner, &room, &form, &mut store, 200).unwrap();
    assert_eq!(created.name, "Curator");
    assert_eq!(created.room_id, 1);
    assert_eq!(created.position, 999);
    assert!(!created.is_default);
    assert_eq!(created.role_create, PermissionState::Unset);
    assert_eq!(created.created_at, 200);

    assert_eq!(Role::list_by_room_id(1, &store).len(), 6);
}

#[test]
fn strangers_may_not_create_roles() {
    // A user without assignments falls through Stranger (unset) to Everyone,
    // which forbids role creation.
    let mut store = RoleStore::new();
    let room = make_room(1);
    store.seed_default_roles(1, 42, 100);
    let passerby = make_user(7);

    let form = CreateRole { name: "Sneaky".to_string() };
    assert!(matches!(
        create_role(&passerby, &room, &form, &mut store, 200),
        Err(ResponseError::AccessError("Not allowed to create role"))
    ));
    // The denial left the store unchanged.
    assert_eq!(Role::list_by_room_id(1, &store).len(), 5);

    assert!(matches!(
        list_room_roles(Some(&passerby), &room, &store),
        Err(ResponseError::AccessError("Not allowed to view roles"))
    ));
    assert!(matches!(
        list_room_roles(None, &room, &store),
        Err(ResponseError::AccessError("Not allowed to view roles"))
    ));
}

#[test]
fn listing_own_roles_returns_the_precedence_chain() {
    let mut store = RoleStore::new();
    let room = make_room(1);
    let owner = make_user(42);
    store.seed_default_roles(1, owner.id, 100);

    let chain = list_user_roles(Some(&owner), &room, &store).unwrap();
    let names: Vec<&str> = chain.iter().map(|r| r.name.as_str()).collect();
    assert_eq!(names, vec!["Owner", "Stranger", "Anonymous", "Everyone"]);

    let anonymous_chain = list_user_roles(None, &room, &store).unwrap();
    let names: Vec<&str> = anonymous_chain.iter().map(|r| r.name.as_str()).collect();
    assert_eq!(names, vec!["Anonymous", "Everyone"]);
}

#[test]
fn actions_on_an_empty_room_are_internal_errors() {
    let mut store = RoleStore::new();
    let room = make_room(1);
    let user = make_user(5);

    assert!(matches!(
        list_user_roles(Some(&user), &room, &store),
        Err(ResponseError::InternalError)
    ));
    assert!(matches!(
        list_room_roles(None, &room, &store),
        Err(ResponseError::InternalError)
    ));
    let form = CreateRole { name: "Ghost".to_string() };
    assert!(matches!(
        create_role(&user, &room, &form, &mut store, 1),
        Err(ResponseError::InternalError)
    ));
}

#[test]
fn role_assignments_do_not_leak_between_users() {
    let mut store = RoleStore::new();
    let room = make_room(1);
    let owner = make_user(42);
    let other = make_user(43);
    store.seed_default_roles(1, owner.id, 100);
    let curator = create_role(&owner, &room, &CreateRole { name: "Curator".to_string() }, &mut store, 1)
        .unwrap();
    NewUserRole { role_id: curator.id, user_id: other.id }.create(&mut store, 1);

    let chain = list_user_roles(Some(&other), &room, &store).unwrap();
    let names: Vec<&str> = chain.iter().map(|r| r.name.as_str()).collect();
    assert_eq!(names, vec!["Curator", "Stranger", "Anonymous", "Everyone"]);
}
