//! Tests for the role store's ordered queries.

use room_permissions::role::{NewRole, NewUserRole, Role};
use room_permissions::store::{get_highest_user_role, list_user_roles_in_room, RoleStore, StoreError};

fn ids(roles: &[Role]) -> Vec<i64> {
    roles.iter().map(|r| r.id).collect()
}

fn positions(roles: &[Role]) -> Vec<i32> {
    roles.iter().map(|r| r.position).collect()
}

#[test]
fn anonymous_chain_excludes_user_only_roles() {
    // The anonymous chain of a seeded room holds only anonymous-eligible
    // generic roles: Anonymous and Everyone, never the user-only Stranger.
    let mut store = RoleStore::new();
    store.seed_default_roles(1, 42, 100);

    let chain = list_user_roles_in_room(None, 1, &store).unwrap();
    let names: Vec<&str> = chain.iter().map(|r| r.name.as_str()).collect();
    assert_eq!(names, vec!["Anonymous", "Everyone"]);
    assert!(chain.iter().all(|r| r.is_generic && r.anonymous_eligible));
    assert!(!names.contains(&"Stranger"));
}

#[test]
fn repeated_queries_return_the_same_order() {
    // With unchanged data, repeated calls return the same roles in the same
    // order, ascending by position within each segment.
    let mut store = RoleStore::new();
    store.seed_default_roles(1, 42, 100);
    let extra = NewRole { room_id: 1, name: "Curator", position: 7, ..Default::default() }
        .create(&mut store, 100);
    NewUserRole { role_id: extra.id, user_id: 9 }.create(&mut store, 100);

    let first = list_user_roles_in_room(Some(9), 1, &store).unwrap();
    let second = list_user_roles_in_room(Some(9), 1, &store).unwrap();
    assert_eq!(ids(&first), ids(&second));
    assert_eq!(positions(&first), positions(&second));
}

#[test]
fn assigned_segment_comes_before_generic_segment() {
    // Explicit per-user roles precede generic roles even when their numeric
    // position is larger.
    let mut store = RoleStore::new();
    store.seed_default_roles(1, 42, 100);
    let low_priority = NewRole { room_id: 1, name: "Guest", position: 2000, ..Default::default() }
        .create(&mut store, 100);
    NewUserRole { role_id: low_priority.id, user_id: 9 }.create(&mut store, 100);

    let chain = list_user_roles_in_room(Some(9), 1, &store).unwrap();
    let names: Vec<&str> = chain.iter().map(|r| r.name.as_str()).collect();
    // Assigned segment first (position 2000), then the generic roles in
    // ascending position order (1001, 1002, 1003).
    assert_eq!(names, vec!["Guest", "Stranger", "Anonymous", "Everyone"]);
    assert_eq!(positions(&chain), vec![2000, 1001, 1002, 1003]);
}

#[test]
fn roles_are_listed_in_ascending_position_order() {
    // Inserts keep the room's roles ordered regardless of creation order.
    let mut store = RoleStore::new();
    NewRole { room_id: 1, name: "C", position: 10, ..Default::default() }.create(&mut store, 1);
    NewRole { room_id: 1, name: "A", position: 5, ..Default::default() }.create(&mut store, 2);
    NewRole { room_id: 1, name: "B", position: 7, ..Default::default() }.create(&mut store, 3);
    NewRole { room_id: 2, name: "X", position: 1, ..Default::default() }.create(&mut store, 4);

    let roles = Role::list_by_room_id(1, &store);
    assert_eq!(positions(&roles), vec![5, 7, 10]);
    let names: Vec<&str> = roles.iter().map(|r| r.name.as_str()).collect();
    assert_eq!(names, vec!["A", "B", "C"]);
}

#[test]
fn generic_listing_respects_anonymity_filter() {
    let mut store = RoleStore::new();
    store.seed_default_roles(1, 42, 100);

    let for_users = Role::list_generic_room_roles(1, false, &store);
    let for_anonymous = Role::list_generic_room_roles(1, true, &store);
    let user_names: Vec<&str> = for_users.iter().map(|r| r.name.as_str()).collect();
    let anon_names: Vec<&str> = for_anonymous.iter().map(|r| r.name.as_str()).collect();
    assert_eq!(user_names, vec!["Stranger", "Anonymous", "Everyone"]);
    assert_eq!(anon_names, vec!["Anonymous", "Everyone"]);
}

#[test]
fn assigned_roles_are_filtered_by_room_and_user() {
    let mut store = RoleStore::new();
    let here = NewRole { room_id: 1, name: "Here", position: 3, ..Default::default() }
        .create(&mut store, 1);
    let elsewhere = NewRole { room_id: 2, name: "Elsewhere", position: 1, ..Default::default() }
        .create(&mut store, 1);
    NewUserRole { role_id: here.id, user_id: 9 }.create(&mut store, 1);
    NewUserRole { role_id: elsewhere.id, user_id: 9 }.create(&mut store, 1);
    NewUserRole { role_id: here.id, user_id: 10 }.create(&mut store, 1);

    let mine = Role::list_user_roles_by_room_id(9, 1, &store);
    assert_eq!(ids(&mine), vec![here.id]);
    let other_room = Role::list_user_roles_by_room_id(9, 2, &store);
    assert_eq!(ids(&other_room), vec![elsewhere.id]);
    let nobody = Role::list_user_roles_by_room_id(11, 1, &store);
    assert!(nobody.is_empty());
}

#[test]
fn highest_role_is_the_first_of_the_chain() {
    // The creator of a seeded room holds Owner, so their highest role is
    // Owner; an unassigned user's highest is the first generic role.
    let mut store = RoleStore::new();
    store.seed_default_roles(1, 42, 100);

    let owner = get_highest_user_role(Some(42), 1, &store).unwrap();
    assert_eq!(owner.name, "Owner");
    assert_eq!(owner.position, 0);

    let stranger = get_highest_user_role(Some(7), 1, &store).unwrap();
    assert_eq!(stranger.name, "Stranger");

    let anonymous = get_highest_user_role(None, 1, &store).unwrap();
    assert_eq!(anonymous.name, "Anonymous");
}

#[test]
fn empty_room_queries_fail_as_malformed() {
    let store = RoleStore::new();
    assert!(matches!(
        list_user_roles_in_room(None, 1, &store),
        Err(StoreError::MalformedRoomState)
    ));
    assert_eq!(
        get_highest_user_role(Some(5), 1, &store).map(|r| r.id),
        Err(StoreError::MalformedRoomState)
    );
}

#[test]
fn roles_are_found_by_identity() {
    let mut store = RoleStore::new();
    let a = NewRole { room_id: 1, name: "A", position: 1, ..Default::default() }
        .create(&mut store, 1);
    let found = Role::by_id(a.id, &store).unwrap();
    assert_eq!(found.id, a.id);
    assert_eq!(found.name, "A");
    assert_eq!(
        Role::by_id(a.id + 1, &store).map(|r| r.id),
        Err(StoreError::NotFound)
    );
}

#[test]
fn created_roles_get_fresh_identities_and_timestamps() {
    let mut store = RoleStore::new();
    let a = NewRole { room_id: 1, name: "A", position: 1, ..Default::default() }
        .create(&mut store, 11);
    let b = NewRole { room_id: 1, name: "B", position: 2, ..Default::default() }
        .create(&mut store, 22);
    assert_ne!(a.id, b.id);
    assert_eq!(a.created_at, 11);
    assert_eq!(b.created_at, 22);

    let assignment = NewUserRole { role_id: a.id, user_id: 5 }.create(&mut store, 33);
    assert_eq!(assignment.role_id, a.id);
    assert_eq!(assignment.user_id, 5);
    assert_eq!(assignment.created_at, 33);
}
