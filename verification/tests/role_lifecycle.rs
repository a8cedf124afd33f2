//! Tests for role deletion and update, the mutations the resolver's
//! role-lifecycle actions gate.

use room_permissions::permission_state::PermissionState;
use room_permissions::role::{NewRole, NewUserRole, Role};
use room_permissions::store::{is_not_found_error, list_user_roles_in_room, RoleStore, StoreError};

#[test]
fn deleting_a_role_cascades_its_assignments() {
    let mut store = RoleStore::new();
    let a = NewRole { room_id: 1, name: "A", position: 1, ..Default::default() }
        .create(&mut store, 1);
    let b = NewRole { room_id: 1, name: "B", position: 2, ..Default::default() }
        .create(&mut store, 1);
    NewUserRole { role_id: a.id, user_id: 7 }.create(&mut store, 1);
    NewUserRole { role_id: b.id, user_id: 7 }.create(&mut store, 1);

    assert_eq!(a.delete(&mut store), 1);
    assert!(matches!(Role::by_id(a.id, &store), Err(StoreError::NotFound)));

    // The assignment of the deleted role is gone; the other one survives.
    let remaining = Role::list_user_roles_by_room_id(7, 1, &store);
    let ids: Vec<i64> = remaining.iter().map(|r| r.id).collect();
    assert_eq!(ids, vec![b.id]);

    // Deleting again touches nothing.
    assert_eq!(a.delete(&mut store), 0);
    assert_eq!(Role::list_by_room_id(1, &store).len(), 1);
}

#[test]
fn updating_a_role_changes_fields_and_reorders() {
    let mut store = RoleStore::new();
    let a = NewRole { room_id: 1, name: "A", position: 1, ..Default::default() }
        .create(&mut store, 1);
    let b = NewRole { room_id: 1, name: "B", position: 2, ..Default::default() }
        .create(&mut store, 1);

    // Move role A behind B and grant it a permission.
    let mut changed = a.clone();
    changed.position = 5;
    changed.message_create = PermissionState::Allowed;
    let updated = changed.update(&mut store).unwrap();
    assert_eq!(updated.id, a.id);

    let roles = Role::list_by_room_id(1, &store);
    let names: Vec<&str> = roles.iter().map(|r| r.name.as_str()).collect();
    assert_eq!(names, vec!["B", "A"]);
    let stored = Role::by_id(a.id, &store).unwrap();
    assert_eq!(stored.position, 5);
    assert_eq!(stored.message_create, PermissionState::Allowed);
    let _ = b;
}

#[test]
fn updating_an_unknown_role_reports_not_found() {
    let mut store = RoleStore::new();
    let a = NewRole { room_id: 1, name: "A", position: 1, ..Default::default() }
        .create(&mut store, 1);
    let mut ghost_role = a.clone();
    ghost_role.id = a.id + 100;
    let err = ghost_role.update(&mut store).map(|r| r.id).unwrap_err();
    assert_eq!(err, StoreError::NotFound);
    assert!(is_not_found_error(&err));
    assert!(!is_not_found_error(&StoreError::MalformedRoomState));
}

#[test]
fn assignments_are_found_and_updated_by_identity() {
    let mut store = RoleStore::new();
    let a = NewRole { room_id: 1, name: "A", position: 1, ..Default::default() }
        .create(&mut store, 1);
    let b = NewRole { room_id: 1, name: "B", position: 2, ..Default::default() }
        .create(&mut store, 1);
    let assignment = NewUserRole { role_id: a.id, user_id: 7 }.create(&mut store, 1);

    let found = room_permissions::role::UserRole::by_id(assignment.id, &store).unwrap();
    assert_eq!(found, assignment);
    assert_eq!(
        room_permissions::role::UserRole::by_id(assignment.id + 1, &store),
        Err(StoreError::NotFound)
    );

    // Move the assignment over to role B.
    let mut changed = assignment;
    changed.role_id = b.id;
    assert_eq!(changed.update(&mut store), Ok(changed));
    let mine = Role::list_user_roles_by_room_id(7, 1, &store);
    let ids: Vec<i64> = mine.iter().map(|r| r.id).collect();
    assert_eq!(ids, vec![b.id]);

    let mut ghost_assignment = assignment;
    ghost_assignment.id = assignment.id + 1;
    assert_eq!(ghost_assignment.update(&mut store), Err(StoreError::NotFound));
}

#[test]
fn deleting_an_assignment_removes_one_chain_entry() {
    let mut store = RoleStore::new();
    store.seed_default_roles(1, 42, 100);
    let curator = NewRole { room_id: 1, name: "Curator", position: 3, ..Default::default() }
        .create(&mut store, 1);
    let assignment = NewUserRole { role_id: curator.id, user_id: 9 }.create(&mut store, 1);

    let before = list_user_roles_in_room(Some(9), 1, &store).unwrap();
    assert_eq!(before[0].name, "Curator");

    assert_eq!(assignment.delete(&mut store), 1);
    let after = list_user_roles_in_room(Some(9), 1, &store).unwrap();
    assert_eq!(after[0].name, "Stranger");
    assert_eq!(after.len(), before.len() - 1);

    assert_eq!(assignment.delete(&mut store), 0);
}
