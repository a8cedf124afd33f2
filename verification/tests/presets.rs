//! Tests pinning the seeded role presets to their documented values.

use room_permissions::permission_state::PermissionState;
use room_permissions::role::{NewRole, Role};
use room_permissions::store::RoleStore;

#[test]
fn owner_preset_allows_everything() {
    let r = NewRole::owner(5);
    assert_eq!(r.room_id, 5);
    assert_eq!(r.name, "Owner");
    assert_eq!(r.color, Some("#ff9200"));
    assert!(r.is_default);
    assert!(!r.is_generic);
    assert!(!r.anonymous_eligible);
    assert_eq!(r.position, 0);
    assert_eq!(r.room_delete, PermissionState::Allowed);
    assert_eq!(r.title_update, PermissionState::Allowed);
    assert_eq!(r.user_ban, PermissionState::Allowed);
    assert_eq!(r.message_create, PermissionState::Allowed);
    assert_eq!(r.message_timeout, 0);
}

#[test]
fn administator_preset_is_owner_without_room_delete() {
    let r = NewRole::administator(5);
    assert_eq!(r.name, "Administrator");
    assert_eq!(r.color, Some("#44bd82"));
    assert_eq!(r.position, 1);
    assert!(r.is_default);
    assert!(!r.is_generic);
    assert_eq!(r.room_delete, PermissionState::Unset);
    assert_eq!(r.title_update, PermissionState::Allowed);
    assert_eq!(r.user_kick, PermissionState::Allowed);
    assert_eq!(r.message_timeout, 0);
}

#[test]
fn stranger_preset_mostly_inherits() {
    let r = NewRole::stranger(5);
    assert_eq!(r.name, "Stranger");
    assert_eq!(r.position, 1001);
    assert!(r.is_default);
    assert!(r.is_generic);
    assert!(!r.anonymous_eligible);
    assert_eq!(r.ping_everyone, PermissionState::Allowed);
    assert_eq!(r.video_create, PermissionState::Allowed);
    assert_eq!(r.message_timeout, 0);
    assert_eq!(r.room_delete, PermissionState::Unset);
    assert_eq!(r.message_create, PermissionState::Unset);
    assert_eq!(r.user_ban, PermissionState::Unset);
}

#[test]
fn anonymous_preset_inherits_everything() {
    let r = NewRole::anonymous(5);
    assert_eq!(r.name, "Anonymous");
    assert_eq!(r.position, 1002);
    assert!(r.is_default);
    assert!(r.is_generic);
    assert!(r.anonymous_eligible);
    assert_eq!(r.message_timeout, -1);
    assert_eq!(r.title_update, PermissionState::Unset);
    assert_eq!(r.room_view, PermissionState::Unset);
    assert_eq!(r.user_timeout, PermissionState::Unset);
}

#[test]
fn everyone_preset_has_no_unset_field() {
    let r = NewRole::everyone(5);
    assert_eq!(r.name, "Everyone");
    assert_eq!(r.position, 1003);
    assert!(r.is_default);
    assert!(r.is_generic);
    assert!(r.anonymous_eligible);
    // Viewing and messaging allowed.
    assert_eq!(r.room_view, PermissionState::Allowed);
    assert_eq!(r.emote_view, PermissionState::Allowed);
    assert_eq!(r.role_view, PermissionState::Allowed);
    assert_eq!(r.video_watch, PermissionState::Allowed);
    assert_eq!(r.message_create, PermissionState::Allowed);
    assert_eq!(r.message_read, PermissionState::Allowed);
    assert_eq!(r.message_history_read, PermissionState::Allowed);
    // Every mutation and moderation forbidden.
    let forbidden = [
        r.title_update,
        r.path_update,
        r.public_update,
        r.room_delete,
        r.audit_log_read,
        r.embed_links,
        r.ping_everyone,
        r.password_create,
        r.password_update,
        r.password_delete,
        r.password_bypass,
        r.emote_create,
        r.emote_update,
        r.emote_delete,
        r.role_create,
        r.role_delete,
        r.role_update,
        r.video_create,
        r.video_delete,
        r.video_move,
        r.video_iframe,
        r.video_raw,
        r.player_pause,
        r.player_resume,
        r.player_rewind,
        r.subtitles_file,
        r.subtitles_embed,
        r.message_delete,
        r.user_kick,
        r.user_ban,
        r.user_unban,
        r.user_timeout,
    ];
    assert!(forbidden.iter().all(|s| *s == PermissionState::Forbidden));
    assert_eq!(r.message_timeout, 1);
}

#[test]
fn default_role_is_fully_inherited() {
    let r: NewRole = Default::default();
    assert_eq!(r.position, 999);
    assert!(!r.is_default);
    assert!(!r.is_generic);
    assert!(!r.anonymous_eligible);
    assert_eq!(r.message_timeout, -1);
    assert_eq!(r.title_update, PermissionState::Unset);
    assert_eq!(r.user_timeout, PermissionState::Unset);
}

#[test]
fn seeding_creates_five_roles_and_assigns_owner() {
    let mut store = RoleStore::new();
    let owner_role = store.seed_default_roles(9, 77, 100);
    assert_eq!(owner_role.name, "Owner");
    assert_eq!(owner_role.room_id, 9);
    assert_eq!(owner_role.position, 0);

    let roles = Role::list_by_room_id(9, &store);
    assert_eq!(roles.len(), 5);
    let names: Vec<&str> = roles.iter().map(|r| r.name.as_str()).collect();
    assert_eq!(names, vec!["Owner", "Administrator", "Stranger", "Anonymous", "Everyone"]);
    let mut ids: Vec<i64> = roles.iter().map(|r| r.id).collect();
    ids.sort();
    ids.dedup();
    assert_eq!(ids.len(), 5);

    let mine = Role::list_user_roles_by_room_id(77, 9, &store);
    assert_eq!(mine.len(), 1);
    assert_eq!(mine[0].id, owner_role.id);
}
