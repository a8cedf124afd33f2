//! Roles: room-scoped bundles of permission verdicts with a priority position.
//!
//! A role carries one [`PermissionState`] per governable action plus a
//! `position` (lower value = higher priority) that orders the resolution
//! walk. Five presets are seeded with every room: Owner, Administrator,
//! Stranger, Anonymous and Everyone; the last is the total fallback whose
//! fields are all terminal verdicts.

use vstd::prelude::*;

use crate::permission_state::PermissionState;
use crate::user::clone_opt_string;

verus! {

/// A stored role.
///
/// `is_generic` marks a role that applies to principals in the room without
/// an explicit assignment; among generic roles, `anonymous_eligible` marks
/// those that also apply to anonymous principals. Roles that are generic but
/// not anonymous-eligible (such as the Stranger preset) are user-only.
#[derive(Debug)]
pub struct Role {
    pub id: i64,
    /// Owning room; every role belongs to exactly one room.
    pub room_id: i64,
    /// Display label, not required to be unique.
    pub name: String,
    /// Optional display hint; irrelevant to authorization.
    pub color: Option<String>,
    /// Whether the role was generated upon room creation.
    pub is_default: bool,
    /// Applies to principals of the room without an explicit assignment.
    pub is_generic: bool,
    /// A generic role that also applies to anonymous principals.
    pub anonymous_eligible: bool,
    /// Priority position: lower number = higher priority.
    pub position: i32,
    /// Permission to update the room title.
    pub title_update: PermissionState,
    /// Permission to update the room path.
    pub path_update: PermissionState,
    /// Permission to update the room's visibility.
    pub public_update: PermissionState,
    /// Permission to delete the room.
    pub room_delete: PermissionState,
    /// Permission to enter the room.
    pub room_view: PermissionState,
    /// Permission to view the audit log.
    pub audit_log_read: PermissionState,
    /// Permission to preload the content of message links.
    pub embed_links: PermissionState,
    /// Permission to ping everyone.
    pub ping_everyone: PermissionState,
    /// Permission to create the room password.
    pub password_create: PermissionState,
    /// Permission to update the room password.
    pub password_update: PermissionState,
    /// Permission to delete the room password.
    pub password_delete: PermissionState,
    /// Permission to bypass the room password.
    pub password_bypass: PermissionState,
    /// Permission to create an emote.
    pub emote_create: PermissionState,
    /// Permission to update an emote.
    pub emote_update: PermissionState,
    /// Permission to delete an emote.
    pub emote_delete: PermissionState,
    /// Permission to view emotes.
    pub emote_view: PermissionState,
    /// Permission to create roles.
    pub role_create: PermissionState,
    /// Permission to delete roles.
    pub role_delete: PermissionState,
    /// Permission to update roles.
    pub role_update: PermissionState,
    /// Permission to view roles.
    pub role_view: PermissionState,
    /// Permission to add a video to the playlist.
    pub video_create: PermissionState,
    /// Permission to delete a video from the playlist.
    pub video_delete: PermissionState,
    /// Permission to watch a video.
    pub video_watch: PermissionState,
    /// Permission to move videos in the playlist.
    pub video_move: PermissionState,
    /// Permission to embed an iframe.
    pub video_iframe: PermissionState,
    /// Permission to add a video by direct link.
    pub video_raw: PermissionState,
    /// Permission to pause the player.
    pub player_pause: PermissionState,
    /// Permission to resume the player.
    pub player_resume: PermissionState,
    /// Permission to rewind the player.
    pub player_rewind: PermissionState,
    /// Permission to upload subtitles.
    pub subtitles_file: PermissionState,
    /// Permission to embed subtitles by link.
    pub subtitles_embed: PermissionState,
    /// Permission to send messages.
    pub message_create: PermissionState,
    /// Permission to read messages.
    pub message_read: PermissionState,
    /// Permission to delete messages.
    pub message_delete: PermissionState,
    /// Permission to read the message history.
    pub message_history_read: PermissionState,
    /// Cooldown in seconds between messages; `-1` means unset/inherit.
    pub message_timeout: i32,
    /// Permission to kick users.
    pub user_kick: PermissionState,
    /// Permission to ban users.
    pub user_ban: PermissionState,
    /// Permission to unban users.
    pub user_unban: PermissionState,
    /// Permission to time users out.
    pub user_timeout: PermissionState,
    pub created_at: i64,
}

/// The permission verdicts of a role, with identity and display data
/// stripped. Two roles with equal grants decide every action identically.
pub struct RoleGrants {
    pub title_update: PermissionState,
    pub path_update: PermissionState,
    pub public_update: PermissionState,
    pub room_delete: PermissionState,
    pub room_view: PermissionState,
    pub audit_log_read: PermissionState,
    pub embed_links: PermissionState,
    pub ping_everyone: PermissionState,
    pub password_create: PermissionState,
    pub password_update: PermissionState,
    pub password_delete: PermissionState,
    pub password_bypass: PermissionState,
    pub emote_create: PermissionState,
    pub emote_update: PermissionState,
    pub emote_delete: PermissionState,
    pub emote_view: PermissionState,
    pub role_create: PermissionState,
    pub role_delete: PermissionState,
    pub role_update: PermissionState,
    pub role_view: PermissionState,
    pub video_create: PermissionState,
    pub video_delete: PermissionState,
    pub video_watch: PermissionState,
    pub video_move: PermissionState,
    pub video_iframe: PermissionState,
    pub video_raw: PermissionState,
    pub player_pause: PermissionState,
    pub player_resume: PermissionState,
    pub player_rewind: PermissionState,
    pub subtitles_file: PermissionState,
    pub subtitles_embed: PermissionState,
    pub message_create: PermissionState,
    pub message_read: PermissionState,
    pub message_delete: PermissionState,
    pub message_history_read: PermissionState,
    pub message_timeout: i32,
    pub user_kick: PermissionState,
    pub user_ban: PermissionState,
    pub user_unban: PermissionState,
    pub user_timeout: PermissionState,
}

/// The grants a stored role carries.
pub open spec fn grants_of_role(r: Role) -> RoleGrants {
    RoleGrants {
        title_update: r.title_update,
        path_update: r.path_update,
        public_update: r.public_update,
        room_delete: r.room_delete,
        room_view: r.room_view,
        audit_log_read: r.audit_log_read,
        embed_links: r.embed_links,
        ping_everyone: r.ping_everyone,
        password_create: r.password_create,
        password_update: r.password_update,
        password_delete: r.password_delete,
        password_bypass: r.password_bypass,
        emote_create: r.emote_create,
        emote_update: r.emote_update,
        emote_delete: r.emote_delete,
        emote_view: r.emote_view,
        role_create: r.role_create,
        role_delete: r.role_delete,
        role_update: r.role_update,
        role_view: r.role_view,
        video_create: r.video_create,
        video_delete: r.video_delete,
        video_watch: r.video_watch,
        video_move: r.video_move,
        video_iframe: r.video_iframe,
        video_raw: r.video_raw,
        player_pause: r.player_pause,
        player_resume: r.player_resume,
        player_rewind: r.player_rewind,
        subtitles_file: r.subtitles_file,
        subtitles_embed: r.subtitles_embed,
        message_create: r.message_create,
        message_read: r.message_read,
        message_delete: r.message_delete,
        message_history_read: r.message_history_read,
        message_timeout: r.message_timeout,
        user_kick: r.user_kick,
        user_ban: r.user_ban,
        user_unban: r.user_unban,
        user_timeout: r.user_timeout,
    }
}

/// The grants an insertable role carries.
pub open spec fn grants_of_new<'a>(nr: NewRole<'a>) -> RoleGrants {
    RoleGrants {
        title_update: nr.title_update,
        path_update: nr.path_update,
        public_update: nr.public_update,
        room_delete: nr.room_delete,
        room_view: nr.room_view,
        audit_log_read: nr.audit_log_read,
        embed_links: nr.embed_links,
        ping_everyone: nr.ping_everyone,
        password_create: nr.password_create,
        password_update: nr.password_update,
        password_delete: nr.password_delete,
        password_bypass: nr.password_bypass,
        emote_create: nr.emote_create,
        emote_update: nr.emote_update,
        emote_delete: nr.emote_delete,
        emote_view: nr.emote_view,
        role_create: nr.role_create,
        role_delete: nr.role_delete,
        role_update: nr.role_update,
        role_view: nr.role_view,
        video_create: nr.video_create,
        video_delete: nr.video_delete,
        video_watch: nr.video_watch,
        video_move: nr.video_move,
        video_iframe: nr.video_iframe,
        video_raw: nr.video_raw,
        player_pause: nr.player_pause,
        player_resume: nr.player_resume,
        player_rewind: nr.player_rewind,
        subtitles_file: nr.subtitles_file,
        subtitles_embed: nr.subtitles_embed,
        message_create: nr.message_create,
        message_read: nr.message_read,
        message_delete: nr.message_delete,
        message_history_read: nr.message_history_read,
        message_timeout: nr.message_timeout,
        user_kick: nr.user_kick,
        user_ban: nr.user_ban,
        user_unban: nr.user_unban,
        user_timeout: nr.user_timeout,
    }
}

/// Every verdict equal to `s`, with the given message cooldown.
pub open spec fn uniform_grants(s: PermissionState, message_timeout: i32) -> RoleGrants {
    RoleGrants {
        title_update: s,
        path_update: s,
        public_update: s,
        room_delete: s,
        room_view: s,
        audit_log_read: s,
        embed_links: s,
        ping_everyone: s,
        password_create: s,
        password_update: s,
        password_delete: s,
        password_bypass: s,
        emote_create: s,
        emote_update: s,
        emote_delete: s,
        emote_view: s,
        role_create: s,
        role_delete: s,
        role_update: s,
        role_view: s,
        video_create: s,
        video_delete: s,
        video_watch: s,
        video_move: s,
        video_iframe: s,
        video_raw: s,
        player_pause: s,
        player_resume: s,
        player_rewind: s,
        subtitles_file: s,
        subtitles_embed: s,
        message_create: s,
        message_read: s,
        message_delete: s,
        message_history_read: s,
        user_kick: s,
        user_ban: s,
        user_unban: s,
        user_timeout: s,
        message_timeout: message_timeout,
    }
}

/// Owner: everything allowed, no message cooldown.
pub open spec fn owner_grants() -> RoleGrants {
    uniform_grants(PermissionState::Allowed, 0i32)
}

/// Administrator: identical to Owner except room deletion falls through.
pub open spec fn administator_grants() -> RoleGrants {
    RoleGrants { room_delete: PermissionState::Unset, ..owner_grants() }
}

/// Stranger: mostly inherited, but pinging everyone and adding videos are
/// allowed and the message cooldown is lifted.
pub open spec fn stranger_grants() -> RoleGrants {
    RoleGrants {
        ping_everyone: PermissionState::Allowed,
        video_create: PermissionState::Allowed,
        message_timeout: 0i32,
        ..uniform_grants(PermissionState::Unset, -1i32)
    }
}

/// Anonymous: a pure inheritance placeholder, everything unset.
pub open spec fn anonymous_grants() -> RoleGrants {
    uniform_grants(PermissionState::Unset, -1i32)
}

/// Everyone: the total fallback. Viewing and message creation/reading are
/// allowed; every mutation and moderation action is forbidden. No field is
/// unset, so a walk that reaches this role always terminates with a verdict.
pub open spec fn everyone_grants() -> RoleGrants {
    RoleGrants {
        room_view: PermissionState::Allowed,
        emote_view: PermissionState::Allowed,
        role_view: PermissionState::Allowed,
        video_watch: PermissionState::Allowed,
        message_create: PermissionState::Allowed,
        message_read: PermissionState::Allowed,
        message_history_read: PermissionState::Allowed,
        message_timeout: 1i32,
        ..uniform_grants(PermissionState::Forbidden, 1i32)
    }
}

/// The grants used for freshly created custom roles: everything inherited.
pub open spec fn default_grants() -> RoleGrants {
    uniform_grants(PermissionState::Unset, -1i32)
}

/// The stored role a [`NewRole`] turns into when the store assigns it the
/// identity `id` at time `created_at`.
pub open spec fn role_matches_new<'a>(role: Role, nr: NewRole<'a>, id: i64, created_at: i64) -> bool {
    &&& role.id == id
    &&& role.room_id == nr.room_id
    &&& role.name@ == nr.name@
    &&& match (role.color, nr.color) {
        (Some(c), Some(n)) => c@ == n@,
        (None, None) => true,
        _ => false,
    }
    &&& role.is_default == nr.is_default
    &&& role.is_generic == nr.is_generic
    &&& role.anonymous_eligible == nr.anonymous_eligible
    &&& role.position == nr.position
    &&& grants_of_role(role) == grants_of_new(nr)
    &&& role.created_at == created_at
}

impl Clone for Role {
    fn clone(&self) -> (res: Role)
        ensures
            res == *self,
    {
        Role {
            id: self.id,
            room_id: self.room_id,
            name: self.name.clone(),
            color: clone_opt_string(&self.color),
            is_default: self.is_default,
            is_generic: self.is_generic,
            anonymous_eligible: self.anonymous_eligible,
            position: self.position,
            title_update: self.title_update,
            path_update: self.path_update,
            public_update: self.public_update,
            room_delete: self.room_delete,
            room_view: self.room_view,
            audit_log_read: self.audit_log_read,
            embed_links: self.embed_links,
            ping_everyone: self.ping_everyone,
            password_create: self.password_create,
            password_update: self.password_update,
            password_delete: self.password_delete,
            password_bypass: self.password_bypass,
            emote_create: self.emote_create,
            emote_update: self.emote_update,
            emote_delete: self.emote_delete,
            emote_view: self.emote_view,
            role_create: self.role_create,
            role_delete: self.role_delete,
            role_update: self.role_update,
            role_view: self.role_view,
            video_create: self.video_create,
            video_delete: self.video_delete,
            video_watch: self.video_watch,
            video_move: self.video_move,
            video_iframe: self.video_iframe,
            video_raw: self.video_raw,
            player_pause: self.player_pause,
            player_resume: self.player_resume,
            player_rewind: self.player_rewind,
            subtitles_file: self.subtitles_file,
            subtitles_embed: self.subtitles_embed,
            message_create: self.message_create,
            message_read: self.message_read,
            message_delete: self.message_delete,
            message_history_read: self.message_history_read,
            message_timeout: self.message_timeout,
            user_kick: self.user_kick,
            user_ban: self.user_ban,
            user_unban: self.user_unban,
            user_timeout: self.user_timeout,
            created_at: self.created_at,
        }
    }
}

/// The fields a caller supplies when creating a role; the store assigns the
/// identity and the creation timestamp.
///
/// `room_id` and `name` should always be specified explicitly.
#[derive(Debug)]
pub struct NewRole<'a> {
    pub room_id: i64,
    pub name: &'a str,
    pub color: Option<&'a str>,
    pub is_default: bool,
    pub is_generic: bool,
    pub anonymous_eligible: bool,
    pub position: i32,
    pub title_update: PermissionState,
    pub path_update: PermissionState,
    pub public_update: PermissionState,
    pub room_delete: PermissionState,
    pub room_view: PermissionState,
    pub audit_log_read: PermissionState,
    pub embed_links: PermissionState,
    pub ping_everyone: PermissionState,
    pub password_create: PermissionState,
    pub password_update: PermissionState,
    pub password_delete: PermissionState,
    pub password_bypass: PermissionState,
    pub emote_create: PermissionState,
    pub emote_update: PermissionState,
    pub emote_delete: PermissionState,
    pub emote_view: PermissionState,
    pub role_create: PermissionState,
    pub role_delete: PermissionState,
    pub role_update: PermissionState,
    pub role_view: PermissionState,
    pub video_create: PermissionState,
    pub video_delete: PermissionState,
    pub video_watch: PermissionState,
    pub video_move: PermissionState,
    pub video_iframe: PermissionState,
    pub video_raw: PermissionState,
    pub player_pause: PermissionState,
    pub player_resume: PermissionState,
    pub player_rewind: PermissionState,
    pub subtitles_file: PermissionState,
    pub subtitles_embed: PermissionState,
    pub message_create: PermissionState,
    pub message_read: PermissionState,
    pub message_delete: PermissionState,
    pub message_history_read: PermissionState,
    pub message_timeout: i32,
    pub user_kick: PermissionState,
    pub user_ban: PermissionState,
    pub user_unban: PermissionState,
    pub user_timeout: PermissionState,
}

/// The Owner preset as an insertable role for `room_id`.
pub open spec fn is_owner_new<'a>(nr: NewRole<'a>, room_id: i64) -> bool {
    &&& nr.room_id == room_id
    &&& nr.name@ == "Owner"@
    &&& nr.is_default
    &&& !nr.is_generic
    &&& !nr.anonymous_eligible
    &&& nr.position == 0i32
    &&& grants_of_new(nr) == owner_grants()
}

/// The Administrator preset as an insertable role for `room_id`.
pub open spec fn is_administator_new<'a>(nr: NewRole<'a>, room_id: i64) -> bool {
    &&& nr.room_id == room_id
    &&& nr.name@ == "Administrator"@
    &&& nr.is_default
    &&& !nr.is_generic
    &&& !nr.anonymous_eligible
    &&& nr.position == 1i32
    &&& grants_of_new(nr) == administator_grants()
}

/// The Stranger preset as an insertable role for `room_id`: generic for
/// authenticated principals, user-only (not anonymous-eligible).
pub open spec fn is_stranger_new<'a>(nr: NewRole<'a>, room_id: i64) -> bool {
    &&& nr.room_id == room_id
    &&& nr.name@ == "Stranger"@
    &&& nr.is_default
    &&& nr.is_generic
    &&& !nr.anonymous_eligible
    &&& nr.position == 1001i32
    &&& grants_of_new(nr) == stranger_grants()
}

/// The Anonymous preset as an insertable role for `room_id`.
pub open spec fn is_anonymous_new<'a>(nr: NewRole<'a>, room_id: i64) -> bool {
    &&& nr.room_id == room_id
    &&& nr.name@ == "Anonymous"@
    &&& nr.is_default
    &&& nr.is_generic
    &&& nr.anonymous_eligible
    &&& nr.position == 1002i32
    &&& grants_of_new(nr) == anonymous_grants()
}

/// The Everyone preset as an insertable role for `room_id`.
pub open spec fn is_everyone_new<'a>(nr: NewRole<'a>, room_id: i64) -> bool {
    &&& nr.room_id == room_id
    &&& nr.name@ == "Everyone"@
    &&& nr.is_default
    &&& nr.is_generic
    &&& nr.anonymous_eligible
    &&& nr.position == 1003i32
    &&& grants_of_new(nr) == everyone_grants()
}

/// A stored role carrying the Owner preset for `room_id`.
pub open spec fn is_owner_role(r: Role, room_id: i64) -> bool {
    &&& r.room_id == room_id
    &&& r.name@ == "Owner"@
    &&& r.is_default
    &&& !r.is_generic
    &&& !r.anonymous_eligible
    &&& r.position == 0i32
    &&& grants_of_role(r) == owner_grants()
}

/// A stored role carrying the Administrator preset for `room_id`.
pub open spec fn is_administator_role(r: Role, room_id: i64) -> bool {
    &&& r.room_id == room_id
    &&& r.name@ == "Administrator"@
    &&& r.is_default
    &&& !r.is_generic
    &&& !r.anonymous_eligible
    &&& r.position == 1i32
    &&& grants_of_role(r) == administator_grants()
}

/// A stored role carrying the Stranger preset for `room_id`.
pub open spec fn is_stranger_role(r: Role, room_id: i64) -> bool {
    &&& r.room_id == room_id
    &&& r.name@ == "Stranger"@
    &&& r.is_default
    &&& r.is_generic
    &&& !r.anonymous_eligible
    &&& r.position == 1001i32
    &&& grants_of_role(r) == stranger_grants()
}

/// A stored role carrying the Anonymous preset for `room_id`.
pub open spec fn is_anonymous_role(r: Role, room_id: i64) -> bool {
    &&& r.room_id == room_id
    &&& r.name@ == "Anonymous"@
    &&& r.is_default
    &&& r.is_generic
    &&& r.anonymous_eligible
    &&& r.position == 1002i32
    &&& grants_of_role(r) == anonymous_grants()
}

/// A stored role carrying the Everyone preset for `room_id`.
pub open spec fn is_everyone_role(r: Role, room_id: i64) -> bool {
    &&& r.room_id == room_id
    &&& r.name@ == "Everyone"@
    &&& r.is_default
    &&& r.is_generic
    &&& r.anonymous_eligible
    &&& r.position == 1003i32
    &&& grants_of_role(r) == everyone_grants()
}

impl<'a> Default for NewRole<'a> {
    /// A custom role: assigned-only, position 999, everything inherited.
    ///
    /// `room_id` and `name` should always be specified explicitly.
    fn default() -> (r: NewRole<'a>)
        ensures
            r.room_id == 0i64,
            r.name@ == Seq::<char>::empty(),
            r.color is None,
            !r.is_default,
            !r.is_generic,
            !r.anonymous_eligible,
            r.position == 999i32,
            grants_of_new(r) == default_grants(),
    {
        proof {
            reveal_strlit("");
        }
        NewRole {
            room_id: 0,
            name: "",
            color: None,
            is_default: false,
            is_generic: false,
            anonymous_eligible: false,
            position: 999,
            title_update: PermissionState::Unset,
            path_update: PermissionState::Unset,
            public_update: PermissionState::Unset,
            room_delete: PermissionState::Unset,
            room_view: PermissionState::Unset,
            audit_log_read: PermissionState::Unset,
            embed_links: PermissionState::Unset,
            ping_everyone: PermissionState::Unset,
            password_create: PermissionState::Unset,
            password_update: PermissionState::Unset,
            password_delete: PermissionState::Unset,
            password_bypass: PermissionState::Unset,
            emote_create: PermissionState::Unset,
            emote_update: PermissionState::Unset,
            emote_delete: PermissionState::Unset,
            emote_view: PermissionState::Unset,
            role_create: PermissionState::Unset,
            role_delete: PermissionState::Unset,
            role_update: PermissionState::Unset,
            role_view: PermissionState::Unset,
            video_create: PermissionState::Unset,
            video_delete: PermissionState::Unset,
            video_watch: PermissionState::Unset,
            video_move: PermissionState::Unset,
            video_iframe: PermissionState::Unset,
            video_raw: PermissionState::Unset,
            player_pause: PermissionState::Unset,
            player_resume: PermissionState::Unset,
            player_rewind: PermissionState::Unset,
            subtitles_file: PermissionState::Unset,
            subtitles_embed: PermissionState::Unset,
            message_create: PermissionState::Unset,
            message_read: PermissionState::Unset,
            message_delete: PermissionState::Unset,
            message_history_read: PermissionState::Unset,
            message_timeout: -1,
            user_kick: PermissionState::Unset,
            user_ban: PermissionState::Unset,
            user_unban: PermissionState::Unset,
            user_timeout: PermissionState::Unset,
        }
    }
}

impl<'a> NewRole<'a> {
    /// The Owner preset: all permissions allowed, including room deletion.
    pub fn owner(room_id: i64) -> (r: NewRole<'a>)
        ensures
            is_owner_new(r, room_id),
            r.color matches Some(c) && c@ == "#ff9200"@,
    {
        NewRole {
            room_id,
            name: "Owner",
            color: Some("#ff9200"),
            is_default: true,
            is_generic: false,
            anonymous_eligible: false,
            position: 0,
            title_update: PermissionState::Allowed,
            path_update: PermissionState::Allowed,
            public_update: PermissionState::Allowed,
            room_delete: PermissionState::Allowed,
            room_view: PermissionState::Allowed,
            audit_log_read: PermissionState::Allowed,
            embed_links: PermissionState::Allowed,
            ping_everyone: PermissionState::Allowed,
            password_create: PermissionState::Allowed,
            password_update: PermissionState::Allowed,
            password_delete: PermissionState::Allowed,
            password_bypass: PermissionState::Allowed,
            emote_create: PermissionState::Allowed,
            emote_update: PermissionState::Allowed,
            emote_delete: PermissionState::Allowed,
            emote_view: PermissionState::Allowed,
            role_create: PermissionState::Allowed,
            role_delete: PermissionState::Allowed,
            role_update: PermissionState::Allowed,
            role_view: PermissionState::Allowed,
            video_create: PermissionState::Allowed,
            video_delete: PermissionState::Allowed,
            video_watch: PermissionState::Allowed,
            video_move: PermissionState::Allowed,
            video_iframe: PermissionState::Allowed,
            video_raw: PermissionState::Allowed,
            player_pause: PermissionState::Allowed,
            player_resume: PermissionState::Allowed,
            player_rewind: PermissionState::Allowed,
            subtitles_file: PermissionState::Allowed,
            subtitles_embed: PermissionState::Allowed,
            message_create: PermissionState::Allowed,
            message_read: PermissionState::Allowed,
            message_delete: PermissionState::Allowed,
            message_history_read: PermissionState::Allowed,
            message_timeout: 0,
            user_kick: PermissionState::Allowed,
            user_ban: PermissionState::Allowed,
            user_unban: PermissionState::Allowed,
            user_timeout: PermissionState::Allowed,
        }
    }

    /// The Administrator preset: just like Owner but room deletion is unset.
    pub fn administator(room_id: i64) -> (r: NewRole<'a>)
        ensures
            is_administator_new(r, room_id),
            r.color matches Some(c) && c@ == "#44bd82"@,
    {
        NewRole {
            name: "Administrator",
            color: Some("#44bd82"),
            position: 1,
            room_delete: PermissionState::Unset,
            ..NewRole::owner(room_id)
        }
    }

    /// The Stranger preset: an authenticated principal without assignments.
    /// Most permissions are inherited.
    pub fn stranger(room_id: i64) -> (r: NewRole<'a>)
        ensures
            is_stranger_new(r, room_id),
            r.color matches Some(c) && c@ == "#d8d8d8"@,
    {
        NewRole {
            room_id,
            name: "Stranger",
            color: Some("#d8d8d8"),
            is_default: true,
            is_generic: true,
            anonymous_eligible: false,
            position: 1001,
            ping_everyone: PermissionState::Allowed,
            video_create: PermissionState::Allowed,
            message_timeout: 0,
            ..Default::default()
        }
    }

    /// The Anonymous preset: an unauthenticated principal. Everything is
    /// inherited.
    pub fn anonymous(room_id: i64) -> (r: NewRole<'a>)
        ensures
            is_anonymous_new(r, room_id),
            r.color matches Some(c) && c@ == "#575757"@,
    {
        NewRole {
            room_id,
            name: "Anonymous",
            color: Some("#575757"),
            is_default: true,
            is_generic: true,
            anonymous_eligible: true,
            position: 1002,
            ..Default::default()
        }
    }

    /// The Everyone preset: the total fallback carrying a terminal verdict
    /// for every action.
    pub fn everyone(room_id: i64) -> (r: NewRole<'a>)
        ensures
            is_everyone_new(r, room_id),
            r.color matches Some(c) && c@ == "#8e8e8e"@,
    {
        NewRole {
            room_id,
            name: "Everyone",
            color: Some("#8e8e8e"),
            is_default: true,
            is_generic: true,
            anonymous_eligible: true,
            position: 1003,
            title_update: PermissionState::Forbidden,
            path_update: PermissionState::Forbidden,
            public_update: PermissionState::Forbidden,
            room_delete: PermissionState::Forbidden,
            room_view: PermissionState::Allowed,
            audit_log_read: PermissionState::Forbidden,
            embed_links: PermissionState::Forbidden,
            ping_everyone: PermissionState::Forbidden,
            password_create: PermissionState::Forbidden,
            password_update: PermissionState::Forbidden,
            password_delete: PermissionState::Forbidden,
            password_bypass: PermissionState::Forbidden,
            emote_create: PermissionState::Forbidden,
            emote_update: PermissionState::Forbidden,
            emote_delete: PermissionState::Forbidden,
            emote_view: PermissionState::Allowed,
            role_create: PermissionState::Forbidden,
            role_delete: PermissionState::Forbidden,
            role_update: PermissionState::Forbidden,
            role_view: PermissionState::Allowed,
            video_create: PermissionState::Forbidden,
            video_delete: PermissionState::Forbidden,
            video_watch: PermissionState::Allowed,
            video_move: PermissionState::Forbidden,
            video_iframe: PermissionState::Forbidden,
            video_raw: PermissionState::Forbidden,
            player_pause: PermissionState::Forbidden,
            player_resume: PermissionState::Forbidden,
            player_rewind: PermissionState::Forbidden,
            subtitles_file: PermissionState::Forbidden,
            subtitles_embed: PermissionState::Forbidden,
            message_create: PermissionState::Allowed,
            message_read: PermissionState::Allowed,
            message_delete: PermissionState::Forbidden,
            message_history_read: PermissionState::Allowed,
            message_timeout: 1,
            user_kick: PermissionState::Forbidden,
            user_ban: PermissionState::Forbidden,
            user_unban: PermissionState::Forbidden,
            user_timeout: PermissionState::Forbidden,
        }
    }
}

/// An assignment of a role to a user: a many-to-many join between users and
/// roles. A user may hold any number of roles in a room.
#[derive(Debug, Clone, Copy, PartialEq, Eq, Structural)]
pub struct UserRole {
    pub id: i64,
    pub role_id: i64,
    pub user_id: i64,
    pub created_at: i64,
}

/// The fields a caller supplies when assigning a role to a user.
#[derive(Debug, Clone, Copy, PartialEq, Eq, Structural)]
pub struct NewUserRole {
    pub role_id: i64,
    pub user_id: i64,
}

} // verus!
