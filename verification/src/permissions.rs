//! The permission resolver: walks a principal's applicable roles in priority
//! order and returns the first non-`Unset` verdict.
//!
//! Actions that target another role or user carry that target; before the
//! actor's own permission field is consulted, the target's position is
//! compared against the current role's position. A target that outranks or
//! ties the current role forces `Forbidden` for that role — the escalation
//! guard.

use vstd::prelude::*;

use crate::permission_state::PermissionState;
use crate::role::Role;
use crate::room::Room;
use crate::store::{get_highest_user_role, list_user_roles_in_room, RoleStore, StoreError};
use crate::user::User;

verus! {

/// An action a principal may attempt in a room.
///
/// Five actions carry a target: role updates and deletions carry the role
/// being modified, and the user-moderation actions carry the user being
/// moderated (`None` when the target is anonymous). The targets feed the
/// escalation guard; every other action is resolved from the permission
/// fields alone.
#[derive(Debug)]
pub enum ActionType {
    ChangeTitle,
    ChangePath,
    ChangePublic,
    DeleteRoom,
    PasswordCreate,
    PasswordUpdate,
    PasswordDelete,
    EmoteCreate,
    EmoteUpdate,
    EmoteDelete,
    PingEveryone,
    RoleCreate,
    /// Resolved within the context of the target role's position.
    RoleUpdate(Role),
    /// Resolved within the context of the target role's position.
    RoleDelete(Role),
    RoleView,
    VideoAdd,
    VideoDelete,
    VideoMove,
    PlayerPause,
    PlayerResume,
    PlayerRewind,
    MessageCreate,
    MessageRead,
    MessageDelete,
    MessageHistory,
    /// Resolved within the context of the target user's position.
    UserKick(Option<User>),
    /// Resolved within the context of the target user's position.
    UserBan(Option<User>),
    UserUnban,
    /// Resolved within the context of the target user's position.
    UserTimeout(Option<User>),
}

impl Clone for ActionType {
    fn clone(&self) -> (res: ActionType)
        ensures
            res == *self,
    {
        match self {
            ActionType::ChangeTitle => ActionType::ChangeTitle,
            ActionType::ChangePath => ActionType::ChangePath,
            ActionType::ChangePublic => ActionType::ChangePublic,
            ActionType::DeleteRoom => ActionType::DeleteRoom,
            ActionType::PasswordCreate => ActionType::PasswordCreate,
            ActionType::PasswordUpdate => ActionType::PasswordUpdate,
            ActionType::PasswordDelete => ActionType::PasswordDelete,
            ActionType::EmoteCreate => ActionType::EmoteCreate,
            ActionType::EmoteUpdate => ActionType::EmoteUpdate,
            ActionType::EmoteDelete => ActionType::EmoteDelete,
            ActionType::PingEveryone => ActionType::PingEveryone,
            ActionType::RoleCreate => ActionType::RoleCreate,
            ActionType::RoleUpdate(target) => ActionType::RoleUpdate(target.clone()),
            ActionType::RoleDelete(target) => ActionType::RoleDelete(target.clone()),
            ActionType::RoleView => ActionType::RoleView,
            ActionType::VideoAdd => ActionType::VideoAdd,
            ActionType::VideoDelete => ActionType::VideoDelete,
            ActionType::VideoMove => ActionType::VideoMove,
            ActionType::PlayerPause => ActionType::PlayerPause,
            ActionType::PlayerResume => ActionType::PlayerResume,
            ActionType::PlayerRewind => ActionType::PlayerRewind,
            ActionType::MessageCreate => ActionType::MessageCreate,
            ActionType::MessageRead => ActionType::MessageRead,
            ActionType::MessageDelete => ActionType::MessageDelete,
            ActionType::MessageHistory => ActionType::MessageHistory,
            ActionType::UserKick(target) => ActionType::UserKick(clone_opt_user(target)),
            ActionType::UserBan(target) => ActionType::UserBan(clone_opt_user(target)),
            ActionType::UserUnban => ActionType::UserUnban,
            ActionType::UserTimeout(target) => ActionType::UserTimeout(clone_opt_user(target)),
        }
    }
}

/// Clone an optional user record, preserving the value exactly.
fn clone_opt_user(user: &Option<User>) -> (res: Option<User>)
    ensures
        res == *user,
{
    match user {
        Some(u) => Some(u.clone()),
        None => None,
    }
}

/// The permission field of `role` that governs `action` — the fixed,
/// exhaustive action-to-field table. For target-carrying actions this is the
/// field consulted once the escalation guard has passed.
pub open spec fn action_state(role: Role, action: ActionType) -> PermissionState {
    match action {
        ActionType::ChangeTitle => role.title_update,
        ActionType::ChangePath => role.path_update,
        ActionType::ChangePublic => role.public_update,
        ActionType::DeleteRoom => role.room_delete,
        ActionType::PasswordCreate => role.password_create,
        ActionType::PasswordUpdate => role.password_update,
        ActionType::PasswordDelete => role.password_delete,
        ActionType::EmoteCreate => role.emote_create,
        ActionType::EmoteUpdate => role.emote_update,
        ActionType::EmoteDelete => role.emote_delete,
        ActionType::PingEveryone => role.ping_everyone,
        ActionType::RoleCreate => role.role_create,
        ActionType::RoleUpdate(_) => role.role_update,
        ActionType::RoleDelete(_) => role.role_delete,
        ActionType::RoleView => role.role_view,
        ActionType::VideoAdd => role.video_create,
        ActionType::VideoDelete => role.video_delete,
        ActionType::VideoMove => role.video_move,
        ActionType::PlayerPause => role.player_pause,
        ActionType::PlayerResume => role.player_resume,
        ActionType::PlayerRewind => role.player_rewind,
        ActionType::MessageCreate => role.message_create,
        ActionType::MessageRead => role.message_read,
        ActionType::MessageDelete => role.message_delete,
        ActionType::MessageHistory => role.message_history_read,
        ActionType::UserKick(_) => role.user_kick,
        ActionType::UserBan(_) => role.user_ban,
        ActionType::UserUnban => role.user_unban,
        ActionType::UserTimeout(_) => role.user_timeout,
    }
}

/// The principal a moderated user stands for: `None` when the target user is
/// anonymous.
pub open spec fn user_principal(target: Option<User>) -> Option<i64> {
    match target {
        Some(user) => Some(user.id),
        None => None,
    }
}

/// For the user-moderation actions, the principal of the target user;
/// `None` for every other action.
pub open spec fn target_user_principal(action: ActionType) -> Option<Option<i64>> {
    match action {
        ActionType::UserKick(target) => Some(user_principal(target)),
        ActionType::UserBan(target) => Some(user_principal(target)),
        ActionType::UserTimeout(target) => Some(user_principal(target)),
        _ => None,
    }
}

/// For the role-lifecycle actions, the position of the role being modified;
/// `None` for every other action.
pub open spec fn target_role_position(action: ActionType) -> Option<i32> {
    match action {
        ActionType::RoleUpdate(target) => Some(target.position),
        ActionType::RoleDelete(target) => Some(target.position),
        _ => None,
    }
}

/// What one role of the chain contributes to the walk. With a guard position
/// present (a targeted action), a target that outranks or ties the role —
/// numerically lower or equal position — forces `Forbidden` before the
/// role's own field is consulted.
pub open spec fn effective_state(role: Role, action: ActionType, guard: Option<i32>) -> PermissionState {
    match guard {
        Some(target_position) => if target_position <= role.position {
            PermissionState::Forbidden
        } else {
            action_state(role, action)
        },
        None => action_state(role, action),
    }
}

/// The verdict of walking `chain` in order: the first non-`Unset` effective
/// state decides; an exhausted chain denies by default.
pub open spec fn chain_verdict(chain: Seq<Role>, action: ActionType, guard: Option<i32>) -> bool
    decreases chain.len(),
{
    if chain.len() == 0 {
        false
    } else {
        match effective_state(chain[0], action, guard) {
            PermissionState::Allowed => true,
            PermissionState::Forbidden => false,
            PermissionState::Unset => chain_verdict(chain.drop_first(), action, guard),
        }
    }
}

/// The full resolution of `(principal, room, action)` against a store:
/// the walk over the principal's applicable chain, with the guard position
/// taken from the target role or from the target user's highest role.
/// Fails exactly when the principal's chain — or, for a user-moderation
/// action, the target's chain — is empty.
pub open spec fn resolve(
    store: RoleStore,
    principal: Option<i64>,
    room_id: i64,
    action: ActionType,
) -> Result<bool, StoreError> {
    let chain = store.applicable_roles(principal, room_id);
    if chain.len() == 0 {
        Err(StoreError::MalformedRoomState)
    } else {
        match target_user_principal(action) {
            Some(target) => {
                let target_chain = store.applicable_roles(target, room_id);
                if target_chain.len() == 0 {
                    Err(StoreError::MalformedRoomState)
                } else {
                    Ok(chain_verdict(chain, action, Some(target_chain[0].position)))
                }
            },
            None => Ok(chain_verdict(chain, action, target_role_position(action))),
        }
    }
}

/// A pending permission check: the acting principal and the room it acts in.
pub struct AssertPermission {
    user: Option<User>,
    room: Room,
}

impl User {
    /// Resolve whether this user may perform `action_type` in `room`.
    pub fn is_allowed(&self, room: &Room, action_type: ActionType, store: &RoleStore) -> (r: Result<
        bool,
        StoreError,
    >)
        ensures
            r == resolve(*store, Some(self.id), room.id, action_type),
    {
        AssertPermission::new(Some(self), room).is_allowed(action_type, store)
    }

    /// Resolve whether an anonymous principal may perform `action_type` in
    /// `room`.
    pub fn is_anonymous_allowed(room: &Room, action_type: ActionType, store: &RoleStore) -> (r:
        Result<bool, StoreError>)
        ensures
            r == resolve(*store, None, room.id, action_type),
    {
        AssertPermission::new(None, room).is_allowed(action_type, store)
    }
}

impl AssertPermission {
    /// The acting principal's user id; `None` for an anonymous principal.
    pub closed spec fn spec_principal(self) -> Option<i64> {
        match self.user {
            Some(user) => Some(user.id),
            None => None,
        }
    }

    /// The room the check runs against.
    pub closed spec fn spec_room(self) -> Room {
        self.room
    }

    /// Bind a principal (or the anonymous case) and a room for a check.
    pub fn new(user: Option<&User>, room: &Room) -> (p: AssertPermission)
        ensures
            p.spec_principal() == (match user {
                Some(u) => Some(u.id),
                None => None::<i64>,
            }),
            p.spec_room() == *room,
    {
        AssertPermission {
            user: match user {
                Some(u) => Some(u.clone()),
                None => None,
            },
            room: room.clone(),
        }
    }

    /// Resolve the permission: walk the principal's applicable roles in
    /// priority order and return the first non-`Unset` verdict, forcing
    /// `Forbidden` wherever the action's target outranks or ties the role
    /// under consideration. An exhausted chain denies by default; an empty
    /// chain (malformed room) and a user-moderation target with an empty
    /// chain fail with [`StoreError::MalformedRoomState`].
    pub fn is_allowed(self, action_type: ActionType, store: &RoleStore) -> (r: Result<
        bool,
        StoreError,
    >)
        ensures
            r == resolve(*store, self.spec_principal(), self.spec_room().id, action_type),
    {
        let principal: Option<i64> = match &self.user {
            Some(u) => Some(u.id),
            None => None,
        };

        // The full ordered precedence chain of this principal in this room.
        let chain = list_user_roles_in_room(principal, self.room.id, store)?;

        // The guard position for targeted actions: the target role's own
        // position, or the position of the target user's highest role.
        let guard: Option<i32> = match &action_type {
            ActionType::RoleUpdate(target) => Some(target.position),
            ActionType::RoleDelete(target) => Some(target.position),
            ActionType::UserKick(target) => Some(
                Self::highest_target_position(target, self.room.id, store)?,
            ),
            ActionType::UserBan(target) => Some(
                Self::highest_target_position(target, self.room.id, store)?,
            ),
            ActionType::UserTimeout(target) => Some(
                Self::highest_target_position(target, self.room.id, store)?,
            ),
            _ => None,
        };

        proof {
            assert(resolve(*store, self.spec_principal(), self.spec_room().id, action_type) == Ok::<
                bool,
                StoreError,
            >(chain_verdict(chain@, action_type, guard)));
            assert(chain@.skip(0) =~= chain@);
        }

        // Walk the chain until a role yields a terminal verdict; Unset
        // falls through to the next role.
        let n = chain.len();
        let mut i: usize = 0;
        while i < n
            invariant
                n == chain@.len(),
                i <= n,
                resolve(*store, self.spec_principal(), self.spec_room().id, action_type) == Ok::<
                    bool,
                    StoreError,
                >(chain_verdict(chain@, action_type, guard)),
                chain_verdict(chain@, action_type, guard) == chain_verdict(
                    chain@.skip(i as int),
                    action_type,
                    guard,
                ),
            decreases n - i,
        {
            let state = effective_permission(&chain[i], &action_type, guard);
            proof {
                assert(chain@.skip(i as int)[0] == chain@[i as int]);
                assert(chain@.skip(i as int).drop_first() =~= chain@.skip(i as int + 1));
            }
            match state {
                PermissionState::Allowed => return Ok(true),
                PermissionState::Forbidden => return Ok(false),
                PermissionState::Unset => {
                    i += 1;
                },
            }
        }
        proof {
            assert(chain@.skip(n as int).len() == 0);
        }
        Ok(false)
    }

    /// The position of the target user's highest applicable role in the room.
    fn highest_target_position(target: &Option<User>, room_id: i64, store: &RoleStore) -> (r:
        Result<i32, StoreError>)
        ensures
            r matches Ok(p) ==> store.applicable_roles(user_principal(*target), room_id).len() > 0
                && p == store.applicable_roles(user_principal(*target), room_id)[0].position,
            r matches Err(e) ==> e == StoreError::MalformedRoomState && store.applicable_roles(
                user_principal(*target),
                room_id,
            ).len() == 0,
    {
        let target_id: Option<i64> = match target {
            Some(u) => Some(u.id),
            None => None,
        };
        let highest = get_highest_user_role(target_id, room_id, store)?;
        Ok(highest.position)
    }
}

/// The effective state one role contributes, given the guard position.
fn effective_permission(role: &Role, action: &ActionType, guard: Option<i32>) -> (s:
    PermissionState)
    ensures
        s == effective_state(*role, *action, guard),
{
    match guard {
        Some(target_position) => {
            if target_position <= role.position {
                PermissionState::Forbidden
            } else {
                permission_for(role, action)
            }
        },
        None => permission_for(role, action),
    }
}

/// The permission field of `role` that governs `action`.
#[verifier::rlimit(50)]
fn permission_for(role: &Role, action: &ActionType) -> (s: PermissionState)
    ensures
        s == action_state(*role, *action),
{
    match action {
        ActionType::ChangeTitle => role.title_update,
        ActionType::ChangePath => role.path_update,
        ActionType::ChangePublic => role.public_update,
        ActionType::DeleteRoom => role.room_delete,
        ActionType::PasswordCreate => role.password_create,
        ActionType::PasswordUpdate => role.password_update,
        ActionType::PasswordDelete => role.password_delete,
        ActionType::EmoteCreate => role.emote_create,
        ActionType::EmoteUpdate => role.emote_update,
        ActionType::EmoteDelete => role.emote_delete,
        ActionType::PingEveryone => role.ping_everyone,
        ActionType::RoleCreate => role.role_create,
        ActionType::RoleUpdate(_) => role.role_update,
        ActionType::RoleDelete(_) => role.role_delete,
        ActionType::RoleView => role.role_view,
        ActionType::VideoAdd => role.video_create,
        ActionType::VideoDelete => role.video_delete,
        ActionType::VideoMove => role.video_move,
        ActionType::PlayerPause => role.player_pause,
        ActionType::PlayerResume => role.player_resume,
        ActionType::PlayerRewind => role.player_rewind,
        ActionType::MessageCreate => role.message_create,
        ActionType::MessageRead => role.message_read,
        ActionType::MessageDelete => role.message_delete,
        ActionType::MessageHistory => role.message_history_read,
        ActionType::UserKick(_) => role.user_kick,
        ActionType::UserBan(_) => role.user_ban,
        ActionType::UserUnban => role.user_unban,
        ActionType::UserTimeout(_) => role.user_timeout,
    }
}

/// A well-formed room never fails to resolve: when every principal's
/// applicable chain is non-empty — which seeding the default roles
/// establishes, the Everyone fallback being generic and anonymous-eligible —
/// resolution returns a verdict for every principal and every action.
pub proof fn lemma_well_formed_room_always_resolves(
    store: RoleStore,
    principal: Option<i64>,
    room_id: i64,
    action: ActionType,
)
    requires
        forall|uid: i64| #[trigger] store.applicable_roles(Some(uid), room_id).len() > 0,
        store.applicable_roles(None, room_id).len() > 0,
    ensures
        resolve(store, principal, room_id, action) is Ok,
{
    match principal {
        Some(uid) => {
            assert(store.applicable_roles(Some(uid), room_id).len() > 0);
        },
        None => {},
    }
    match target_user_principal(action) {
        Some(target) => {
            match target {
                Some(uid) => {
                    assert(store.applicable_roles(Some(uid), room_id).len() > 0);
                },
                None => {},
            }
        },
        None => {},
    }
}

/// Inheritance fallthrough: a prefix of roles that all yield `Unset` for the
/// action never changes the verdict — the walk behaves as if it had started
/// after the prefix.
pub proof fn lemma_unset_prefix_falls_through(
    prefix: Seq<Role>,
    rest: Seq<Role>,
    action: ActionType,
    guard: Option<i32>,
)
    requires
        forall|i: int|
            0 <= i < prefix.len() ==> effective_state(#[trigger] prefix[i], action, guard)
                == PermissionState::Unset,
    ensures
        chain_verdict(prefix + rest, action, guard) == chain_verdict(rest, action, guard),
    decreases prefix.len(),
{
    if prefix.len() == 0 {
        assert(prefix + rest =~= rest);
    } else {
        assert((prefix + rest)[0] == prefix[0]);
        assert((prefix + rest).drop_first() =~= prefix.drop_first() + rest);
        assert forall|i: int|
            0 <= i < prefix.drop_first().len() implies effective_state(
            #[trigger] prefix.drop_first()[i],
            action,
            guard,
        ) == PermissionState::Unset by {
            assert(prefix.drop_first()[i] == prefix[i + 1]);
        }
        lemma_unset_prefix_falls_through(prefix.drop_first(), rest, action, guard);
    }
}

/// Precedence: the first role in the chain that yields a decided verdict
/// settles the resolution, whatever the roles after it would say.
pub proof fn lemma_first_decision_wins(
    chain: Seq<Role>,
    action: ActionType,
    guard: Option<i32>,
    k: int,
)
    requires
        0 <= k < chain.len(),
        forall|j: int|
            0 <= j < k ==> effective_state(#[trigger] chain[j], action, guard)
                == PermissionState::Unset,
        effective_state(chain[k], action, guard) != PermissionState::Unset,
    ensures
        chain_verdict(chain, action, guard) == (effective_state(chain[k], action, guard)
            == PermissionState::Allowed),
{
    assert(chain.take(k) + chain.skip(k) =~= chain);
    assert forall|j: int|
        0 <= j < chain.take(k).len() implies effective_state(
        #[trigger] chain.take(k)[j],
        action,
        guard,
    ) == PermissionState::Unset by {
        assert(chain.take(k)[j] == chain[j]);
    }
    lemma_unset_prefix_falls_through(chain.take(k), chain.skip(k), action, guard);
    assert(chain.skip(k)[0] == chain[k]);
}

/// The escalation guard: when the target's position outranks or ties every
/// role the actor holds, the walk denies no matter what the permission
/// fields say.
pub proof fn lemma_escalation_guard(chain: Seq<Role>, action: ActionType, target_position: i32)
    requires
        chain.len() > 0,
        forall|i: int|
            0 <= i < chain.len() ==> target_position <= (#[trigger] chain[i]).position,
    ensures
        !chain_verdict(chain, action, Some(target_position)),
{
    assert(effective_state(chain[0], action, Some(target_position))
        == PermissionState::Forbidden);
}

/// The complement of the guard: a target strictly below the actor's first
/// role leaves that role's own field in force, so an `Allowed` field grants
/// the action at once.
pub proof fn lemma_outranking_actor_consults_field(
    chain: Seq<Role>,
    action: ActionType,
    target_position: i32,
)
    requires
        chain.len() > 0,
        chain[0].position < target_position,
        action_state(chain[0], action) == PermissionState::Allowed,
    ensures
        chain_verdict(chain, action, Some(target_position)),
{
    assert(effective_state(chain[0], action, Some(target_position)) == PermissionState::Allowed);
}

} // verus!
