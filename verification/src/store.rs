//! The role store: an in-memory query surface for roles and role
//! assignments, keeping roles ordered by ascending `position`.
//!
//! The resolver depends on two ordered queries — generic room roles filtered
//! by anonymity, and the roles explicitly assigned to a user — and on their
//! combination [`list_user_roles_in_room`], which puts the user-specific
//! segment before the generic segment. Mutations assign fresh identities
//! from a counter and keep the position order as an invariant.

use vstd::prelude::*;
use vstd::string::StringExecFns;

use crate::role::{
    is_administator_role, is_anonymous_role, is_everyone_role, is_owner_role, is_stranger_role,
    role_matches_new, NewRole, NewUserRole, Role, UserRole,
};

verus! {

broadcast use vstd::seq_lib::group_filter_ensures;

/// Failure of a store query.
#[derive(Debug, Clone, Copy, PartialEq, Eq, Structural)]
pub enum StoreError {
    /// A room with zero applicable roles: it violates the invariant that a
    /// well-formed room always carries its total-fallback "Everyone" role.
    MalformedRoomState,
    /// No record carries the queried identity.
    NotFound,
}

/// Holds the roles of all rooms and the user-role assignments.
pub struct RoleStore {
    /// All roles, kept sorted by ascending `position`.
    roles: Vec<Role>,
    /// Explicit user-role assignments.
    assignments: Vec<UserRole>,
    /// The identity the next created role receives.
    next_role_id: i64,
    /// The identity the next created assignment receives.
    next_user_role_id: i64,
}

/// Roles appear in ascending `position` order (ties may stand in any order).
pub open spec fn sorted_by_position(s: Seq<Role>) -> bool {
    forall|i: int, j: int| 0 <= i < j < s.len() ==> s[i].position <= s[j].position
}

/// Selects the generic roles of `room_id` that apply to the requester:
/// anonymous principals only see anonymous-eligible roles.
pub open spec fn generic_pred(room_id: i64, is_anonymous: bool) -> spec_fn(Role) -> bool {
    |r: Role| r.room_id == room_id && r.is_generic && (is_anonymous ==> r.anonymous_eligible)
}

/// Selects the roles of `room_id` explicitly assigned to `user_id`.
pub open spec fn assigned_pred(store: RoleStore, user_id: i64, room_id: i64) -> spec_fn(
    Role,
) -> bool {
    |r: Role| r.room_id == room_id && store.spec_assigned(user_id, r.id)
}

/// Selects all roles of `room_id`.
pub open spec fn room_pred(room_id: i64) -> spec_fn(Role) -> bool {
    |r: Role| r.room_id == room_id
}

impl RoleStore {
    /// The stored roles, in position order.
    pub closed spec fn spec_roles(self) -> Seq<Role> {
        self.roles@
    }

    /// The stored assignments, in insertion order.
    pub closed spec fn spec_assignments(self) -> Seq<UserRole> {
        self.assignments@
    }

    /// The identity the next created role receives.
    pub closed spec fn spec_next_role_id(self) -> i64 {
        self.next_role_id
    }

    /// The identity the next created assignment receives.
    pub closed spec fn spec_next_user_role_id(self) -> i64 {
        self.next_user_role_id
    }

    /// Store invariant: roles are position-ordered and identities are unique
    /// and below the counter.
    pub open spec fn wf(self) -> bool {
        &&& sorted_by_position(self.spec_roles())
        &&& forall|i: int|
            0 <= i < self.spec_roles().len() ==> (#[trigger] self.spec_roles()[i]).id
                < self.spec_next_role_id()
        &&& forall|i: int, j: int|
            0 <= i < j < self.spec_roles().len() ==> self.spec_roles()[i].id
                != self.spec_roles()[j].id
    }

    /// Some assignment links `user_id` to `role_id`.
    pub open spec fn spec_assigned(self, user_id: i64, role_id: i64) -> bool {
        exists|k: int|
            0 <= k < self.spec_assignments().len() && (#[trigger] self.spec_assignments()[k]).user_id
                == user_id && self.spec_assignments()[k].role_id == role_id
    }

    /// Generic roles of the room applicable to the requester, position-ordered.
    pub open spec fn generic_roles(self, room_id: i64, is_anonymous: bool) -> Seq<Role> {
        self.spec_roles().filter(generic_pred(room_id, is_anonymous))
    }

    /// Roles of the room explicitly assigned to the user, position-ordered.
    pub open spec fn assigned_roles(self, user_id: i64, room_id: i64) -> Seq<Role> {
        self.spec_roles().filter(assigned_pred(self, user_id, room_id))
    }

    /// All roles of the room, position-ordered.
    pub open spec fn room_roles(self, room_id: i64) -> Seq<Role> {
        self.spec_roles().filter(room_pred(room_id))
    }

    /// The full precedence chain of a principal in a room: for an identified
    /// user the explicitly assigned roles come first, then the generic roles;
    /// an anonymous principal gets the anonymous-eligible generic roles only.
    pub open spec fn applicable_roles(self, user_id: Option<i64>, room_id: i64) -> Seq<Role> {
        match user_id {
            Some(uid) => self.assigned_roles(uid, room_id) + self.generic_roles(room_id, false),
            None => self.generic_roles(room_id, true),
        }
    }

    /// An empty store.
    pub fn new() -> (store: RoleStore)
        ensures
            store.wf(),
            store.spec_roles() == Seq::<Role>::empty(),
            store.spec_assignments() == Seq::<UserRole>::empty(),
            store.spec_next_role_id() == 1i64,
            store.spec_next_user_role_id() == 1i64,
    {
        RoleStore { roles: Vec::new(), assignments: Vec::new(), next_role_id: 1, next_user_role_id: 1 }
    }

    /// Whether some assignment links `user_id` to `role_id`.
    fn is_assigned(&self, user_id: i64, role_id: i64) -> (b: bool)
        ensures
            b == self.spec_assigned(user_id, role_id),
    {
        let n = self.assignments.len();
        for k in 0..n
            invariant
                n == self.spec_assignments().len(),
                forall|m: int|
                    0 <= m < k ==> !((#[trigger] self.spec_assignments()[m]).user_id == user_id
                        && self.spec_assignments()[m].role_id == role_id),
        {
            if self.assignments[k].user_id == user_id && self.assignments[k].role_id == role_id {
                return true;
            }
        }
        false
    }

    /// Seed the five default roles of a fresh room and assign Owner to its
    /// creator, as one in-memory step. Afterwards the room satisfies the
    /// Everyone-role invariant: every principal's applicable chain is
    /// non-empty and contains the total fallback.
    pub fn seed_default_roles(&mut self, room_id: i64, owner_user_id: i64, now: i64) -> (owner_role:
        Role)
        requires
            old(self).wf(),
            old(self).spec_next_role_id() + 5 <= i64::MAX,
            old(self).spec_next_user_role_id() < i64::MAX,
        ensures
            final(self).wf(),
            is_owner_role(owner_role, room_id),
            final(self).spec_assigned(owner_user_id, owner_role.id),
            exists|k: int|
                0 <= k < final(self).generic_roles(room_id, true).len() && is_everyone_role(
                    #[trigger] final(self).generic_roles(room_id, true)[k],
                    room_id,
                ),
            exists|k: int|
                0 <= k < final(self).generic_roles(room_id, false).len() && is_everyone_role(
                    #[trigger] final(self).generic_roles(room_id, false)[k],
                    room_id,
                ),
            final(self).applicable_roles(None, room_id).len() > 0,
            forall|uid: i64| #[trigger] final(self).applicable_roles(Some(uid), room_id).len() > 0,
            final(self).spec_roles().contains(owner_role),
            exists|k: int|
                0 <= k < final(self).spec_roles().len() && is_administator_role(
                    #[trigger] final(self).spec_roles()[k],
                    room_id,
                ),
            exists|k: int|
                0 <= k < final(self).spec_roles().len() && is_stranger_role(
                    #[trigger] final(self).spec_roles()[k],
                    room_id,
                ),
            exists|k: int|
                0 <= k < final(self).spec_roles().len() && is_anonymous_role(
                    #[trigger] final(self).spec_roles()[k],
                    room_id,
                ),
            exists|k: int|
                0 <= k < final(self).spec_roles().len() && is_everyone_role(
                    #[trigger] final(self).spec_roles()[k],
                    room_id,
                ),
            final(self).spec_next_role_id() == old(self).spec_next_role_id() + 5,
            final(self).spec_next_user_role_id() == old(self).spec_next_user_role_id() + 1,
            final(self).spec_assignments() == old(self).spec_assignments().push(
                UserRole {
                    id: old(self).spec_next_user_role_id(),
                    role_id: owner_role.id,
                    user_id: owner_user_id,
                    created_at: now,
                },
            ),
    {
        let everyone_role = NewRole::everyone(room_id).create(self, now);
        let ghost s1 = self.spec_roles();
        let anonymous_role = NewRole::anonymous(room_id).create(self, now);
        let ghost s2 = self.spec_roles();
        let stranger_role = NewRole::stranger(room_id).create(self, now);
        let ghost s3 = self.spec_roles();
        let administator_role = NewRole::administator(room_id).create(self, now);
        let ghost s4 = self.spec_roles();
        let owner_role = NewRole::owner(room_id).create(self, now);
        let ghost s5 = self.spec_roles();
        let _assignment = NewUserRole { role_id: owner_role.id, user_id: owner_user_id }.create(
            self,
            now,
        );
        proof {
            lemma_insert_step_preserves_contains(s1, s2, everyone_role);
            lemma_insert_step_preserves_contains(s2, s3, everyone_role);
            lemma_insert_step_preserves_contains(s3, s4, everyone_role);
            lemma_insert_step_preserves_contains(s4, s5, everyone_role);
            lemma_insert_step_preserves_contains(s2, s3, anonymous_role);
            lemma_insert_step_preserves_contains(s3, s4, anonymous_role);
            lemma_insert_step_preserves_contains(s4, s5, anonymous_role);
            lemma_insert_step_preserves_contains(s3, s4, stranger_role);
            lemma_insert_step_preserves_contains(s4, s5, stranger_role);
            lemma_insert_step_preserves_contains(s4, s5, administator_role);
            let ka = choose|k: int| 0 <= k < s5.len() && s5[k] == administator_role;
            assert(is_administator_role(final(self).spec_roles()[ka], room_id));
            let ks = choose|k: int| 0 <= k < s5.len() && s5[k] == stranger_role;
            assert(is_stranger_role(final(self).spec_roles()[ks], room_id));
            let kn = choose|k: int| 0 <= k < s5.len() && s5[k] == anonymous_role;
            assert(is_anonymous_role(final(self).spec_roles()[kn], room_id));
            let ke = choose|k: int| 0 <= k < s5.len() && s5[k] == everyone_role;
            assert(is_everyone_role(final(self).spec_roles()[ke], room_id));
            assert(generic_pred(room_id, true)(s5[ke]));
            assert(generic_pred(room_id, false)(s5[ke]));
            assert(final(self).generic_roles(room_id, true).contains(everyone_role));
            assert(final(self).generic_roles(room_id, false).contains(everyone_role));
            assert forall|uid: i64| #[trigger]
                final(self).applicable_roles(Some(uid), room_id).len() > 0 by {
                assert(final(self).applicable_roles(Some(uid), room_id).len()
                    == final(self).assigned_roles(uid, room_id).len() + final(self).generic_roles(
                    room_id,
                    false,
                ).len());
            }
        }
        owner_role
    }
}

/// From one creation step to the next the stored roles only gain an element,
/// so membership is preserved.
proof fn lemma_insert_step_preserves_contains(pre: Seq<Role>, post: Seq<Role>, y: Role)
    requires
        pre.contains(y),
        exists|idx: int, x: Role| 0 <= idx <= pre.len() && post == pre.insert(idx, x),
    ensures
        post.contains(y),
{
    let (idx, x) = choose|idx: int, x: Role| 0 <= idx <= pre.len() && post == pre.insert(idx, x);
    let i = choose|i: int| 0 <= i < pre.len() && pre[i] == y;
    if i < idx {
        assert(post[i] == y);
    } else {
        assert(post[i + 1] == y);
    }
}

/// `push` commutes with `filter`: the pushed element stays exactly when the
/// predicate holds of it.
proof fn lemma_filter_push<A>(s: Seq<A>, x: A, pred: spec_fn(A) -> bool)
    ensures
        s.push(x).filter(pred) == if pred(x) {
            s.filter(pred).push(x)
        } else {
            s.filter(pred)
        },
{
    reveal(Seq::filter);
    assert(s.push(x).drop_last() =~= s);
    assert(s.push(x).last() == x);
}

/// Every element of a filtered sequence occurs in the original sequence.
proof fn lemma_filter_subset<A>(s: Seq<A>, pred: spec_fn(A) -> bool)
    ensures
        forall|i: int| 0 <= i < s.filter(pred).len() ==> s.contains(#[trigger] s.filter(pred)[i]),
    decreases s.len(),
{
    reveal(Seq::filter);
    if s.len() != 0 {
        let rest = s.drop_last();
        lemma_filter_subset(rest, pred);
        assert forall|i: int| 0 <= i < s.filter(pred).len() implies s.contains(
            #[trigger] s.filter(pred)[i],
        ) by {
            if i < rest.filter(pred).len() {
                let j = choose|j: int| 0 <= j < rest.len() && rest[j] == rest.filter(pred)[i];
                assert(s[j] == s.filter(pred)[i]);
            } else {
                assert(s.filter(pred)[i] == s.last());
                assert(s[s.len() - 1] == s.last());
            }
        }
    }
}

/// Filtering preserves the position order.
proof fn lemma_filter_preserves_sorted(s: Seq<Role>, pred: spec_fn(Role) -> bool)
    requires
        sorted_by_position(s),
    ensures
        sorted_by_position(s.filter(pred)),
    decreases s.len(),
{
    reveal(Seq::filter);
    if s.len() != 0 {
        let rest = s.drop_last();
        assert(sorted_by_position(rest)) by {
            assert forall|i: int, j: int|
                0 <= i < j < rest.len() implies rest[i].position <= rest[j].position by {
                assert(rest[i] == s[i] && rest[j] == s[j]);
            }
        }
        lemma_filter_preserves_sorted(rest, pred);
        lemma_filter_subset(rest, pred);
        if pred(s.last()) {
            let out = s.filter(pred);
            assert(out == rest.filter(pred).push(s.last()));
            assert forall|i: int, j: int|
                0 <= i < j < out.len() implies out[i].position <= out[j].position by {
                if j < out.len() - 1 {
                    assert(out[i] == rest.filter(pred)[i] && out[j] == rest.filter(pred)[j]);
                } else {
                    assert(out[j] == s.last());
                    let k = choose|k: int|
                        0 <= k < rest.len() && rest[k] == rest.filter(pred)[i];
                    assert(out[i] == s[k]);
                    assert(s[k].position <= s[s.len() - 1].position);
                }
            }
        }
    }
}

impl Role {
    /// The generic roles of a room that apply to the requester, in ascending
    /// position order; an anonymous requester only sees anonymous-eligible
    /// roles.
    pub fn list_generic_room_roles(room_id: i64, is_anonymous: bool, store: &RoleStore) -> (r: Vec<
        Role,
    >)
        ensures
            r@ == store.generic_roles(room_id, is_anonymous),
    {
        let mut out: Vec<Role> = Vec::new();
        let n = store.roles.len();
        for i in 0..n
            invariant
                n == store.spec_roles().len(),
                out@ == store.spec_roles().take(i as int).filter(
                    generic_pred(room_id, is_anonymous),
                ),
        {
            proof {
                assert(store.spec_roles().take(i + 1) =~= store.spec_roles().take(i as int).push(
                    store.spec_roles()[i as int],
                ));
                lemma_filter_push(
                    store.spec_roles().take(i as int),
                    store.spec_roles()[i as int],
                    generic_pred(room_id, is_anonymous),
                );
            }
            let role = &store.roles[i];
            if role.room_id == room_id && role.is_generic && (!is_anonymous
                || role.anonymous_eligible) {
                out.push(role.clone());
            }
        }
        proof {
            assert(store.spec_roles().take(n as int) =~= store.spec_roles());
        }
        out
    }

    /// The roles of a room explicitly assigned to a user, in ascending
    /// position order.
    pub fn list_user_roles_by_room_id(user_id: i64, room_id: i64, store: &RoleStore) -> (r: Vec<
        Role,
    >)
        ensures
            r@ == store.assigned_roles(user_id, room_id),
    {
        let mut out: Vec<Role> = Vec::new();
        let n = store.roles.len();
        for i in 0..n
            invariant
                n == store.spec_roles().len(),
                out@ == store.spec_roles().take(i as int).filter(
                    assigned_pred(*store, user_id, room_id),
                ),
        {
            proof {
                assert(store.spec_roles().take(i + 1) =~= store.spec_roles().take(i as int).push(
                    store.spec_roles()[i as int],
                ));
                lemma_filter_push(
                    store.spec_roles().take(i as int),
                    store.spec_roles()[i as int],
                    assigned_pred(*store, user_id, room_id),
                );
            }
            let role = &store.roles[i];
            if role.room_id == room_id && store.is_assigned(user_id, role.id) {
                out.push(role.clone());
            }
        }
        proof {
            assert(store.spec_roles().take(n as int) =~= store.spec_roles());
        }
        out
    }

    /// The role carrying the given identity, or `NotFound`.
    pub fn by_id(role_id: i64, store: &RoleStore) -> (r: Result<Role, StoreError>)
        ensures
            r matches Ok(role) ==> store.spec_roles().contains(role) && role.id == role_id,
            r matches Err(e) ==> e == StoreError::NotFound && (forall|i: int|
                0 <= i < store.spec_roles().len() ==> (#[trigger] store.spec_roles()[i]).id
                    != role_id),
    {
        let n = store.roles.len();
        for i in 0..n
            invariant
                n == store.spec_roles().len(),
                forall|k: int|
                    0 <= k < i ==> (#[trigger] store.spec_roles()[k]).id != role_id,
        {
            if store.roles[i].id == role_id {
                proof {
                    assert(store.spec_roles().contains(store.spec_roles()[i as int]));
                }
                return Ok(store.roles[i].clone());
            }
        }
        Err(StoreError::NotFound)
    }

    /// All roles of a room, in ascending position order.
    pub fn list_by_room_id(room_id: i64, store: &RoleStore) -> (r: Vec<Role>)
        ensures
            r@ == store.room_roles(room_id),
    {
        let mut out: Vec<Role> = Vec::new();
        let n = store.roles.len();
        for i in 0..n
            invariant
                n == store.spec_roles().len(),
                out@ == store.spec_roles().take(i as int).filter(room_pred(room_id)),
        {
            proof {
                assert(store.spec_roles().take(i + 1) =~= store.spec_roles().take(i as int).push(
                    store.spec_roles()[i as int],
                ));
                lemma_filter_push(
                    store.spec_roles().take(i as int),
                    store.spec_roles()[i as int],
                    room_pred(room_id),
                );
            }
            let role = &store.roles[i];
            if role.room_id == room_id {
                out.push(role.clone());
            }
        }
        proof {
            assert(store.spec_roles().take(n as int) =~= store.spec_roles());
        }
        out
    }
}

impl<'a> NewRole<'a> {
    /// Store the role. The store assigns it the next free identity, stamps it
    /// with `now`, and inserts it at its position-ordered place.
    #[verifier::rlimit(50)]
    pub fn create(&self, store: &mut RoleStore, now: i64) -> (role: Role)
        requires
            old(store).wf(),
            old(store).spec_next_role_id() < i64::MAX,
        ensures
            final(store).wf(),
            role_matches_new(role, *self, old(store).spec_next_role_id(), now),
            exists|idx: int|
                0 <= idx <= old(store).spec_roles().len() && final(store).spec_roles() == old(
                    store,
                ).spec_roles().insert(idx, role),
            final(store).spec_roles().contains(role),
            final(store).spec_assignments() == old(store).spec_assignments(),
            final(store).spec_next_role_id() == old(store).spec_next_role_id() + 1,
            final(store).spec_next_user_role_id() == old(store).spec_next_user_role_id(),
    {
        let role = Role {
            id: store.next_role_id,
            room_id: self.room_id,
            name: String::from_str(self.name),
            color: match self.color {
                Some(c) => Some(String::from_str(c)),
                None => None,
            },
            is_default: self.is_default,
            is_generic: self.is_generic,
            anonymous_eligible: self.anonymous_eligible,
            position: self.position,
            title_update: self.title_update,
            path_update: self.path_update,
            public_update: self.public_update,
            room_delete: self.room_delete,
            room_view: self.room_view,
            audit_log_read: self.audit_log_read,
            embed_links: self.embed_links,
            ping_everyone: self.ping_everyone,
            password_create: self.password_create,
            password_update: self.password_update,
            password_delete: self.password_delete,
            password_bypass: self.password_bypass,
            emote_create: self.emote_create,
            emote_update: self.emote_update,
            emote_delete: self.emote_delete,
            emote_view: self.emote_view,
            role_create: self.role_create,
            role_delete: self.role_delete,
            role_update: self.role_update,
            role_view: self.role_view,
            video_create: self.video_create,
            video_delete: self.video_delete,
            video_watch: self.video_watch,
            video_move: self.video_move,
            video_iframe: self.video_iframe,
            video_raw: self.video_raw,
            player_pause: self.player_pause,
            player_resume: self.player_resume,
            player_rewind: self.player_rewind,
            subtitles_file: self.subtitles_file,
            subtitles_embed: self.subtitles_embed,
            message_create: self.message_create,
            message_read: self.message_read,
            message_delete: self.message_delete,
            message_history_read: self.message_history_read,
            message_timeout: self.message_timeout,
            user_kick: self.user_kick,
            user_ban: self.user_ban,
            user_unban: self.user_unban,
            user_timeout: self.user_timeout,
            created_at: now,
        };

        let ghost pre = store.spec_roles();
        let mut idx: usize = 0;
        while idx < store.roles.len() && store.roles[idx].position <= role.position
            invariant
                *store == *old(store),
                idx <= store.spec_roles().len(),
                forall|k: int|
                    0 <= k < idx ==> (#[trigger] store.spec_roles()[k]).position <= role.position,
            decreases store.spec_roles().len() - idx,
        {
            idx += 1;
        }

        let returned = role.clone();
        store.roles.insert(idx, role);
        store.next_role_id = store.next_role_id + 1;

        proof {
            lemma_insert_keeps_wf(pre, idx as int, returned, store.spec_next_role_id());
            let post = store.spec_roles();
            assert(post == pre.insert(idx as int, returned));
            assert(post[idx as int] == returned);
            assert(post.contains(returned));
        }
        returned
    }
}

/// Where each element of `s.insert(idx, x)` comes from.
proof fn lemma_insert_index(s: Seq<Role>, idx: int, x: Role, a: int)
    requires
        0 <= idx <= s.len(),
        0 <= a < s.len() + 1,
    ensures
        a < idx ==> s.insert(idx, x)[a] == s[a],
        a == idx ==> s.insert(idx, x)[a] == x,
        a > idx ==> s.insert(idx, x)[a] == s[a - 1],
{
}

/// Inserting `x` at its position-ordered place, with an identity unused by
/// the other roles and below `next`, preserves the store invariant on the
/// role sequence.
proof fn lemma_insert_keeps_wf(pre: Seq<Role>, idx: int, x: Role, next: i64)
    requires
        sorted_by_position(pre),
        0 <= idx <= pre.len(),
        forall|k: int| 0 <= k < idx ==> (#[trigger] pre[k]).position <= x.position,
        idx < pre.len() ==> pre[idx].position > x.position,
        forall|i: int| 0 <= i < pre.len() ==> (#[trigger] pre[i]).id != x.id,
        forall|i: int| 0 <= i < pre.len() ==> (#[trigger] pre[i]).id < next,
        forall|i: int, j: int| 0 <= i < j < pre.len() ==> pre[i].id != pre[j].id,
        x.id < next,
    ensures
        sorted_by_position(pre.insert(idx, x)),
        forall|i: int|
            0 <= i < pre.insert(idx, x).len() ==> (#[trigger] pre.insert(idx, x)[i]).id < next,
        forall|i: int, j: int|
            0 <= i < j < pre.insert(idx, x).len() ==> pre.insert(idx, x)[i].id != pre.insert(
                idx,
                x,
            )[j].id,
{
    let post = pre.insert(idx, x);
    assert forall|a: int, b: int|
        0 <= a < b < post.len() implies post[a].position <= post[b].position by {
        lemma_insert_index(pre, idx, x, a);
        lemma_insert_index(pre, idx, x, b);
        if a < idx && b > idx {
            if a < b - 1 {
                assert(pre[a].position <= pre[b - 1].position);
            }
        } else if a == idx && b > idx {
            assert(pre[idx].position <= pre[b - 1].position);
        } else if a > idx {
            if a - 1 < b - 1 {
                assert(pre[a - 1].position <= pre[b - 1].position);
            }
        }
    }
    assert forall|a: int| 0 <= a < post.len() implies (#[trigger] post[a]).id < next by {
        lemma_insert_index(pre, idx, x, a);
    }
    assert forall|a: int, b: int| 0 <= a < b < post.len() implies post[a].id != post[b].id by {
        lemma_insert_index(pre, idx, x, a);
        lemma_insert_index(pre, idx, x, b);
    }
}

/// Where each element of `s.remove(idx)` comes from.
proof fn lemma_remove_index(s: Seq<Role>, idx: int, a: int)
    requires
        0 <= idx < s.len(),
        0 <= a < s.len() - 1,
    ensures
        a < idx ==> s.remove(idx)[a] == s[a],
        a >= idx ==> s.remove(idx)[a] == s[a + 1],
{
}

/// Removing one role preserves the store invariant on the role sequence.
proof fn lemma_remove_keeps_wf(pre: Seq<Role>, idx: int, next: i64)
    requires
        sorted_by_position(pre),
        0 <= idx < pre.len(),
        forall|i: int| 0 <= i < pre.len() ==> (#[trigger] pre[i]).id < next,
        forall|i: int, j: int| 0 <= i < j < pre.len() ==> pre[i].id != pre[j].id,
    ensures
        sorted_by_position(pre.remove(idx)),
        forall|i: int| 0 <= i < pre.remove(idx).len() ==> (#[trigger] pre.remove(idx)[i]).id < next,
        forall|i: int, j: int|
            0 <= i < j < pre.remove(idx).len() ==> pre.remove(idx)[i].id != pre.remove(idx)[j].id,
        forall|i: int|
            0 <= i < pre.remove(idx).len() ==> (#[trigger] pre.remove(idx)[i]).id != pre[idx].id,
{
    let post = pre.remove(idx);
    assert forall|a: int, b: int|
        0 <= a < b < post.len() implies post[a].position <= post[b].position by {
        lemma_remove_index(pre, idx, a);
        lemma_remove_index(pre, idx, b);
    }
    assert forall|a: int| 0 <= a < post.len() implies (#[trigger] post[a]).id < next by {
        lemma_remove_index(pre, idx, a);
    }
    assert forall|a: int, b: int| 0 <= a < b < post.len() implies post[a].id != post[b].id by {
        lemma_remove_index(pre, idx, a);
        lemma_remove_index(pre, idx, b);
    }
    assert forall|a: int| 0 <= a < post.len() implies (#[trigger] post[a]).id != pre[idx].id by {
        lemma_remove_index(pre, idx, a);
    }
}

/// Selects the assignments that survive deleting the role `role_id`.
pub open spec fn keeps_assignment(role_id: i64) -> spec_fn(UserRole) -> bool {
    |a: UserRole| a.role_id != role_id
}

impl RoleStore {
    /// The index of the role carrying `role_id`, if any. Identities are
    /// unique in a well-formed store, so the index pins the role.
    fn find_role_index(&self, role_id: i64) -> (r: Option<usize>)
        ensures
            r matches Some(i) ==> i < self.spec_roles().len() && self.spec_roles()[i as int].id
                == role_id,
            r is None ==> forall|i: int|
                0 <= i < self.spec_roles().len() ==> (#[trigger] self.spec_roles()[i]).id
                    != role_id,
    {
        let n = self.roles.len();
        for i in 0..n
            invariant
                n == self.spec_roles().len(),
                forall|k: int| 0 <= k < i ==> (#[trigger] self.spec_roles()[k]).id != role_id,
        {
            if self.roles[i].id == role_id {
                return Some(i);
            }
        }
        None
    }

    /// Drop every assignment of the role `role_id` (the cascade of a role
    /// deletion).
    fn cascade_assignments(&mut self, role_id: i64)
        ensures
            final(self).spec_assignments() == old(self).spec_assignments().filter(
                keeps_assignment(role_id),
            ),
            final(self).spec_roles() == old(self).spec_roles(),
            final(self).spec_next_role_id() == old(self).spec_next_role_id(),
            final(self).spec_next_user_role_id() == old(self).spec_next_user_role_id(),
    {
        let mut kept: Vec<UserRole> = Vec::new();
        let n = self.assignments.len();
        for i in 0..n
            invariant
                n == self.spec_assignments().len(),
                kept@ == self.spec_assignments().take(i as int).filter(keeps_assignment(role_id)),
        {
            proof {
                assert(self.spec_assignments().take(i + 1) =~= self.spec_assignments().take(
                    i as int,
                ).push(self.spec_assignments()[i as int]));
                lemma_filter_push(
                    self.spec_assignments().take(i as int),
                    self.spec_assignments()[i as int],
                    keeps_assignment(role_id),
                );
            }
            let assignment = self.assignments[i];
            if assignment.role_id != role_id {
                kept.push(assignment);
            }
        }
        proof {
            assert(self.spec_assignments().take(n as int) =~= self.spec_assignments());
        }
        self.assignments = kept;
    }
}

impl Role {
    /// Delete this role from the store, cascading its assignments; reports
    /// how many roles were deleted (one, or zero when the identity is
    /// unknown, in which case the store is untouched).
    pub fn delete(&self, store: &mut RoleStore) -> (count: usize)
        requires
            old(store).wf(),
        ensures
            final(store).wf(),
            final(store).spec_next_role_id() == old(store).spec_next_role_id(),
            final(store).spec_next_user_role_id() == old(store).spec_next_user_role_id(),
            count == 1 ==> (exists|idx: int|
                0 <= idx < old(store).spec_roles().len() && old(store).spec_roles()[idx].id
                    == self.id && final(store).spec_roles() == old(store).spec_roles().remove(idx))
                && final(store).spec_assignments() == old(store).spec_assignments().filter(
                keeps_assignment(self.id),
            ),
            count == 0 ==> *final(store) == *old(store) && (forall|i: int|
                0 <= i < old(store).spec_roles().len() ==> (#[trigger] old(
                    store,
                ).spec_roles()[i]).id != self.id),
            count <= 1,
    {
        match store.find_role_index(self.id) {
            None => 0,
            Some(idx) => {
                let ghost pre = store.spec_roles();
                store.roles.remove(idx);
                proof {
                    lemma_remove_keeps_wf(pre, idx as int, store.spec_next_role_id());
                }
                store.cascade_assignments(self.id);
                1
            },
        }
    }

    /// Replace the stored role carrying this role's identity with this
    /// role's fields, re-inserting it at its position-ordered place; fails
    /// with `NotFound` when the identity is unknown, leaving the store
    /// untouched.
    pub fn update(&self, store: &mut RoleStore) -> (r: Result<Role, StoreError>)
        requires
            old(store).wf(),
        ensures
            final(store).wf(),
            final(store).spec_next_role_id() == old(store).spec_next_role_id(),
            final(store).spec_next_user_role_id() == old(store).spec_next_user_role_id(),
            final(store).spec_assignments() == old(store).spec_assignments(),
            r matches Ok(role) ==> role == *self && (exists|idx: int, at: int|
                0 <= idx < old(store).spec_roles().len() && old(store).spec_roles()[idx].id
                    == self.id && 0 <= at <= old(store).spec_roles().len() - 1
                    && final(store).spec_roles() == old(store).spec_roles().remove(idx).insert(
                    at,
                    *self,
                )),
            r matches Err(e) ==> e == StoreError::NotFound && *final(store) == *old(store) && (
            forall|i: int|
                0 <= i < old(store).spec_roles().len() ==> (#[trigger] old(
                    store,
                ).spec_roles()[i]).id != self.id),
    {
        let idx = match store.find_role_index(self.id) {
            None => {
                return Err(StoreError::NotFound);
            },
            Some(i) => i,
        };
        let ghost pre = store.spec_roles();
        store.roles.remove(idx);
        proof {
            lemma_remove_keeps_wf(pre, idx as int, store.spec_next_role_id());
        }
        let ghost mid = store.spec_roles();

        let updated = self.clone();
        let mut at: usize = 0;
        while at < store.roles.len() && store.roles[at].position <= updated.position
            invariant
                store.spec_roles() == mid,
                store.spec_assignments() == old(store).spec_assignments(),
                store.spec_next_role_id() == old(store).spec_next_role_id(),
                store.spec_next_user_role_id() == old(store).spec_next_user_role_id(),
                at <= store.spec_roles().len(),
                forall|k: int|
                    0 <= k < at ==> (#[trigger] store.spec_roles()[k]).position
                        <= updated.position,
            decreases store.spec_roles().len() - at,
        {
            at += 1;
        }
        proof {
            lemma_insert_keeps_wf(mid, at as int, updated, store.spec_next_role_id());
        }
        store.roles.insert(at, updated);
        Ok(self.clone())
    }
}

impl UserRole {
    /// The assignment carrying the given identity, or `NotFound`.
    pub fn by_id(user_role_id: i64, store: &RoleStore) -> (r: Result<UserRole, StoreError>)
        ensures
            r matches Ok(assignment) ==> store.spec_assignments().contains(assignment)
                && assignment.id == user_role_id,
            r matches Err(e) ==> e == StoreError::NotFound && (forall|i: int|
                0 <= i < store.spec_assignments().len() ==> (#[trigger] store.spec_assignments()[i]).id
                    != user_role_id),
    {
        let n = store.assignments.len();
        for i in 0..n
            invariant
                n == store.spec_assignments().len(),
                forall|k: int|
                    0 <= k < i ==> (#[trigger] store.spec_assignments()[k]).id != user_role_id,
        {
            if store.assignments[i].id == user_role_id {
                proof {
                    assert(store.spec_assignments().contains(store.spec_assignments()[i as int]));
                }
                return Ok(store.assignments[i]);
            }
        }
        Err(StoreError::NotFound)
    }

    /// Replace the stored assignment carrying this assignment's identity
    /// with this assignment's fields; fails with `NotFound` when the
    /// identity is unknown, leaving the store untouched.
    pub fn update(&self, store: &mut RoleStore) -> (r: Result<UserRole, StoreError>)
        requires
            old(store).wf(),
        ensures
            final(store).wf(),
            final(store).spec_roles() == old(store).spec_roles(),
            final(store).spec_next_role_id() == old(store).spec_next_role_id(),
            final(store).spec_next_user_role_id() == old(store).spec_next_user_role_id(),
            r matches Ok(assignment) ==> assignment == *self && (exists|i: int|
                0 <= i < old(store).spec_assignments().len() && old(
                    store,
                ).spec_assignments()[i].id == self.id && final(store).spec_assignments() == old(
                    store,
                ).spec_assignments().update(i, *self)),
            r matches Err(e) ==> e == StoreError::NotFound && *final(store) == *old(store) && (
            forall|i: int|
                0 <= i < old(store).spec_assignments().len() ==> (#[trigger] old(
                    store,
                ).spec_assignments()[i]).id != self.id),
    {
        let n = store.assignments.len();
        for i in 0..n
            invariant
                old(store).wf(),
                n == store.spec_assignments().len(),
                *store == *old(store),
                forall|k: int|
                    0 <= k < i ==> (#[trigger] store.spec_assignments()[k]).id != self.id,
        {
            if store.assignments[i].id == self.id {
                store.assignments[i] = *self;
                return Ok(*self);
            }
        }
        Err(StoreError::NotFound)
    }

    /// Delete this assignment from the store; reports how many assignments
    /// were deleted (one, or zero when the identity is unknown).
    pub fn delete(&self, store: &mut RoleStore) -> (count: usize)
        requires
            old(store).wf(),
        ensures
            final(store).wf(),
            final(store).spec_roles() == old(store).spec_roles(),
            final(store).spec_next_role_id() == old(store).spec_next_role_id(),
            final(store).spec_next_user_role_id() == old(store).spec_next_user_role_id(),
            count == 1 ==> (exists|idx: int|
                0 <= idx < old(store).spec_assignments().len() && old(
                    store,
                ).spec_assignments()[idx].id == self.id && final(store).spec_assignments() == old(
                    store,
                ).spec_assignments().remove(idx)),
            count == 0 ==> *final(store) == *old(store) && (forall|i: int|
                0 <= i < old(store).spec_assignments().len() ==> (#[trigger] old(
                    store,
                ).spec_assignments()[i]).id != self.id),
            count <= 1,
    {
        let n = store.assignments.len();
        for i in 0..n
            invariant
                old(store).wf(),
                n == store.spec_assignments().len(),
                *store == *old(store),
                forall|k: int|
                    0 <= k < i ==> (#[trigger] store.spec_assignments()[k]).id != self.id,
        {
            if store.assignments[i].id == self.id {
                store.assignments.remove(i);
                return 1;
            }
        }
        0
    }
}

/// Whether a store failure reports a missing record rather than a malformed
/// room.
pub fn is_not_found_error(err: &StoreError) -> (r: bool)
    ensures
        r == (err is NotFound),
{
    match err {
        StoreError::NotFound => true,
        StoreError::MalformedRoomState => false,
    }
}

impl NewUserRole {
    /// Store the assignment. The store assigns it the next free identity and
    /// stamps it with `now`.
    pub fn create(&self, store: &mut RoleStore, now: i64) -> (assignment: UserRole)
        requires
            old(store).wf(),
            old(store).spec_next_user_role_id() < i64::MAX,
        ensures
            final(store).wf(),
            assignment == (UserRole {
                id: old(store).spec_next_user_role_id(),
                role_id: self.role_id,
                user_id: self.user_id,
                created_at: now,
            }),
            final(store).spec_assignments() == old(store).spec_assignments().push(assignment),
            final(store).spec_roles() == old(store).spec_roles(),
            final(store).spec_next_role_id() == old(store).spec_next_role_id(),
            final(store).spec_next_user_role_id() == old(store).spec_next_user_role_id() + 1,
            final(store).spec_assigned(self.user_id, self.role_id),
    {
        let assignment = UserRole {
            id: store.next_user_role_id,
            role_id: self.role_id,
            user_id: self.user_id,
            created_at: now,
        };
        store.assignments.push(assignment);
        store.next_user_role_id = store.next_user_role_id + 1;
        proof {
            let n = store.spec_assignments().len() - 1;
            assert(store.spec_assignments()[n] == assignment);
        }
        assignment
    }
}

/// The full, position-ordered precedence chain of a principal in a room:
/// explicitly assigned roles first (for an identified user), generic roles
/// after; anonymous principals get the anonymous-eligible generic roles.
///
/// Fails with [`StoreError::MalformedRoomState`] exactly when the chain is
/// empty — a well-formed room always carries its "Everyone" role, so an empty
/// chain signals a malformed room rather than an ordinary denial.
pub fn list_user_roles_in_room(user_id: Option<i64>, room_id: i64, store: &RoleStore) -> (r: Result<
    Vec<Role>,
    StoreError,
>)
    ensures
        r matches Ok(v) ==> v@ == store.applicable_roles(user_id, room_id) && v@.len() > 0,
        r matches Err(e) ==> e == StoreError::MalformedRoomState && store.applicable_roles(
            user_id,
            room_id,
        ).len() == 0,
{
    let list = match user_id {
        Some(uid) => {
            let mut assigned = Role::list_user_roles_by_room_id(uid, room_id, store);
            let mut generic = Role::list_generic_room_roles(room_id, false, store);
            assigned.append(&mut generic);
            assigned
        },
        None => Role::list_generic_room_roles(room_id, true, store),
    };
    if list.len() == 0 {
        Err(StoreError::MalformedRoomState)
    } else {
        Ok(list)
    }
}

/// The highest-priority applicable role of a principal in a room: the first
/// element of the precedence chain.
pub fn get_highest_user_role(user_id: Option<i64>, room_id: i64, store: &RoleStore) -> (r: Result<
    Role,
    StoreError,
>)
    ensures
        r matches Ok(role) ==> store.applicable_roles(user_id, room_id).len() > 0 && role
            == store.applicable_roles(user_id, room_id)[0],
        r matches Err(e) ==> e == StoreError::MalformedRoomState && store.applicable_roles(
            user_id,
            room_id,
        ).len() == 0,
{
    let list = list_user_roles_in_room(user_id, room_id, store)?;
    let first = list[0].clone();
    Ok(first)
}

/// An anonymous principal's chain never contains a user-only role: every
/// role in it is generic, anonymous-eligible and owned by the queried room —
/// in particular, none of them is the Stranger preset.
pub proof fn lemma_anonymous_sees_only_anonymous_eligible(store: RoleStore, room_id: i64)
    ensures
        forall|i: int|
            0 <= i < store.applicable_roles(None, room_id).len() ==> (#[trigger] store.applicable_roles(
                None,
                room_id,
            )[i]).is_generic,
        forall|i: int|
            0 <= i < store.applicable_roles(None, room_id).len() ==> (#[trigger] store.applicable_roles(
                None,
                room_id,
            )[i]).anonymous_eligible,
        forall|i: int|
            0 <= i < store.applicable_roles(None, room_id).len() ==> (#[trigger] store.applicable_roles(
                None,
                room_id,
            )[i]).room_id == room_id,
        forall|i: int|
            0 <= i < store.applicable_roles(None, room_id).len() ==> !is_stranger_role(
                #[trigger] store.applicable_roles(None, room_id)[i],
                room_id,
            ),
{
    let chain = store.applicable_roles(None, room_id);
    assert forall|i: int| 0 <= i < chain.len() implies (#[trigger] chain[i]).is_generic
        && chain[i].anonymous_eligible && chain[i].room_id == room_id && !is_stranger_role(
        chain[i],
        room_id,
    ) by {
        store.spec_roles().lemma_filter_pred(generic_pred(room_id, true), i);
    }
}

/// The precedence chain is a deterministic function of the store contents —
/// the ordered queries pin it exactly, so repeated calls with unchanged data
/// return the same roles in the same order — and it is position-ordered
/// within each of its two segments, with the user-specific segment standing
/// before the generic one.
pub proof fn lemma_applicable_roles_ordered(store: RoleStore, user_id: Option<i64>, room_id: i64)
    requires
        store.wf(),
    ensures
        sorted_by_position(store.generic_roles(room_id, true)),
        sorted_by_position(store.generic_roles(room_id, false)),
        user_id matches Some(uid) ==> sorted_by_position(store.assigned_roles(uid, room_id))
            && store.applicable_roles(user_id, room_id) == store.assigned_roles(uid, room_id)
            + store.generic_roles(room_id, false),
        user_id is None ==> store.applicable_roles(user_id, room_id) == store.generic_roles(
            room_id,
            true,
        ) && sorted_by_position(store.applicable_roles(user_id, room_id)),
{
    lemma_filter_preserves_sorted(store.spec_roles(), generic_pred(room_id, true));
    lemma_filter_preserves_sorted(store.spec_roles(), generic_pred(room_id, false));
    match user_id {
        Some(uid) => {
            lemma_filter_preserves_sorted(store.spec_roles(), assigned_pred(store, uid, room_id));
        },
        None => {},
    }
}

} // verus!
