//! The tri-state permission unit.

use vstd::prelude::*;

verus! {

/// Verdict of a single role for a single action.
///
/// `Unset` means "defer to the next lower-priority role in the chain"; it is
/// the default for every permission field. A walk over a role chain stops at
/// the first `Allowed` or `Forbidden`; `Unset` never terminates the walk.
#[derive(Debug, Copy, Clone, PartialEq, Eq, Structural)]
pub enum PermissionState {
    /// Defer to the next role in priority order (inherited).
    Unset,
    /// The action is denied.
    Forbidden,
    /// The action is permitted.
    Allowed,
}

impl PermissionState {
    /// Fixed small-integer encoding used when persisting or transmitting a
    /// permission field: `Unset = -1`, `Forbidden = 0`, `Allowed = 1`.
    pub fn code(self) -> (r: i32)
        ensures
            r == self.spec_code(),
    {
        match self {
            PermissionState::Unset => -1,
            PermissionState::Forbidden => 0,
            PermissionState::Allowed => 1,
        }
    }

    /// The integer each variant encodes to.
    pub open spec fn spec_code(self) -> i32 {
        match self {
            PermissionState::Unset => -1i32,
            PermissionState::Forbidden => 0i32,
            PermissionState::Allowed => 1i32,
        }
    }

    /// The variant a persisted integer decodes to; anything outside the
    /// encoding falls back to `Unset`.
    pub open spec fn spec_from_code(value: i32) -> PermissionState {
        if value == 0 {
            PermissionState::Forbidden
        } else if value == 1 {
            PermissionState::Allowed
        } else {
            PermissionState::Unset
        }
    }
}

impl Default for PermissionState {
    /// Every permission field starts out deferring to lower-priority roles.
    fn default() -> (r: PermissionState)
        ensures
            r == PermissionState::Unset,
    {
        PermissionState::Unset
    }
}

impl From<i32> for PermissionState {
    /// Decode the persisted small-integer encoding; unknown values decode to
    /// `Unset` rather than failing.
    fn from(value: i32) -> (r: PermissionState)
        ensures
            r == PermissionState::spec_from_code(value),
    {
        match value {
            0 => PermissionState::Forbidden,
            1 => PermissionState::Allowed,
            _ => PermissionState::Unset,
        }
    }
}

impl vstd::std_specs::convert::FromSpecImpl<i32> for PermissionState {
    open spec fn obeys_from_spec() -> bool {
        true
    }

    open spec fn from_spec(value: i32) -> PermissionState {
        PermissionState::spec_from_code(value)
    }
}

} // verus!
