//! Tests for the persisted small-integer encoding of permission states.

use room_permissions::permission_state::PermissionState;

#[test]
fn permission_states_encode_to_fixed_integers() {
    assert_eq!(PermissionState::Unset.code(), -1);
    assert_eq!(PermissionState::Forbidden.code(), 0);
    assert_eq!(PermissionState::Allowed.code(), 1);
}

#[test]
fn permission_states_decode_from_integers() {
    assert_eq!(PermissionState::from(-1), PermissionState::Unset);
    assert_eq!(PermissionState::from(0), PermissionState::Forbidden);
    assert_eq!(PermissionState::from(1), PermissionState::Allowed);
    // Unknown encodings fall back to Unset rather than failing.
    assert_eq!(PermissionState::from(7), PermissionState::Unset);
    assert_eq!(PermissionState::from(-3), PermissionState::Unset);
}

#[test]
fn encoding_round_trips() {
    for state in [PermissionState::Unset, PermissionState::Forbidden, PermissionState::Allowed] {
        assert_eq!(PermissionState::from(state.code()), state);
    }
}

#[test]
fn default_permission_state_is_unset() {
    let state: PermissionState = Default::default();
    assert_eq!(state, PermissionState::Unset);
}
