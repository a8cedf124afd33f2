//! Length limits for validated user input.

use vstd::prelude::*;

verus! {

pub const USERNAME_MIN_LEN: usize = 1;

pub const USERNAME_MAX_LEN: usize = 30;

pub const NICKNAME_MIN_LEN: usize = 1;

pub const NICKNAME_MAX_LEN: usize = 30;

pub const PASSWORD_MIN_LEN: usize = 8;

pub const PASSWORD_MAX_LEN: usize = 64;

pub const ROOM_PATH_MIN_LEN: usize = 2;

pub const ROOM_PATH_MAX_LEN: usize = 32;

pub const ROOM_NAME_MIN_LEN: usize = 2;

pub const ROOM_NAME_MAX_LEN: usize = 32;

} // verus!
