//! Player profiles: the avatars a player may pick and the checks on a profile
//! update.

use vstd::prelude::*;

use crate::accounts::DEFAULT_AVATAR;
use crate::text::{byte_len, owned, str_equal};

verus! {

/// The avatars a player may choose, in the order they are listed.
pub open spec fn avatar_names() -> Seq<Seq<char>> {
    seq![
        "tower_01"@, "tower_02"@, "satellite_01"@, "satellite_02"@,
        "antenna_01"@, "antenna_02"@, "router_01"@, "router_02"@,
        "cable_01"@, "cable_02"@, "server_01"@, "server_02"@,
        "phone_01"@, "phone_02"@, "modem_01"@, "modem_02"@,
        "dish_01"@, "dish_02"@, "fiber_01"@, "fiber_02"@,
        "switch_01"@, "switch_02"@, "relay_01"@, "relay_02"@,
        "headset_01"@, "headset_02"@, "radio_01"@, "radio_02"@,
        "globe_01"@, "globe_02"@,
    ]
}

/// The avatar list served to clients.
pub fn avatar_list() -> (r: Vec<&'static str>)
    ensures
        r@.len() == avatar_names().len(),
        forall|i: int| 0 <= i < r@.len() ==> #[trigger] r@[i]@ == avatar_names()[i],
{
    let r = vec![
        "tower_01", "tower_02", "satellite_01", "satellite_02",
        "antenna_01", "antenna_02", "router_01", "router_02",
        "cable_01", "cable_02", "server_01", "server_02",
        "phone_01", "phone_02", "modem_01", "modem_02",
        "dish_01", "dish_02", "fiber_01", "fiber_02",
        "switch_01", "switch_02", "relay_01", "relay_02",
        "headset_01", "headset_02", "radio_01", "radio_02",
        "globe_01", "globe_02",
    ];
    r
}

/// Whether an avatar id is one of the listed avatars.
pub fn is_listed_avatar(avatar: &str) -> (r: bool)
    ensures
        r == avatar_names().contains(avatar@),
{
    let list = avatar_list();
    let mut i: usize = 0;
    while i < list.len()
        invariant
            list@.len() == avatar_names().len(),
            forall|k: int| 0 <= k < list@.len() ==> #[trigger] list@[k]@ == avatar_names()[k],
            i <= list.len(),
            forall|k: int| 0 <= k < i ==> avatar_names()[k] != avatar@,
        decreases list.len() - i,
    {
        if str_equal(list[i], avatar) {
            assert(avatar_names()[i as int] == avatar@);
            return true;
        }
        i += 1;
    }
    false
}

/// Longest display name, in bytes.
pub const MAX_DISPLAY_NAME_BYTES: usize = 64;

/// Why a profile update was refused.
#[derive(Clone, Copy, Debug, PartialEq, Eq, Structural)]
pub enum ProfileError {
    InvalidAvatar,
    DisplayNameTooLong,
}

impl ProfileError {
    /// The message sent to the client.
    pub fn message(&self) -> (r: &'static str)
        ensures
            r@ == match *self {
                ProfileError::InvalidAvatar => "Invalid avatar ID"@,
                ProfileError::DisplayNameTooLong => "Display name must be 64 characters or less"@,
            },
    {
        match self {
            ProfileError::InvalidAvatar => "Invalid avatar ID",
            ProfileError::DisplayNameTooLong => "Display name must be 64 characters or less",
        }
    }
}

/// Check a profile update and give the avatar to store: the chosen avatar
/// must be listed and the display name at most 64 bytes long (the avatar is
/// checked first); without a chosen avatar the default one is stored.
pub fn check_profile_update(display_name: &Option<String>, avatar_id: &Option<String>) -> (r: Result<String, ProfileError>)
    ensures
        (avatar_id matches Some(a) && !avatar_names().contains(a@))
            ==> r == Err::<String, ProfileError>(ProfileError::InvalidAvatar),
        !(avatar_id matches Some(a) && !avatar_names().contains(a@))
            && (display_name matches Some(d) && byte_len(d@) > MAX_DISPLAY_NAME_BYTES)
            ==> r == Err::<String, ProfileError>(ProfileError::DisplayNameTooLong),
        !(avatar_id matches Some(a) && !avatar_names().contains(a@))
            && !(display_name matches Some(d) && byte_len(d@) > MAX_DISPLAY_NAME_BYTES)
            ==> (r matches Ok(chosen) && chosen@ == match avatar_id {
                Some(a) => a@,
                None => DEFAULT_AVATAR@,
            }),
{
    if let Some(a) = avatar_id {
        if !is_listed_avatar(a.as_str()) {
            return Err(ProfileError::InvalidAvatar);
        }
    }
    if let Some(d) = display_name {
        if d.as_str().len() > MAX_DISPLAY_NAME_BYTES {
            return Err(ProfileError::DisplayNameTooLong);
        }
    }
    match avatar_id {
        Some(a) => Ok(a.clone()),
        None => Ok(owned(DEFAULT_AVATAR)),
    }
}

} // verus!
