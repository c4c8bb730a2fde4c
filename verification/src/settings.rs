//! System settings as stored key/value entries.
use vstd::prelude::*;

verus! {

/// A stored setting.
#[derive(Debug, Clone)]
pub struct SettingEntry {
    pub key: String,
    pub value: String,
    /// Group shown in the settings screen.
    pub category: String,
    /// Whether the value is a credential to be hidden.
    pub is_secret: bool,
    pub updated_at: String,
}

impl SettingEntry {
    /// The entry of a stored row, whose secrecy is kept as an integer flag
    /// (non-zero for secret).
    pub fn from_row(key: String, value: String, category: String, secret_flag: i32, updated_at: String) -> (r: Self)
        ensures
            r.key == key,
            r.value == value,
            r.category == category,
            r.is_secret == (secret_flag != 0),
            r.updated_at == updated_at,
    {
        SettingEntry { key, value, category, is_secret: secret_flag != 0, updated_at }
    }

    /// The integer flag a secrecy is stored as.
    pub fn secret_flag(is_secret: bool) -> (r: i32)
        ensures
            r == stored_flag(is_secret),
    {
        if is_secret {
            1
        } else {
            0
        }
    }
}

/// The flag stored for a secrecy: 1 for secret, 0 otherwise.
pub open spec fn stored_flag(is_secret: bool) -> i32 {
    if is_secret {
        1
    } else {
        0
    }
}

/// Reading back a stored secrecy flag (non-zero means secret) gives the
/// secrecy that was stored.
pub proof fn law_secret_flag_round_trip(is_secret: bool)
    ensures
        (stored_flag(is_secret) != 0) == is_secret,
{
}

} // verus!
