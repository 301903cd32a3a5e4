//! A setting as the front end sees it.

use vstd::prelude::*;
use vstd::string::*;
use crate::time::{format_rfc3339, rfc3339_text, Timestamp};

verus! {

/// One setting with the times of its creation and last change, written in
/// the format of RFC 3339.
#[derive(Debug)]
pub struct Setting {
    pub key: String,
    pub value: String,
    pub created_at: String,
    pub updated_at: String,
}

impl Clone for Setting {
    fn clone(&self) -> (r: Self)
        ensures
            r.key@ == self.key@,
            r.value@ == self.value@,
            r.created_at@ == self.created_at@,
            r.updated_at@ == self.updated_at@,
    {
        Setting {
            key: self.key.clone(),
            value: self.value.clone(),
            created_at: self.created_at.clone(),
            updated_at: self.updated_at.clone(),
        }
    }
}

impl Setting {
    /// The setting as the front end sees it, from what is stored. `None`
    /// where one of the two times lies outside the dates that `chrono` can
    /// hold.
    pub fn from_stored(key: String, value: String, created_at: Timestamp, updated_at: Timestamp) -> (r:
        Option<Setting>)
        ensures
            match r {
                Some(setting) => {
                    &&& setting.key == key
                    &&& setting.value == value
                    &&& rfc3339_text(created_at) == Some(setting.created_at@)
                    &&& rfc3339_text(updated_at) == Some(setting.updated_at@)
                },
                None => rfc3339_text(created_at) is None || rfc3339_text(updated_at) is None,
            },
    {
        match (format_rfc3339(created_at), format_rfc3339(updated_at)) {
            (Some(created_at), Some(updated_at)) => Some(
                Setting { key, value, created_at, updated_at },
            ),
            _ => None,
        }
    }
}

} // verus!
