//! The calendar synchronisation as its commands see it: the configuration
//! they take and the status they report.

use vstd::prelude::*;
use vstd::string::*;
use crate::text::text_view;
use crate::text::{trim, trimmed};
use crate::time::{format_rfc3339, rfc3339_text, Timestamp};

verus! {

/// What the command that saves the configuration takes.
#[derive(Debug)]
pub struct UpdateCalDavConfigPayload {
    pub url: String,
    pub username: String,
    pub password: String,
}

/// The configuration of the calendar server as it is stored.
#[derive(Debug)]
pub struct CalDavConfig {
    pub url: String,
    pub username: String,
    pub password: String,
}

impl UpdateCalDavConfigPayload {
    /// The configuration to store: address and user name without the
    /// whitespace around them, the password as it was typed.
    pub fn into_config(self) -> (r: CalDavConfig)
        ensures
            r.url@ == trimmed(self.url@),
            r.username@ == trimmed(self.username@),
            r.password == self.password,
    {
        CalDavConfig {
            url: trim(self.url.as_str()),
            username: trim(self.username.as_str()),
            password: self.password,
        }
    }
}

/// What the status command reports.
#[derive(Debug)]
pub struct CalDavStatus {
    pub configured: bool,
    pub url: Option<String>,
    pub username: Option<String>,
    pub last_sync_at: Option<String>,
    pub last_error: Option<String>,
    pub syncing: bool,
}

impl CalDavStatus {
    /// The status of a synchronisation with the stored `config`, which last
    /// ran at `last_sync`, last failed with `last_error` and is under way or
    /// not. The time of the last run is written in the format of RFC 3339;
    /// it is left out where it lies outside the dates that `chrono` can hold.
    pub fn new(
        config: Option<CalDavConfig>,
        last_sync: Option<Timestamp>,
        last_error: Option<String>,
        syncing: bool,
    ) -> (r: CalDavStatus)
        ensures
            r.configured == config is Some,
            text_view(r.url) == (match config {
                Some(c) => Some(c.url@),
                None => None,
            }),
            text_view(r.username) == (match config {
                Some(c) => Some(c.username@),
                None => None,
            }),
            text_view(r.last_sync_at) == (match last_sync {
                Some(at) => rfc3339_text(at),
                None => None,
            }),
            r.last_error == last_error,
            r.syncing == syncing,
    {
        let (configured, url, username) = match config {
            Some(c) => (true, Some(c.url), Some(c.username)),
            None => (false, None, None),
        };
        let last_sync_at = match last_sync {
            Some(at) => format_rfc3339(at),
            None => None,
        };
        CalDavStatus { configured, url, username, last_sync_at, last_error, syncing }
    }
}

} // verus!
