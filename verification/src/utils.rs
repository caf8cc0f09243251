//! The session record that lets a bot skip a fresh login.

use vstd::prelude::*;

verus! {

/// The name of the file that holds the session record, below the session
/// path.
pub const SESSION_FILE: &'static str = "session.json";

/// What is needed to take up a session again. The record is stored and
/// replaced as a whole.
#[derive(Clone, Debug, PartialEq, Eq)]
pub struct Session {
    /// The homeserver used for this session.
    pub homeserver: String,
    /// The access token used for this session.
    pub access_token: String,
    /// The user the access token was issued for.
    pub user_id: String,
    /// The ID of the client device.
    pub device_id: String,
}

} // verus!
