//! The transactional per-key counter store port and its error taxonomy.

use vstd::prelude::*;
use vstd::string::StringExecFns;

verus! {

/// A failed call to the transactional counter store.
#[derive(Debug)]
pub enum Error {
    /// The transport or the response body could not be used.
    Client(String),
    /// The store holds no counter for the named user.
    UserNotFound(String),
    /// Any other store failure, described by the server.
    Unexpected(String),
}

/// How an error reports itself: the user-facing failure text.
pub open spec fn error_text(e: Error) -> Seq<char> {
    match e {
        Error::Client(s) => s@,
        Error::UserNotFound(u) => "user `"@ + u@ + "` not found"@,
        Error::Unexpected(s) => "unexpected error: "@ + s@,
    }
}

impl Error {
    /// The failure description.
    pub fn message(&self) -> (m: String)
        ensures
            m@ == error_text(*self),
    {
        match self {
            Error::Client(s) => s.clone(),
            Error::UserNotFound(u) => {
                let mut m = "user `".to_owned();
                m.append(u.as_str());
                m.append("` not found");
                proof {
                    assert(m@ =~= error_text(*self));
                }
                m
            },
            Error::Unexpected(s) => {
                let mut m = "unexpected error: ".to_owned();
                m.append(s.as_str());
                m
            },
        }
    }
}

/// The transactional per-key counter store: each user's counter is created
/// at one and incremented server-side on every read, so a read returns the
/// fresh count. Implementations run the store transaction over the network;
/// nothing is assumed about the values that come back.
pub trait Operations {
    fn get_latest_views(&self, user_name: &str) -> Result<u64, Error>;

    fn onboard_user(&self, user_name: &str) -> Result<u64, Error>;
}

} // verus!
