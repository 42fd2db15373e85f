//! The persistent counter store ports.
//!
//! The durable stores are external collaborators reached over the network;
//! the library fixes the interfaces it consumes. `Datastore` is the
//! row-based store holding one integer counter, read at startup and written
//! by the reconciliation loop. `Operations` (in `operations`) is the
//! transactional per-key store whose server increments a user's counter on
//! every read.

pub mod operations;
pub mod xata;

pub use operations::Error as DatastoreError;
pub use operations::Operations as DatastoreOperations;

use vstd::prelude::*;

verus! {

/// A failed call to the row-based counter store.
#[derive(Debug)]
pub struct DataAccessError {
    message: String,
}

impl View for DataAccessError {
    type V = Seq<char>;

    closed spec fn view(&self) -> Seq<char> {
        self.message@
    }
}

impl DataAccessError {
    /// Wrap a store failure description.
    pub fn new(message: String) -> (e: DataAccessError)
        ensures
            e@ == message@,
    {
        DataAccessError { message }
    }

    /// The failure description.
    pub fn message(&self) -> (m: &str)
        ensures
            m@ == self@,
    {
        self.message.as_str()
    }
}

/// The row-based persistent counter store: one durable integer counter.
/// Implementations run the store queries over the network; nothing is
/// assumed about the values that come back.
pub trait Datastore {
    fn get_views(&self) -> Result<i64, DataAccessError>;

    fn update_views(&self, views: i64) -> Result<(), DataAccessError>;

    fn close_connection(&self);
}

} // verus!
