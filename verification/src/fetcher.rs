//! The remote badge renderer port.
//!
//! The renderer is an external collaborator reached over the network; the
//! library only fixes the interface it consumes. An implementation performs
//! the outbound call and reports any network or status failure as a
//! `RenderFailure`.

use vstd::prelude::*;

verus! {

/// A failed call to the remote badge renderer: the request-level failure
/// surfaced to the request handler when a badge cannot be produced.
#[derive(Debug)]
pub struct RenderFailure {
    message: String,
}

impl View for RenderFailure {
    type V = Seq<char>;

    closed spec fn view(&self) -> Seq<char> {
        self.message@
    }
}

impl RenderFailure {
    /// Wrap a renderer failure description.
    pub fn new(message: String) -> (e: RenderFailure)
        ensures
            e@ == message@,
    {
        RenderFailure { message }
    }

    /// The failure description.
    pub fn message(&self) -> (m: &str)
        ensures
            m@ == self@,
    {
        self.message.as_str()
    }
}

/// The remote badge renderer: given the badge query parameters, returns the
/// SVG document it renders, or fails. Implementations make a bounded-timeout
/// network call; nothing is assumed about the document that comes back.
pub trait SheildsIO {
    fn get_badge(&self, query_params: String) -> Result<String, RenderFailure>;
}

} // verus!
