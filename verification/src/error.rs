//! The failures of the flow and the policy that tells them apart.

use vstd::prelude::*;

verus! {

/// Why a stage of the flow did not produce its result.
#[derive(Clone, Copy, Debug, PartialEq, Eq, Structural)]
pub enum FlowError {
    /// The local address could not be bound.
    Bind,
    /// Certificate setup or the secure handshake failed.
    Handshake,
    /// The connection closed before the peer opened a channel.
    Channel,
    /// The stream ended before a whole header had arrived.
    IncompleteHeader,
    /// The read of the body reported a failure.
    BodyRead,
    /// The body is not valid UTF-8.
    Decode,
}

impl FlowError {
    /// Only a decoding failure lets the flow run on to its end; every other
    /// error cuts it short.
    pub open spec fn recoverable(self) -> bool {
        self == FlowError::Decode
    }

    /// Tells whether the flow continues after this error.
    pub fn is_recoverable(&self) -> (answer: bool)
        ensures
            answer == self.recoverable(),
    {
        match self {
            FlowError::Decode => true,
            _ => false,
        }
    }
}

} // verus!
