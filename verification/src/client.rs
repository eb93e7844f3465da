//! The certificate policy of a client that connects to this server for
//! testing.

use std::sync::Arc;
use vstd::prelude::*;

verus! {

/// A server-certificate policy that trusts every certificate. The server's
/// certificate is self-signed and made anew on each start, so a client could
/// check it against nothing; this policy is for local use only.
#[derive(Clone, Copy, Debug, PartialEq, Eq, Structural)]
pub struct SkipServerVerification;

impl SkipServerVerification {
    /// A shared instance of the policy.
    pub fn new() -> (policy: Arc<Self>)
        ensures
            *policy == SkipServerVerification,
    {
        Arc::new(SkipServerVerification)
    }

    /// Decides whether the certificate a server presented is trusted. The
    /// answer is yes whatever the certificate, the chain behind it, the name
    /// asked for and the stapled response are.
    pub fn verify_server_cert(
        &self,
        _end_entity: &[u8],
        _intermediates: &[Vec<u8>],
        _server_name: &str,
        _ocsp_response: &[u8],
    ) -> (trusted: bool)
        ensures
            trusted,
    {
        true
    }
}

} // verus!
