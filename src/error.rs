use vstd::prelude::*;

verus! {

/// Why a relay attempt was given up.
///
/// An upstream answer with an error status is not one of these: it is relayed
/// to the caller like any other answer.
#[derive(Clone, Copy, Debug, PartialEq, Eq, Structural)]
pub enum ProxyError {
    /// A request could not be sent or got no answer.
    UpstreamUnavailable,
    /// The landing page holds no usable session token.
    CredentialNotFound,
    /// An answer arrived but its body could not be read.
    UpstreamReadError,
}

impl ProxyError {
    /// A short description, for logs and for the caller's error body.
    pub fn message(&self) -> (r: &'static str)
        ensures
            r@.len() > 0,
    {
        match self {
            ProxyError::UpstreamUnavailable => {
                proof { reveal_strlit("upstream unavailable"); }
                "upstream unavailable"
            },
            ProxyError::CredentialNotFound => {
                proof { reveal_strlit("session token not found"); }
                "session token not found"
            },
            ProxyError::UpstreamReadError => {
                proof { reveal_strlit("failed to read upstream response"); }
                "failed to read upstream response"
            },
        }
    }
}

} // verus!
