//! The ways in which an operation of the relay can fail.

use vstd::prelude::*;

verus! {

/// Why a connection attempt, a broadcast request or a session did not go on.
#[derive(Clone, Copy, Debug, PartialEq, Eq, Structural)]
pub enum RelayError {
    /// The client identifier, the signature or the timestamp was not supplied.
    AuthMissingCredential,
    /// The timestamp is not an unsigned integer of seconds.
    AuthInvalidTimestamp,
    /// The verification service did not answer, or not in the agreed form.
    AuthServiceUnreachable,
    /// The verification service answered and did not accept the signature.
    AuthRejected,
    /// A broadcast request names a connection that the registry does not hold.
    UnknownSender,
    /// A broadcast payload is not the text of a JSON object.
    MalformedEnvelope,
    /// The peer sent no sign of life within the allowed time.
    HeartbeatTimeout,
    /// The transport failed or the peer broke the protocol.
    TransportError,
}

} // verus!
