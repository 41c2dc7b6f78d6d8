//! The session-fatal failures of a discovery session.

use vstd::prelude::*;

verus! {

/// A session-fatal failure.
///
/// Transport failures originate in the OS networking layer and carry its
/// message; they end the operation that met them. A malformed received
/// datagram is deliberately *not* an [`Error`]: it is a diagnostic that the
/// receive loop reports and survives (see [`crate::ListenStep`]).
#[derive(Debug, PartialEq, Eq)]
pub enum Error {
    /// Creating or binding the shared UDP socket failed.
    SocketCreation(String),
    /// Setting a socket option (address reuse, loopback delivery) failed.
    SocketConfiguration(String),
    /// Joining the mDNS multicast group failed.
    MulticastJoin(String),
    /// Transmitting a query datagram failed.
    Send(String),
    /// Receiving a datagram failed.
    Receive(String),
    /// The service name is too long for one query packet, so no query was
    /// encoded or sent.
    QueryTooLong,
}

} // verus!
