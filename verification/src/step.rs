//! One iteration of the receive loop, decided from the received bytes.
//!
//! The receive loop blocks for a datagram, then decides: an empty read is
//! skipped; bytes that decode as a DNS packet yield a [`Response`]; bytes
//! that do not yield a diagnostic for an observability hook — never a
//! session error, so one malformed datagram never ends the session. The
//! decoder itself is external; [`parsed_records`] names what it yields for
//! given bytes.

use vstd::prelude::*;
use vstd::slice::slice_subrange;

use crate::records::{response_address, response_hostname, Record, RecordKind};
use crate::response::{opt_name_view, Response};
use crate::addr::{Ipv4Address, RECEIVE_BUFFER_LEN};

verus! {

/// What the external DNS decoder makes of a datagram's bytes: the records
/// of the packet's answer and additional sections, each reduced to its owner
/// name and the data discovery reads — or nothing, when the bytes do not
/// parse. The outcome depends on the bytes alone.
pub uninterp spec fn parsed_records(bytes: Seq<u8>) -> Option<Seq<Record>>;

/// Relies on `dns_parser::Packet::parse`: it decodes any byte sequence
/// without panicking, returning a packet or a parse error that depends on
/// the bytes alone. The packet's answer and additional records are handed
/// out reduced to owner name, A address or SRV port and target; names print
/// as their dot-joined labels.
#[verifier::external_body]
fn parse_datagram(bytes: &[u8]) -> (r: Result<Vec<Record>, String>)
    ensures
        r matches Ok(recs) ==> parsed_records(bytes@) == Some(recs@),
        r is Err <==> parsed_records(bytes@) is None,
{
    match dns_parser::Packet::parse(bytes) {
        Ok(p) => Ok(p.answers.iter().chain(p.additional.iter()).map(|rr| Record {
            name: rr.name.to_string(),
            kind: match &rr.data {
                dns_parser::RData::A(a) => RecordKind::A(Ipv4Address::from_octets(a.0.octets())),
                dns_parser::RData::SRV(s) =>
                    RecordKind::Srv { port: s.port, target: s.target.to_string() },
                _ => RecordKind::Other,
            },
        }).collect()),
        Err(e) => Err(format!("{}", e)),
    }
}

/// What one iteration of the receive loop does with what arrived.
///
/// No variant ends the session: a fatal receive failure is the transport's
/// to report, never this decision's.
#[derive(Debug)]
pub enum ListenStep {
    /// An empty read: nothing is emitted.
    Skipped,
    /// A decoded reply to emit to the consumer.
    Reply(Response),
    /// A malformed datagram: a diagnostic for the observability hook; the
    /// loop then continues.
    DecodeError(String),
}

/// Decides one iteration of the receive loop from the `count` bytes a
/// receive put at the front of `buffer`.
///
/// Total over every byte sequence: an empty read is skipped, bytes that
/// decode yield the reply extracted from their records, and bytes that do
/// not yield a diagnostic — never an error that would end the session.
pub fn process_datagram(buffer: &[u8], count: usize) -> (step: ListenStep)
    requires
        count <= buffer@.len(),
    ensures
        count == 0 ==> step is Skipped,
        count > 0 ==> match parsed_records(buffer@.subrange(0, count as int)) {
            Some(recs) => step matches ListenStep::Reply(r)
                && opt_name_view(r.hostname) == response_hostname(recs)
                && r.socket_address == response_address(recs),
            None => step is DecodeError,
        },
{
    if count == 0 {
        return ListenStep::Skipped;
    }
    let data = slice_subrange(buffer, 0, count);
    match parse_datagram(data) {
        Ok(records) => ListenStep::Reply(Response::from_records(&records)),
        Err(diagnostic) => ListenStep::DecodeError(diagnostic),
    }
}

/// Makes a listener's receive buffer: 4096 zeroed bytes, enough for any
/// compliant mDNS response in one datagram.
pub fn new_receive_buffer() -> (buffer: Vec<u8>)
    ensures
        buffer@.len() == RECEIVE_BUFFER_LEN,
        forall|i: int| 0 <= i < buffer@.len() ==> buffer@[i] == 0u8,
{
    let mut buffer: Vec<u8> = Vec::new();
    let mut i: usize = 0;
    while i < RECEIVE_BUFFER_LEN
        invariant
            i <= RECEIVE_BUFFER_LEN,
            buffer@.len() == i,
            forall|k: int| 0 <= k < buffer@.len() ==> buffer@[k] == 0u8,
        decreases RECEIVE_BUFFER_LEN - i,
    {
        buffer.push(0u8);
        i = i + 1;
    }
    buffer
}

} // verus!
