//! A decoded view over one received reply packet.

use vstd::prelude::*;

use crate::addr::SocketAddressV4;
use crate::records::{
    find_first_address, find_first_srv, first_srv, response_address, response_hostname, Record,
    RecordKind,
};

verus! {

/// What one decoded reply advertises.
///
/// Both fields may be absent: a responder may advertise a service without a
/// reachable address. That is a legitimate result, not an error.
#[derive(Debug, PartialEq, Eq)]
pub struct Response {
    /// The target host named by the reply's first service record.
    pub hostname: Option<String>,
    /// The advertised host's address and port, when an address record for
    /// the advertised hostname could be correlated with the service record.
    pub socket_address: Option<SocketAddressV4>,
}

/// The view of an optional hostname: the characters it holds, if any.
pub open spec fn opt_name_view(o: Option<String>) -> Option<Seq<char>> {
    match o {
        Some(s) => Some(s@),
        None => None,
    }
}

impl Response {
    /// Derives a response from the records of one decoded reply: the first
    /// service record names the hostname and gives the port, and the first
    /// address record owned by that hostname gives the address. Extraction
    /// is total: records that advertise nothing yield absent fields.
    pub fn from_records(records: &Vec<Record>) -> (r: Response)
        ensures
            opt_name_view(r.hostname) == response_hostname(records@),
            r.socket_address == response_address(records@),
    {
        match find_first_srv(records) {
            None => Response { hostname: None, socket_address: None },
            Some((port, target)) => {
                let socket_address = match find_first_address(records, &target) {
                    Some(ip) => Some(SocketAddressV4 { ip, port }),
                    None => None,
                };
                Response { hostname: Some(target), socket_address }
            },
        }
    }

    /// The advertised hostname, if any.
    pub fn hostname(&self) -> (r: &Option<String>)
        ensures
            r == &self.hostname,
    {
        &self.hostname
    }

    /// The advertised socket address, if any.
    pub fn socket_address(&self) -> (r: Option<SocketAddressV4>)
        ensures
            r == self.socket_address,
    {
        self.socket_address
    }
}

/// A reply whose records bear no host or address information — no service
/// record and no address record — yields a response with both fields
/// absent.
pub proof fn lemma_no_address_records_yield_absent_fields(recs: Seq<Record>)
    requires
        forall|i: int| 0 <= i < recs.len() ==> !(#[trigger] recs[i].kind is Srv),
        forall|i: int| 0 <= i < recs.len() ==> !(#[trigger] recs[i].kind is A),
    ensures
        response_hostname(recs) is None,
        response_address(recs) is None,
{
    lemma_no_srv_no_hostname(recs);
}

/// Without a service record there is no hostname, and so no address either.
proof fn lemma_no_srv_no_hostname(recs: Seq<Record>)
    requires
        forall|i: int| 0 <= i < recs.len() ==> !(#[trigger] recs[i].kind is Srv),
    ensures
        first_srv(recs) is None,
    decreases recs.len(),
{
    if recs.len() > 0 {
        assert(!(recs[0].kind is Srv));
        assert(forall|i: int|
            0 <= i < recs.drop_first().len() ==> recs.drop_first()[i] == recs[i + 1]);
        lemma_no_srv_no_hostname(recs.drop_first());
    }
}

} // verus!
