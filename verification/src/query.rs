//! Construction of the one query a sender transmits.
//!
//! A query asks, through a single PTR question of class IN, for instances of
//! the configured service name. Its transaction ID is fixed at zero: mDNS
//! correlates by content, not by ID, so none is needed. The wire bytes come
//! from the external DNS encoder and are named, not restated, here:
//! [`query_bytes`] stands for whatever bytes that encoder produces for a
//! name.

use vstd::prelude::*;

use crate::error::Error;
use crate::service_name::valid_service_name;

verus! {

/// The longest service name that still fits one 512-byte query packet: the
/// packet spends 12 bytes on its header, 4 on the question's type and class,
/// and 2 more than the name's length on the name itself.
pub const MAX_QUERY_NAME_LEN: usize = 494;

/// The wire bytes of a standard query (ID 0, no recursion) holding one
/// PTR/IN question for `name`; they depend on the name alone.
pub uninterp spec fn query_bytes(name: Seq<char>) -> Seq<u8>;

/// Relies on `dns_parser::Builder`: `new_query(0, false)` starts a standard
/// query with ID 0, `add_question` appends one PTR/IN multicast question for
/// the name (it demands labels of at most 62 bytes), and `build` returns the
/// packet exactly when it fits 512 bytes — here, when the name is at most
/// 494 bytes — and the truncated packet otherwise. The bytes depend on the
/// name alone.
#[verifier::external_body]
fn build_ptr_query(service_name: &str) -> (r: Result<Vec<u8>, ()>)
    requires
        valid_service_name(service_name@),
    ensures
        r matches Ok(bytes) ==> bytes@ == query_bytes(service_name@),
        r is Ok <==> service_name@.len() <= MAX_QUERY_NAME_LEN,
{
    let mut builder = dns_parser::Builder::new_query(0, false);
    builder.add_question(service_name, false, dns_parser::QueryType::PTR, dns_parser::QueryClass::IN);
    builder.build().map_err(|_truncated| ())
}

/// Builds the query packet for `service_name`: one PTR/IN question, ID 0.
/// The query exists exactly when the name fits one packet; a longer name is
/// an encoding failure and no packet is produced.
pub fn build_query(service_name: &str) -> (r: Result<Vec<u8>, Error>)
    requires
        valid_service_name(service_name@),
    ensures
        service_name@.len() <= MAX_QUERY_NAME_LEN ==> (r matches Ok(bytes)
            && bytes@ == query_bytes(service_name@)),
        service_name@.len() > MAX_QUERY_NAME_LEN ==> r == Err::<Vec<u8>, Error>(
            Error::QueryTooLong,
        ),
{
    match build_ptr_query(service_name) {
        Ok(bytes) => Ok(bytes),
        Err(_) => Err(Error::QueryTooLong),
    }
}

} // verus!
