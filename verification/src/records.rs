//! Decoded resource records, reduced to what service discovery reads.
//!
//! A reply packet carries resource records; discovery reads only two things
//! from them: which target host a service record (SRV) names, with its port,
//! and which IPv4 address an address record (A) gives for an owner name.
//! Every other record type carries no host or address information here.

use vstd::prelude::*;

use crate::addr::{Ipv4Address, SocketAddressV4};

verus! {

/// The part of a record's data that discovery reads.
#[derive(Debug)]
pub enum RecordKind {
    /// An address record (DNS type A): an IPv4 address for the owner name.
    A(Ipv4Address),
    /// A service record (DNS type SRV): the port and target host of a
    /// service instance.
    Srv { port: u16, target: String },
    /// Any other record type.
    Other,
}

/// One resource record of a decoded reply.
#[derive(Debug)]
pub struct Record {
    /// The owner name the record belongs to.
    pub name: String,
    /// The data the record carries.
    pub kind: RecordKind,
}

/// The port and target host of the first service record of `recs`, if any.
pub open spec fn first_srv(recs: Seq<Record>) -> Option<(u16, Seq<char>)>
    decreases recs.len(),
{
    if recs.len() == 0 {
        None
    } else {
        match recs[0].kind {
            RecordKind::Srv { port, target } => Some((port, target@)),
            _ => first_srv(recs.drop_first()),
        }
    }
}

/// The address of the first address record of `recs` whose owner name is
/// `host`, if any.
pub open spec fn first_address_for(recs: Seq<Record>, host: Seq<char>) -> Option<Ipv4Address>
    decreases recs.len(),
{
    if recs.len() == 0 {
        None
    } else {
        match recs[0].kind {
            RecordKind::A(ip) => if recs[0].name@ == host {
                Some(ip)
            } else {
                first_address_for(recs.drop_first(), host)
            },
            _ => first_address_for(recs.drop_first(), host),
        }
    }
}

/// The hostname a reply with records `recs` advertises: the target host
/// named by its first service record, or nothing.
pub open spec fn response_hostname(recs: Seq<Record>) -> Option<Seq<char>> {
    match first_srv(recs) {
        Some((port, target)) => Some(target),
        None => None,
    }
}

/// The socket address a reply with records `recs` advertises: the address
/// of the first address record owned by the advertised hostname, combined
/// with the first service record's port — or nothing, when that correlation
/// fails.
pub open spec fn response_address(recs: Seq<Record>) -> Option<SocketAddressV4> {
    match first_srv(recs) {
        Some((port, target)) => match first_address_for(recs, target) {
            Some(ip) => Some(SocketAddressV4 { ip, port }),
            None => None,
        },
        None => None,
    }
}

/// Finds the first service record of `records` and returns its port and
/// target host.
pub(crate) fn find_first_srv(records: &Vec<Record>) -> (r: Option<(u16, String)>)
    ensures
        match r {
            Some(pt) => first_srv(records@) == Some((pt.0, pt.1@)),
            None => first_srv(records@) is None,
        },
{
    let n = records.len();
    let mut i: usize = 0;
    proof {
        assert(records@.skip(0) =~= records@);
    }
    while i < n
        invariant
            n == records@.len(),
            i <= n,
            first_srv(records@) == first_srv(records@.skip(i as int)),
        decreases n - i,
    {
        let ghost rest = records@.skip(i as int);
        proof {
            assert(rest[0] == records@[i as int]);
            assert(rest.drop_first() =~= records@.skip(i + 1));
        }
        match &records[i].kind {
            RecordKind::Srv { port, target } => {
                return Some((*port, target.clone()));
            },
            _ => {},
        }
        i = i + 1;
    }
    proof {
        assert(records@.skip(n as int) =~= Seq::<Record>::empty());
    }
    None
}

/// Finds the address of the first address record of `records` whose owner
/// name is `host`.
pub(crate) fn find_first_address(records: &Vec<Record>, host: &String) -> (r: Option<Ipv4Address>)
    ensures
        r == first_address_for(records@, host@),
{
    let n = records.len();
    let mut i: usize = 0;
    proof {
        assert(records@.skip(0) =~= records@);
    }
    while i < n
        invariant
            n == records@.len(),
            i <= n,
            first_address_for(records@, host@) == first_address_for(
                records@.skip(i as int),
                host@,
            ),
        decreases n - i,
    {
        let ghost rest = records@.skip(i as int);
        proof {
            assert(rest[0] == records@[i as int]);
            assert(rest.drop_first() =~= records@.skip(i + 1));
        }
        match &records[i].kind {
            RecordKind::A(ip) => {
                if records[i].name.eq(host) {
                    return Some(*ip);
                }
            },
            _ => {},
        }
        i = i + 1;
    }
    proof {
        assert(records@.skip(n as int) =~= Seq::<Record>::empty());
    }
    None
}

} // verus!
