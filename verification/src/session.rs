//! The socket configuration of one discovery session.
//!
//! A session runs over exactly one UDP socket, shared by its sending and
//! receiving halves. [`session_config`] fixes everything the transport must
//! do to produce that socket: bind the wildcard address on port 5353 with
//! address reuse mandatory and port reuse best-effort (so independent
//! clients coexist on one host), deliver multicast back to the sender
//! exactly when loopback is requested, and join the group 224.0.0.251 — on
//! the loopback interface when loopback is requested, else on the caller's
//! interface.

use vstd::prelude::*;

use crate::addr::{
    spec_loopback_address, spec_mdns_group, spec_unspecified_address, Ipv4Address, MDNS_PORT,
    RECEIVE_BUFFER_LEN,
};
use crate::service_name::valid_service_name;

verus! {

/// Everything the transport needs to build one session's socket.
#[derive(Debug)]
pub struct SessionConfig {
    /// The service name the session queries for.
    pub service_name: String,
    /// The local address to bind: always the wildcard address.
    pub bind_address: Ipv4Address,
    /// The local port to bind: always the mDNS port.
    pub bind_port: u16,
    /// Address reuse is mandatory: independent discovery clients must be
    /// able to bind the mDNS port concurrently.
    pub reuse_address: bool,
    /// Port reuse is requested wherever the platform offers it; its absence
    /// is not fatal.
    pub reuse_port: bool,
    /// Whether multicast sent by this socket is delivered back to it.
    pub multicast_loopback: bool,
    /// The multicast group to join: always the mDNS group.
    pub multicast_group: Ipv4Address,
    /// The port queries are sent to: always the mDNS port.
    pub multicast_port: u16,
    /// The interface on which the group is joined.
    pub join_interface: Ipv4Address,
    /// The size of the listener's receive buffer.
    pub receive_buffer_len: usize,
}

/// Holds when `c` is the one configuration a session for `service_name` on
/// `interface_address` with the given loopback choice may use.
pub open spec fn is_session_config_for(
    c: SessionConfig,
    service_name: Seq<char>,
    interface_address: Ipv4Address,
    with_loopback: bool,
) -> bool {
    &&& c.service_name@ == service_name
    &&& c.bind_address == spec_unspecified_address()
    &&& c.bind_port == MDNS_PORT
    &&& c.reuse_address
    &&& c.reuse_port
    &&& c.multicast_loopback == with_loopback
    &&& c.multicast_group == spec_mdns_group()
    &&& c.multicast_port == MDNS_PORT
    &&& c.join_interface == if with_loopback {
        spec_loopback_address()
    } else {
        interface_address
    }
    &&& c.receive_buffer_len == RECEIVE_BUFFER_LEN
}

/// Produces the socket configuration of a discovery session for
/// `service_name`, joining on `interface_address` — or on the loopback
/// interface when `with_loopback` asks for self-delivery.
pub fn session_config(
    service_name: String,
    interface_address: Ipv4Address,
    with_loopback: bool,
) -> (c: SessionConfig)
    requires
        valid_service_name(service_name@),
    ensures
        is_session_config_for(c, service_name@, interface_address, with_loopback),
{
    let join_interface = if with_loopback {
        crate::addr::loopback_address()
    } else {
        interface_address
    };
    SessionConfig {
        service_name,
        bind_address: crate::addr::unspecified_address(),
        bind_port: MDNS_PORT,
        reuse_address: true,
        reuse_port: true,
        multicast_loopback: with_loopback,
        multicast_group: crate::addr::mdns_group(),
        multicast_port: MDNS_PORT,
        join_interface,
        receive_buffer_len: RECEIVE_BUFFER_LEN,
    }
}

/// The loopback flag alone decides self-delivery and the join interface:
/// of two sessions on one interface, the loopback-enabled one has multicast
/// delivered back to itself and joins on the loopback interface, while the
/// other suppresses self-delivery and joins on the interface it was given.
pub proof fn lemma_loopback_governs_join_interface(
    c_loop: SessionConfig,
    c_plain: SessionConfig,
    name_loop: Seq<char>,
    name_plain: Seq<char>,
    interface_address: Ipv4Address,
)
    requires
        is_session_config_for(c_loop, name_loop, interface_address, true),
        is_session_config_for(c_plain, name_plain, interface_address, false),
    ensures
        c_loop.multicast_loopback,
        !c_plain.multicast_loopback,
        c_loop.join_interface == spec_loopback_address(),
        c_plain.join_interface == interface_address,
{
}

/// Any two sessions demand address and port reuse and bind the same
/// wildcard address and port, so neither bind may claim the port
/// exclusively: concurrent sessions on one host coexist.
pub proof fn lemma_sessions_can_share_port(
    c1: SessionConfig,
    c2: SessionConfig,
    name1: Seq<char>,
    name2: Seq<char>,
    interface1: Ipv4Address,
    interface2: Ipv4Address,
    loopback1: bool,
    loopback2: bool,
)
    requires
        is_session_config_for(c1, name1, interface1, loopback1),
        is_session_config_for(c2, name2, interface2, loopback2),
    ensures
        c1.reuse_address && c1.reuse_port,
        c2.reuse_address && c2.reuse_port,
        c1.bind_address == c2.bind_address,
        c1.bind_port == c2.bind_port,
{
}

} // verus!
