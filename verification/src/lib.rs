//! Core logic of a multicast DNS (mDNS) service-discovery client.
//!
//! A discovery session multicasts DNS PTR queries for a service name to the
//! mDNS group 224.0.0.251:5353, listens for replies on the same group, and
//! decodes each reply into a [`Response`] carrying the advertised hostname
//! and socket address, when present.
//!
//! This crate holds the protocol decisions: how the shared multicast socket
//! must be configured, which query is sent, and what each received datagram
//! yields. The blocking socket work itself (binding, joining the group,
//! sending and receiving datagrams) is left to the caller, who drives it with
//! the plain values these functions take and return.

mod addr;
mod error;
mod query;
mod records;
mod response;
mod service_name;
mod session;
mod step;

pub use addr::{Ipv4Address, SocketAddressV4, MDNS_PORT, RECEIVE_BUFFER_LEN};
pub use addr::{mdns_group, mdns_group_address, loopback_address, unspecified_address};
pub use addr::{spec_mdns_group, spec_loopback_address, spec_unspecified_address};
pub use error::Error;
pub use query::{build_query, query_bytes, MAX_QUERY_NAME_LEN};
pub use records::{first_address_for, first_srv, response_address, response_hostname};
pub use records::{Record, RecordKind};
pub use response::{lemma_no_address_records_yield_absent_fields, opt_name_view, Response};
pub use service_name::{check_service_name, labels_within_limit, valid_service_name, window_has_dot};
pub use session::{
    is_session_config_for, lemma_loopback_governs_join_interface, lemma_sessions_can_share_port,
    session_config, SessionConfig,
};
pub use step::{new_receive_buffer, parsed_records, process_datagram, ListenStep};
