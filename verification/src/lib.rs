//! Enumerates network interfaces and their addresses as reported by the
//! kernel's netlink routing subsystem. The netlink socket and the wire
//! protocol belong to an outside client; this library holds the verified
//! query logic: scanning link-dump replies for interface names, resolving a
//! name to a kernel index, and copying address replies into plain records.

pub mod addresses;
pub mod links;
pub mod types;

pub use types::{
    AddressHeader, AddressMessage, AddressReply, Link, LinkAttr, LinkReply, NetlinkError,
};
