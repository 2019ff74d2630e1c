use vstd::prelude::*;
use netlink_packet_route::address::AddressAttribute;

verus! {

/// Declares `netlink_packet_route::address::AddressAttribute` so that it can
/// stand in fields and signatures. Address attributes are carried through
/// unchanged and never inspected, so the type stays opaque.
#[verifier::external_type_specification]
#[verifier::external_body]
pub struct ExAddressAttribute(AddressAttribute);

/// One attribute of a link-dump reply, reduced to what the queries read:
/// either the interface-name attribute with its value, or any other
/// attribute, which the queries ignore.
#[derive(Debug, Clone, PartialEq, Eq)]
pub enum LinkAttr {
    IfName(String),
    Other,
}

/// One reply message of a link dump: the interface index from the message
/// header, and the message's attribute list in reply order.
#[derive(Debug, Clone, PartialEq, Eq)]
pub struct LinkReply {
    pub index: u32,
    pub attrs: Vec<LinkAttr>,
}

/// A network interface as reported by a link dump: its kernel index and its
/// name, taken from an interface-name attribute of the reply.
#[derive(Debug, Clone, PartialEq, Eq)]
pub struct Link {
    pub name: String,
    pub index: u32,
}

/// The fixed-size header of an address reply, copied field by field from the
/// raw kernel message.
#[derive(Debug, Clone, Copy, PartialEq, Eq, Structural)]
pub struct AddressHeader {
    pub family: u8,
    pub prefix_len: u8,
    pub flags: u8,
    pub scope: u8,
    pub index: u32,
}

impl Default for AddressHeader {
    /// The all-zero header, the value each field takes when absent.
    fn default() -> (r: AddressHeader)
        ensures
            r == (AddressHeader { family: 0, prefix_len: 0, flags: 0, scope: 0, index: 0 }),
    {
        AddressHeader { family: 0, prefix_len: 0, flags: 0, scope: 0, index: 0 }
    }
}

/// One reply message of an address dump: the five header fields as plain
/// integers, and the message's attribute list, which is opaque here.
#[derive(Debug, Clone, PartialEq, Eq)]
pub struct AddressReply {
    pub family: u8,
    pub prefix_len: u8,
    pub flags: u8,
    pub scope: u8,
    pub index: u32,
    pub nlas: Vec<AddressAttribute>,
}

/// An address record as the resolver emits it: the header copied from the
/// reply, and the reply's attribute list passed through unmodified.
#[derive(Debug, Clone, PartialEq, Eq)]
pub struct AddressMessage {
    pub header: AddressHeader,
    pub nlas: Vec<AddressAttribute>,
}

impl Default for AddressMessage {
    /// The empty record: an all-zero header and no attributes.
    fn default() -> (r: AddressMessage)
        ensures
            r.header == (AddressHeader { family: 0, prefix_len: 0, flags: 0, scope: 0, index: 0 }),
            r.nlas@.len() == 0,
    {
        AddressMessage {
            header: AddressHeader { family: 0, prefix_len: 0, flags: 0, scope: 0, index: 0 },
            nlas: Vec::new(),
        }
    }
}

/// The one error kind of this library: any failure that the netlink client
/// surfaced while sending a request or decoding a reply, carried as text.
#[derive(Debug, Clone, PartialEq, Eq)]
pub struct NetlinkError {
    pub message: String,
}

} // verus!
