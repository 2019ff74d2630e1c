//! Resolving one interface's addresses: take the first reply of a
//! name-filtered link dump, and turn every reply of the address dump issued
//! for that interface's index into a plain address record.

use vstd::prelude::*;
use crate::types::{AddressHeader, AddressMessage, AddressReply, LinkReply, NetlinkError};

verus! {

/// The header an emitted record carries: the reply's five header fields,
/// each copied as it stands.
pub open spec fn header_of_reply(r: AddressReply) -> AddressHeader {
    AddressHeader {
        family: r.family,
        prefix_len: r.prefix_len,
        flags: r.flags,
        scope: r.scope,
        index: r.index,
    }
}

/// The record one address reply becomes: the copied header, and the reply's
/// attribute list unchanged.
pub open spec fn message_of_reply(r: AddressReply) -> AddressMessage {
    AddressMessage { header: header_of_reply(r), nlas: r.nlas }
}

/// The records of a whole address dump, in reply order.
pub open spec fn messages_of_replies(rs: Seq<AddressReply>) -> Seq<AddressMessage> {
    rs.map_values(|r: AddressReply| message_of_reply(r))
}

/// Every emitted record is a verbatim copy of its reply: each header field
/// equals the reply's field, and the attribute list is passed through
/// unmodified.
pub proof fn lemma_message_copies_reply(r: AddressReply)
    ensures
        message_of_reply(r).header.family == r.family,
        message_of_reply(r).header.prefix_len == r.prefix_len,
        message_of_reply(r).header.flags == r.flags,
        message_of_reply(r).header.scope == r.scope,
        message_of_reply(r).header.index == r.index,
        message_of_reply(r).nlas == r.nlas,
{
}

proof fn lemma_messages_take_snoc(rs: Seq<AddressReply>, i: int)
    requires
        0 <= i < rs.len(),
    ensures
        messages_of_replies(rs.take(i + 1))
            == messages_of_replies(rs.take(i)).push(message_of_reply(rs[i])),
{
    assert(messages_of_replies(rs.take(i + 1))
        =~= messages_of_replies(rs.take(i)).push(message_of_reply(rs[i])));
}

/// The diagnostic the resolver emits when no link matches the given name.
pub open spec fn spec_not_found_message(name: Seq<char>) -> Seq<char> {
    "link "@ + name + " not found"@
}

/// Build the diagnostic for a name that matched no link.
pub fn not_found_message(name: &str) -> (m: String)
    ensures
        m@ == spec_not_found_message(name@),
{
    let mut s = String::from_str("link ");
    s.append(name);
    s.append(" not found");
    s
}

/// Decide the address query from the first reply of the name-filtered link
/// dump: no reply means the interface does not exist and no address query
/// is issued; otherwise the query uses the first reply's header index.
pub fn resolve_link_index(first: &Option<LinkReply>) -> (r: Option<u32>)
    ensures
        *first is None ==> r is None,
        *first matches Some(l) ==> r matches Some(ix) && ix == l.index,
{
    match first {
        Some(l) => Some(l.index),
        None => None,
    }
}

/// Copy one address reply into the record the resolver emits.
pub fn address_from_reply(reply: AddressReply) -> (m: AddressMessage)
    ensures
        m == message_of_reply(reply),
{
    AddressMessage {
        header: AddressHeader {
            family: reply.family,
            prefix_len: reply.prefix_len,
            flags: reply.flags,
            scope: reply.scope,
            index: reply.index,
        },
        nlas: reply.nlas,
    }
}

/// Copy every reply of an address dump, in reply order.
pub fn addresses_from_replies(replies: Vec<AddressReply>) -> (out: Vec<AddressMessage>)
    ensures
        out@ == messages_of_replies(replies@),
{
    let ghost orig = replies@;
    let mut replies = replies;
    let mut out: Vec<AddressMessage> = Vec::new();
    while replies.len() > 0
        invariant
            out@.len() + replies@.len() == orig.len(),
            replies@ == orig.skip(out@.len() as int),
            out@ == messages_of_replies(orig.take(out@.len() as int)),
        decreases replies@.len(),
    {
        let ghost k = out@.len() as int;
        proof {
            lemma_messages_take_snoc(orig, k);
        }
        let r = replies.remove(0);
        proof {
            assert(r == orig[k]);
            assert(orig.skip(k).remove(0) =~= orig.skip(k + 1));
        }
        out.push(address_from_reply(r));
    }
    proof {
        assert(orig.take(out@.len() as int) =~= orig);
    }
    out
}

/// The whole resolution, given the outcome of its two queries: a failure of
/// the link query is surfaced as the error itself; a link query with no
/// reply yields the empty record list, not an error; with a link resolved, a
/// failure of the address dump is surfaced as the error itself, and a
/// complete address dump yields one record per reply, in reply order.
pub fn get_address_of_link(
    first_link: Result<Option<LinkReply>, NetlinkError>,
    addr_dump: Result<Vec<AddressReply>, NetlinkError>,
) -> (r: Result<Vec<AddressMessage>, NetlinkError>)
    ensures
        first_link matches Err(e) ==> (r matches Err(e2) && e2 == e),
        first_link matches Ok(f) && f is None ==> (r matches Ok(v) && v@.len() == 0),
        first_link matches Ok(f) && f is Some && addr_dump is Err ==> (r matches Err(e2) && e2
            == addr_dump->Err_0),
        first_link matches Ok(f) && f is Some && addr_dump is Ok ==> (r matches Ok(v) && v@
            == messages_of_replies(addr_dump->Ok_0@)),
{
    match first_link {
        Err(e) => Err(e),
        Ok(None) => Ok(Vec::new()),
        Ok(Some(_)) => match addr_dump {
            Err(e) => Err(e),
            Ok(replies) => Ok(addresses_from_replies(replies)),
        },
    }
}

} // verus!
