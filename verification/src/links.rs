//! Listing all links: scan every reply of a link dump for interface-name
//! attributes and emit one `Link` per name found, in reply order.

use vstd::prelude::*;
use crate::types::{Link, LinkAttr, LinkReply, NetlinkError};

verus! {

/// What one `Link` stands for in specifications: its index and the
/// characters of its name.
pub open spec fn link_view(l: Link) -> (u32, Seq<char>) {
    (l.index, l.name@)
}

/// A sequence of emitted links, as index/name pairs.
pub open spec fn links_view(s: Seq<Link>) -> Seq<(u32, Seq<char>)> {
    s.map_values(|l: Link| link_view(l))
}

/// The names that one attribute contributes: the value of an interface-name
/// attribute, nothing for any other attribute.
pub open spec fn names_of_attr(a: LinkAttr) -> Seq<Seq<char>> {
    match a {
        LinkAttr::IfName(n) => seq![n@],
        LinkAttr::Other => Seq::empty(),
    }
}

/// The interface names found in an attribute list, in attribute order.
pub open spec fn attr_names(attrs: Seq<LinkAttr>) -> Seq<Seq<char>>
    decreases attrs.len(),
{
    if attrs.len() == 0 {
        Seq::empty()
    } else {
        attr_names(attrs.drop_last()) + names_of_attr(attrs.last())
    }
}

/// Each of the given names paired with one interface index.
pub open spec fn links_at_index(index: u32, names: Seq<Seq<char>>) -> Seq<(u32, Seq<char>)> {
    names.map_values(|nm: Seq<char>| (index, nm))
}

/// The links that one reply contributes: one per interface-name attribute,
/// each carrying the reply's header index.
pub open spec fn links_of_reply(r: LinkReply) -> Seq<(u32, Seq<char>)> {
    links_at_index(r.index, attr_names(r.attrs@))
}

/// The links of a whole dump: the links of each reply, in reply order.
pub open spec fn links_of_replies(rs: Seq<LinkReply>) -> Seq<(u32, Seq<char>)>
    decreases rs.len(),
{
    if rs.len() == 0 {
        Seq::empty()
    } else {
        links_of_replies(rs.drop_last()) + links_of_reply(rs.last())
    }
}

/// Splitting an attribute list splits its names.
pub proof fn lemma_attr_names_add(a: Seq<LinkAttr>, b: Seq<LinkAttr>)
    ensures
        attr_names(a + b) == attr_names(a) + attr_names(b),
    decreases b.len(),
{
    if b.len() == 0 {
        assert(a + b =~= a);
        assert(attr_names(a) + attr_names(b) =~= attr_names(a));
    } else {
        assert((a + b).drop_last() =~= a + b.drop_last());
        assert((a + b).last() == b.last());
        lemma_attr_names_add(a, b.drop_last());
        assert(attr_names(a) + attr_names(b)
            =~= attr_names(a) + attr_names(b.drop_last()) + names_of_attr(b.last()));
    }
}

/// Splitting a dump splits its links.
pub proof fn lemma_links_of_replies_add(a: Seq<LinkReply>, b: Seq<LinkReply>)
    ensures
        links_of_replies(a + b) == links_of_replies(a) + links_of_replies(b),
    decreases b.len(),
{
    if b.len() == 0 {
        assert(a + b =~= a);
        assert(links_of_replies(a) + links_of_replies(b) =~= links_of_replies(a));
    } else {
        assert((a + b).drop_last() =~= a + b.drop_last());
        assert((a + b).last() == b.last());
        lemma_links_of_replies_add(a, b.drop_last());
        assert(links_of_replies(a) + links_of_replies(b)
            =~= links_of_replies(a) + links_of_replies(b.drop_last())
                + links_of_reply(b.last()));
    }
}

proof fn lemma_links_at_index_add(ix: u32, a: Seq<Seq<char>>, b: Seq<Seq<char>>)
    ensures
        links_at_index(ix, a + b) == links_at_index(ix, a) + links_at_index(ix, b),
{
    assert(links_at_index(ix, a + b) =~= links_at_index(ix, a) + links_at_index(ix, b));
}

proof fn lemma_links_view_push(s: Seq<Link>, l: Link)
    ensures
        links_view(s.push(l)) == links_view(s).push(link_view(l)),
{
    assert(links_view(s.push(l)) =~= links_view(s).push(link_view(l)));
}

proof fn lemma_links_view_add(a: Seq<Link>, b: Seq<Link>)
    ensures
        links_view(a + b) == links_view(a) + links_view(b),
{
    assert(links_view(a + b) =~= links_view(a) + links_view(b));
}

proof fn lemma_attr_names_take_snoc(attrs: Seq<LinkAttr>, i: int)
    requires
        0 <= i < attrs.len(),
    ensures
        attr_names(attrs.take(i + 1)) == attr_names(attrs.take(i)) + names_of_attr(attrs[i]),
{
    assert(attrs.take(i + 1).drop_last() =~= attrs.take(i));
    assert(attrs.take(i + 1).last() == attrs[i]);
}

proof fn lemma_links_of_replies_take_snoc(rs: Seq<LinkReply>, i: int)
    requires
        0 <= i < rs.len(),
    ensures
        links_of_replies(rs.take(i + 1))
            == links_of_replies(rs.take(i)) + links_of_reply(rs[i]),
{
    assert(rs.take(i + 1).drop_last() =~= rs.take(i));
    assert(rs.take(i + 1).last() == rs[i]);
}

proof fn lemma_attr_names_singleton(a: LinkAttr)
    ensures
        attr_names(seq![a]) == names_of_attr(a),
{
    let s = seq![a];
    assert(s.len() == 1);
    assert(s.drop_last() =~= Seq::<LinkAttr>::empty());
    assert(s.last() == a);
    assert(attr_names(Seq::<LinkAttr>::empty()) == Seq::<Seq<char>>::empty());
    assert(attr_names(s) == attr_names(s.drop_last()) + names_of_attr(s.last()));
    assert(Seq::<Seq<char>>::empty() + names_of_attr(a) =~= names_of_attr(a));
}

proof fn lemma_links_of_replies_singleton(r: LinkReply)
    ensures
        links_of_replies(seq![r]) == links_of_reply(r),
{
    let s = seq![r];
    assert(s.len() == 1);
    assert(s.drop_last() =~= Seq::<LinkReply>::empty());
    assert(s.last() == r);
    assert(links_of_replies(Seq::<LinkReply>::empty()) == Seq::<(u32, Seq<char>)>::empty());
    assert(links_of_replies(s) == links_of_replies(s.drop_last()) + links_of_reply(s.last()));
    assert(Seq::<(u32, Seq<char>)>::empty() + links_of_reply(r) =~= links_of_reply(r));
}

/// Reply order is preserved: the listing is the links of the replies before
/// a given reply, then that reply's links, then the links of the replies
/// after it.
pub proof fn lemma_links_preserve_reply_order(rs: Seq<LinkReply>, i: int)
    requires
        0 <= i < rs.len(),
    ensures
        links_of_replies(rs) == links_of_replies(rs.take(i)) + links_of_reply(rs[i])
            + links_of_replies(rs.skip(i + 1)),
{
    assert(rs =~= rs.take(i) + seq![rs[i]] + rs.skip(i + 1));
    lemma_links_of_replies_add(rs.take(i) + seq![rs[i]], rs.skip(i + 1));
    lemma_links_of_replies_add(rs.take(i), seq![rs[i]]);
    lemma_links_of_replies_singleton(rs[i]);
}

/// A reply that carries an interface-name attribute makes the listing emit
/// a link whose index is the reply's header index and whose name is that
/// attribute's value.
pub proof fn lemma_named_attr_emits_link(rs: Seq<LinkReply>, i: int, j: int)
    requires
        0 <= i < rs.len(),
        0 <= j < rs[i].attrs@.len(),
        rs[i].attrs@[j] is IfName,
    ensures
        links_of_replies(rs).contains((rs[i].index, (rs[i].attrs@[j]->0)@)),
{
    let r = rs[i];
    let attrs = r.attrs@;
    let nm = (attrs[j]->0)@;
    assert(attrs =~= attrs.take(j) + seq![attrs[j]] + attrs.skip(j + 1));
    lemma_attr_names_add(attrs.take(j) + seq![attrs[j]], attrs.skip(j + 1));
    lemma_attr_names_add(attrs.take(j), seq![attrs[j]]);
    lemma_attr_names_singleton(attrs[j]);
    let p = attr_names(attrs.take(j)).len() as int;
    assert(attr_names(attrs)[p] == nm);
    assert(links_of_reply(r)[p] == (r.index, nm));
    lemma_links_preserve_reply_order(rs, i);
    let q = links_of_replies(rs.take(i)).len() as int + p;
    assert(links_of_replies(rs)[q] == (r.index, nm));
    assert(links_of_replies(rs).contains((r.index, nm)));
}

proof fn lemma_attr_names_all_other(attrs: Seq<LinkAttr>)
    requires
        forall|j: int| 0 <= j < attrs.len() ==> !(attrs[j] is IfName),
    ensures
        attr_names(attrs) == Seq::<Seq<char>>::empty(),
    decreases attrs.len(),
{
    if attrs.len() > 0 {
        lemma_attr_names_all_other(attrs.drop_last());
        assert(names_of_attr(attrs.last()) =~= Seq::<Seq<char>>::empty());
        assert(Seq::<Seq<char>>::empty() + Seq::<Seq<char>>::empty()
            =~= Seq::<Seq<char>>::empty());
    }
}

/// A reply without an interface-name attribute makes the listing emit no
/// link at all.
pub proof fn lemma_reply_without_name_emits_nothing(r: LinkReply)
    requires
        forall|j: int| 0 <= j < r.attrs@.len() ==> !(r.attrs@[j] is IfName),
    ensures
        links_of_reply(r) == Seq::<(u32, Seq<char>)>::empty(),
{
    lemma_attr_names_all_other(r.attrs@);
    assert(links_at_index(r.index, Seq::<Seq<char>>::empty())
        =~= Seq::<(u32, Seq<char>)>::empty());
}

/// Scan one reply's attribute list and emit one `Link` per interface-name
/// attribute, all carrying the reply's header index, in attribute order.
pub fn links_in_reply(reply: &LinkReply) -> (out: Vec<Link>)
    ensures
        links_view(out@) == links_of_reply(*reply),
{
    let mut out: Vec<Link> = Vec::new();
    let n = reply.attrs.len();
    let mut i: usize = 0;
    while i < n
        invariant
            n == reply.attrs@.len(),
            i <= n,
            links_view(out@) == links_at_index(reply.index, attr_names(
                reply.attrs@.take(i as int),
            )),
        decreases n - i,
    {
        proof {
            lemma_attr_names_take_snoc(reply.attrs@, i as int);
            lemma_links_at_index_add(
                reply.index,
                attr_names(reply.attrs@.take(i as int)),
                names_of_attr(reply.attrs@[i as int]),
            );
        }
        let ghost prev = out@;
        match &reply.attrs[i] {
            LinkAttr::IfName(name) => {
                let link = Link { name: name.clone(), index: reply.index };
                let ghost lv = link_view(link);
                proof {
                    lemma_links_view_push(prev, link);
                    assert(links_at_index(reply.index, names_of_attr(reply.attrs@[i as int]))
                        =~= seq![lv]);
                }
                out.push(link);
                proof {
                    assert(links_view(prev).push(lv) =~= links_view(prev) + seq![lv]);
                }
            },
            LinkAttr::Other => {
                proof {
                    assert(links_at_index(reply.index, names_of_attr(reply.attrs@[i as int]))
                        =~= Seq::<(u32, Seq<char>)>::empty());
                    assert(links_view(prev) + Seq::<(u32, Seq<char>)>::empty()
                        =~= links_view(prev));
                }
            },
        }
        i = i + 1;
    }
    proof {
        assert(reply.attrs@.take(n as int) =~= reply.attrs@);
    }
    out
}

/// Emit the links of a whole dump, reply by reply, in reply order.
pub fn links_from_replies(replies: &Vec<LinkReply>) -> (out: Vec<Link>)
    ensures
        links_view(out@) == links_of_replies(replies@),
{
    let mut out: Vec<Link> = Vec::new();
    let n = replies.len();
    let mut i: usize = 0;
    while i < n
        invariant
            n == replies@.len(),
            i <= n,
            links_view(out@) == links_of_replies(replies@.take(i as int)),
        decreases n - i,
    {
        proof {
            lemma_links_of_replies_take_snoc(replies@, i as int);
        }
        let mut part = links_in_reply(&replies[i]);
        let ghost old_out = out@;
        let ghost old_part = part@;
        out.append(&mut part);
        proof {
            lemma_links_view_add(old_out, old_part);
        }
        i = i + 1;
    }
    proof {
        assert(replies@.take(n as int) =~= replies@);
    }
    out
}

/// The whole listing, given the outcome of the dump request: a failed
/// stream is surfaced as the error itself, with no partial listing; a
/// complete stream yields the links of its replies.
pub fn all_links(dump: Result<Vec<LinkReply>, NetlinkError>) -> (r: Result<
    Vec<Link>,
    NetlinkError,
>)
    ensures
        dump matches Err(e) ==> r matches Err(e2) && e2 == e,
        dump matches Ok(replies) ==> r matches Ok(links) && links_view(links@)
            == links_of_replies(replies@),
{
    match dump {
        Err(e) => Err(e),
        Ok(replies) => Ok(links_from_replies(&replies)),
    }
}

} // verus!
