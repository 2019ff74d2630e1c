use linkdump::addresses::{address_from_reply, addresses_from_replies, get_address_of_link, resolve_link_index};
use linkdump::links::{all_links, links_from_replies, links_in_reply};
use linkdump::types::{AddressHeader, AddressReply, LinkAttr, LinkReply, NetlinkError};
use netlink_packet_route::address::AddressAttribute;

fn err(text: &str) -> NetlinkError {
    NetlinkError { message: text.to_string() }
}

#[test]
fn two_links_in_reply_order() {
    let replies = vec![
        LinkReply { index: 1, attrs: vec![LinkAttr::IfName("lo".to_string())] },
        LinkReply { index: 2, attrs: vec![LinkAttr::IfName("eth0".to_string())] },
    ];
    let links = links_from_replies(&replies);
    assert_eq!(links.len(), 2);
    assert_eq!(links[0].index, 1);
    assert_eq!(links[0].name, "lo");
    assert_eq!(links[1].index, 2);
    assert_eq!(links[1].name, "eth0");
}

#[test]
fn named_attr_yields_link_other_attrs_ignored() {
    let reply = LinkReply {
        index: 7,
        attrs: vec![LinkAttr::Other, LinkAttr::IfName("eth1".to_string()), LinkAttr::Other],
    };
    let links = links_in_reply(&reply);
    assert_eq!(links.len(), 1);
    assert_eq!(links[0].index, 7);
    assert_eq!(links[0].name, "eth1");
}

#[test]
fn reply_without_name_yields_nothing() {
    let reply = LinkReply { index: 3, attrs: vec![LinkAttr::Other, LinkAttr::Other] };
    let links = links_in_reply(&reply);
    assert!(links.is_empty());
}

#[test]
fn reply_with_two_names_yields_two_links() {
    let reply = LinkReply {
        index: 4,
        attrs: vec![
            LinkAttr::IfName("a0".to_string()),
            LinkAttr::IfName("a1".to_string()),
        ],
    };
    let links = links_in_reply(&reply);
    assert_eq!(links.len(), 2);
    assert_eq!(links[0].index, 4);
    assert_eq!(links[0].name, "a0");
    assert_eq!(links[1].index, 4);
    assert_eq!(links[1].name, "a1");
}

#[test]
fn empty_dump_yields_empty_listing() {
    let links = links_from_replies(&Vec::new());
    assert!(links.is_empty());
}

#[test]
fn failed_dump_is_an_error_not_a_partial_listing() {
    let r = all_links(Err(err("netlink protocol error")));
    match r {
        Err(e) => assert_eq!(e.message, "netlink protocol error"),
        Ok(_) => panic!("a failed dump must surface the error"),
    }
}

#[test]
fn successful_dump_lists_links() {
    let replies = vec![LinkReply { index: 9, attrs: vec![LinkAttr::IfName("wg0".to_string())] }];
    let r = all_links(Ok(replies));
    let links = r.expect("a complete dump must succeed");
    assert_eq!(links.len(), 1);
    assert_eq!(links[0].index, 9);
    assert_eq!(links[0].name, "wg0");
}

#[test]
fn resolve_uses_first_reply_index() {
    let first = Some(LinkReply { index: 2, attrs: vec![LinkAttr::IfName("eth0".to_string())] });
    assert_eq!(resolve_link_index(&first), Some(2));
}

#[test]
fn resolve_without_reply_plans_no_query() {
    assert_eq!(resolve_link_index(&None), None);
}

#[test]
fn default_header_is_all_zero() {
    assert_eq!(
        AddressHeader::default(),
        AddressHeader { family: 0, prefix_len: 0, flags: 0, scope: 0, index: 0 }
    );
    let m = linkdump::types::AddressMessage::default();
    assert_eq!(m.header, AddressHeader::default());
    assert!(m.nlas.is_empty());
}

#[test]
fn address_header_is_copied_field_by_field() {
    let reply = AddressReply {
        family: 2,
        prefix_len: 24,
        flags: 128,
        scope: 254,
        index: 2,
        nlas: vec![AddressAttribute::Label("eth0".to_string()), AddressAttribute::RoutePriority(100)],
    };
    let m = address_from_reply(reply);
    assert_eq!(
        m.header,
        AddressHeader { family: 2, prefix_len: 24, flags: 128, scope: 254, index: 2 }
    );
    assert_eq!(
        m.nlas,
        vec![AddressAttribute::Label("eth0".to_string()), AddressAttribute::RoutePriority(100)]
    );
}

#[test]
fn address_dump_keeps_reply_order() {
    let replies = vec![
        AddressReply { family: 2, prefix_len: 24, flags: 0, scope: 0, index: 2, nlas: vec![] },
        AddressReply { family: 10, prefix_len: 64, flags: 0, scope: 253, index: 2, nlas: vec![] },
    ];
    let messages = addresses_from_replies(replies);
    assert_eq!(messages.len(), 2);
    assert_eq!(messages[0].header.family, 2);
    assert_eq!(messages[0].header.prefix_len, 24);
    assert_eq!(messages[1].header.family, 10);
    assert_eq!(messages[1].header.prefix_len, 64);
}

#[test]
fn resolved_link_yields_address_records() {
    let first = Some(LinkReply { index: 2, attrs: vec![LinkAttr::IfName("eth0".to_string())] });
    let dump = vec![AddressReply {
        family: 2,
        prefix_len: 24,
        flags: 0,
        scope: 0,
        index: 2,
        nlas: vec![],
    }];
    let r = get_address_of_link(Ok(first), Ok(dump));
    let messages = r.expect("a complete resolution must succeed");
    assert_eq!(messages.len(), 1);
    assert_eq!(
        messages[0].header,
        AddressHeader { family: 2, prefix_len: 24, flags: 0, scope: 0, index: 2 }
    );
    assert!(messages[0].nlas.is_empty());
}

#[test]
fn missing_link_diagnostic_names_the_link() {
    assert_eq!(
        linkdump::addresses::not_found_message("ppp99"),
        "link ppp99 not found"
    );
}

#[test]
fn missing_link_yields_empty_result_not_an_error() {
    let r = get_address_of_link(Ok(None), Ok(Vec::new()));
    let messages = r.expect("a missing link is not an error");
    assert!(messages.is_empty());
}

#[test]
fn failed_link_query_aborts_resolution() {
    let r = get_address_of_link(Err(err("link query failed")), Ok(Vec::new()));
    match r {
        Err(e) => assert_eq!(e.message, "link query failed"),
        Ok(_) => panic!("a failed link query must surface the error"),
    }
}

#[test]
fn failed_address_query_aborts_resolution() {
    let first = Some(LinkReply { index: 2, attrs: vec![LinkAttr::IfName("eth0".to_string())] });
    let r = get_address_of_link(Ok(first), Err(err("address query failed")));
    match r {
        Err(e) => assert_eq!(e.message, "address query failed"),
        Ok(_) => panic!("a failed address query must surface the error"),
    }
}
