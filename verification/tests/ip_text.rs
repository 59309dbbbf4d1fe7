use testainer::errors::{ConfigIssue, Error};
use testainer::host::{rs_host_addr, rs_host_destroy, rs_host_host_gateway_linux, RsHost};
use testainer::ip4::{
    rs_ipv4_addr_broadcast, rs_ipv4_addr_from_bits, rs_ipv4_addr_from_octets,
    rs_ipv4_addr_localhost, rs_ipv4_addr_new, rs_ipv4_addr_unspecified,
};
use testainer::ip6::{
    rs_ipv6_addr_from_bits, rs_ipv6_addr_from_octets, rs_ipv6_addr_from_segments,
    rs_ipv6_addr_localhost, rs_ipv6_addr_new, rs_ipv6_addr_unspecified,
};
use testainer::ipaddr::{rs_ip_addr_from_ipv4, rs_ip_addr_from_ipv6, RsIpAddr};
use testainer::url_host::{
    rs_url_host_domain, rs_url_host_from_ipv4, rs_url_host_from_ipv6,
};

fn parsed_v4(text: &str) -> [u8; 4] {
    match rs_host_addr(text.to_string()) {
        Ok(RsHost::Addr { addr: RsIpAddr::V4 { addr } }) => addr.octets,
        other => panic!("{} did not parse as IPv4: {:?}", text, other),
    }
}

fn parsed_v6(text: &str) -> [u16; 8] {
    match rs_host_addr(text.to_string()) {
        Ok(RsHost::Addr { addr: RsIpAddr::V6 { addr } }) => addr.segments,
        other => panic!("{} did not parse as IPv6: {:?}", text, other),
    }
}

fn rejected(text: &str) {
    match rs_host_addr(text.to_string()) {
        Err(Error::ConfigurationError { issue: ConfigIssue::MalformedHostAddress }) => {},
        other => panic!("{} was not rejected: {:?}", text, other),
    }
}

#[test]
fn ipv4_texts_parse_to_their_octets() {
    assert_eq!(parsed_v4("127.0.0.1"), [127, 0, 0, 1]);
    assert_eq!(parsed_v4("0.0.0.0"), [0, 0, 0, 0]);
    assert_eq!(parsed_v4("255.255.255.255"), [255, 255, 255, 255]);
    assert_eq!(parsed_v4("192.168.1.17"), [192, 168, 1, 17]);
}

#[test]
fn malformed_ipv4_texts_are_rejected() {
    rejected("");
    rejected("1.2.3");
    rejected("1.2.3.4.5");
    rejected("256.1.1.1");
    rejected("01.2.3.4");
    rejected("1.2.3.04");
    rejected("1.2.3.4 ");
    rejected("a.b.c.d");
    rejected("1..2.3");
    rejected("localhost");
}

#[test]
fn ipv6_full_form_parses() {
    assert_eq!(parsed_v6("1:2:3:4:5:6:7:8"), [1, 2, 3, 4, 5, 6, 7, 8]);
    assert_eq!(
        parsed_v6("2001:db8:0:0:1:0:0:1"),
        [0x2001, 0xdb8, 0, 0, 1, 0, 0, 1]
    );
    assert_eq!(
        parsed_v6("FE80:0000:0000:0000:0000:0000:0000:0001"),
        [0xfe80, 0, 0, 0, 0, 0, 0, 1]
    );
}

#[test]
fn ipv6_compressed_forms_parse() {
    assert_eq!(parsed_v6("::"), [0, 0, 0, 0, 0, 0, 0, 0]);
    assert_eq!(parsed_v6("::1"), [0, 0, 0, 0, 0, 0, 0, 1]);
    assert_eq!(parsed_v6("1::"), [1, 0, 0, 0, 0, 0, 0, 0]);
    assert_eq!(parsed_v6("fe80::1"), [0xfe80, 0, 0, 0, 0, 0, 0, 1]);
    assert_eq!(parsed_v6("1:2::7:8"), [1, 2, 0, 0, 0, 0, 7, 8]);
    assert_eq!(parsed_v6("1:2:3:4:5:6:7::"), [1, 2, 3, 4, 5, 6, 7, 0]);
    assert_eq!(parsed_v6("::2:3:4:5:6:7:8"), [0, 2, 3, 4, 5, 6, 7, 8]);
}

#[test]
fn ipv6_with_embedded_ipv4_parses() {
    assert_eq!(
        parsed_v6("::ffff:192.0.2.1"),
        [0, 0, 0, 0, 0, 0xffff, 0xc000, 0x0201]
    );
    assert_eq!(
        parsed_v6("1:2:3:4:5:6:192.0.2.1"),
        [1, 2, 3, 4, 5, 6, 0xc000, 0x0201]
    );
}

#[test]
fn malformed_ipv6_texts_are_rejected() {
    rejected(":");
    rejected(":::");
    rejected("1::2::3");
    rejected("1:2:3:4:5:6:7");
    rejected("1:2:3:4:5:6:7:8:9");
    rejected("1:2:3:4:5:6:7:8::");
    rejected("::1:2:3:4:5:6:7:8");
    rejected("12345::");
    rejected("g::");
    rejected("1:2");
    rejected("fe80::1%eth0");
    rejected("1:2:3:4:5:192.0.2.1:7");
}

#[test]
fn host_gateway_is_its_own_variant() {
    let gw = rs_host_host_gateway_linux();
    assert_eq!(gw, RsHost::HostGateway);
    rs_host_destroy(gw);
}

#[test]
fn ipv4_constructors_and_bits_round_trip() {
    let a = rs_ipv4_addr_new(192, 168, 1, 1);
    assert_eq!(a.rs_ipv4_addr_to_bits(), 0xc0a80101);
    let b = rs_ipv4_addr_from_bits(0xc0a80101);
    assert_eq!(b.rs_ipv4_addr_octets(), [192, 168, 1, 1]);
    assert_eq!(rs_ipv4_addr_localhost().octets, [127, 0, 0, 1]);
    assert_eq!(rs_ipv4_addr_unspecified().octets, [0, 0, 0, 0]);
    assert_eq!(rs_ipv4_addr_broadcast().octets, [255, 255, 255, 255]);
    assert_eq!(rs_ipv4_addr_from_octets([10, 0, 0, 7]).octets, [10, 0, 0, 7]);
}

#[test]
fn ipv4_classification_predicates() {
    assert!(rs_ipv4_addr_localhost().rs_ipv4_addr_is_loopback());
    assert!(rs_ipv4_addr_unspecified().rs_ipv4_addr_is_unspecified());
    assert!(rs_ipv4_addr_broadcast().rs_ipv4_addr_is_broadcast());
    assert!(rs_ipv4_addr_new(10, 1, 2, 3).rs_ipv4_addr_is_private());
    assert!(rs_ipv4_addr_new(172, 16, 0, 1).rs_ipv4_addr_is_private());
    assert!(rs_ipv4_addr_new(172, 32, 0, 1).rs_ipv4_addr_is_private() == false);
    assert!(rs_ipv4_addr_new(192, 168, 0, 1).rs_ipv4_addr_is_private());
    assert!(rs_ipv4_addr_new(169, 254, 1, 1).rs_ipv4_addr_is_link_local());
    assert!(rs_ipv4_addr_new(224, 0, 0, 1).rs_ipv4_addr_is_multicast());
    assert!(rs_ipv4_addr_new(192, 0, 2, 9).rs_ipv4_addr_is_documentation());
}

#[test]
fn ipv6_constructors_agree() {
    let a = rs_ipv6_addr_new(1, 2, 3, 4, 5, 6, 7, 8);
    assert_eq!(a.rs_ipv6_addr_segments(), [1, 2, 3, 4, 5, 6, 7, 8]);
    let bits = a.rs_ipv6_addr_to_bits_pair();
    let b = rs_ipv6_addr_from_bits(bits[0], bits[1]);
    assert_eq!(b.segments, a.segments);
    let o = a.rs_ipv6_addr_octets();
    let c = rs_ipv6_addr_from_octets(o);
    assert_eq!(c.segments, a.segments);
    let d = rs_ipv6_addr_from_segments([1, 2, 3, 4, 5, 6, 7, 8]);
    assert_eq!(d.segments, a.segments);
}

#[test]
fn ipv6_classification_predicates() {
    assert!(rs_ipv6_addr_localhost().rs_ipv6_addr_is_loopback());
    assert!(rs_ipv6_addr_unspecified().rs_ipv6_addr_is_unspecified());
    assert!(rs_ipv6_addr_new(0xfe80, 0, 0, 0, 0, 0, 0, 1).rs_ipv6_addr_is_unicast_link_local());
    assert!(rs_ipv6_addr_new(0xfc01, 0, 0, 0, 0, 0, 0, 1).rs_ipv6_addr_is_unique_local());
    assert!(rs_ipv6_addr_new(0xff02, 0, 0, 0, 0, 0, 0, 1).rs_ipv6_addr_is_multicast());
}

#[test]
fn mapped_addresses_canonicalize_to_ipv4() {
    let mapped = rs_ipv6_addr_new(0, 0, 0, 0, 0, 0xffff, 0xc000, 0x0201);
    assert!(mapped.rs_ipv6_addr_is_ipv4_mapped());
    let ip = rs_ip_addr_from_ipv6(mapped);
    assert!(ip.rs_ip_addr_is_ipv6());
    let canonical = ip.rs_ip_addr_to_canonical();
    assert!(canonical.rs_ip_addr_is_ipv4());
    assert_eq!(canonical.rs_ip_addr_to_ipv4().unwrap().octets, [192, 0, 2, 1]);
    // A plain IPv6 address stays as it is.
    let plain = rs_ip_addr_from_ipv6(rs_ipv6_addr_localhost());
    assert!(plain.rs_ip_addr_to_canonical().rs_ip_addr_is_ipv6());
    // The same conversion straight from the IPv6 value.
    let direct = mapped.rs_ipv6_addr_to_canonical();
    assert_eq!(direct.rs_ip_addr_to_ipv4().unwrap().octets, [192, 0, 2, 1]);
}

#[test]
fn family_conversions_fail_on_the_wrong_variant() {
    let v4 = rs_ip_addr_from_ipv4(rs_ipv4_addr_localhost());
    assert!(v4.rs_ip_addr_to_ipv4().is_ok());
    assert_eq!(v4.rs_ip_addr_to_ipv6().unwrap_err(), Error::TypeMismatch);
    let v6 = rs_ip_addr_from_ipv6(rs_ipv6_addr_localhost());
    assert!(v6.rs_ip_addr_to_ipv6().is_ok());
    assert_eq!(v6.rs_ip_addr_to_ipv4().unwrap_err(), Error::TypeMismatch);
    assert!(v4.rs_ip_addr_is_loopback());
    assert!(v6.rs_ip_addr_is_loopback());
}

#[test]
fn ipv4_text_is_the_dotted_quad() {
    assert_eq!(rs_ipv4_addr_new(192, 168, 1, 17).rs_ipv4_addr_to_string(), "192.168.1.17");
    assert_eq!(rs_ipv4_addr_localhost().rs_ipv4_addr_to_string(), "127.0.0.1");
    assert_eq!(rs_ipv4_addr_unspecified().rs_ipv4_addr_to_string(), "0.0.0.0");
    assert_eq!(rs_ipv4_addr_broadcast().rs_ipv4_addr_to_string(), "255.255.255.255");
}

#[test]
fn ipv6_text_compresses_the_longest_zero_run() {
    assert_eq!(rs_ipv6_addr_unspecified().rs_ipv6_addr_to_string(), "::");
    assert_eq!(rs_ipv6_addr_localhost().rs_ipv6_addr_to_string(), "::1");
    assert_eq!(
        rs_ipv6_addr_new(1, 0, 0, 0, 0, 0, 0, 0).rs_ipv6_addr_to_string(),
        "1::"
    );
    assert_eq!(
        rs_ipv6_addr_new(0x2001, 0xdb8, 0, 0, 0, 0, 0, 1).rs_ipv6_addr_to_string(),
        "2001:db8::1"
    );
    assert_eq!(
        rs_ipv6_addr_new(1, 2, 3, 4, 5, 6, 7, 8).rs_ipv6_addr_to_string(),
        "1:2:3:4:5:6:7:8"
    );
    // The leftmost of two equally long zero runs is compressed.
    assert_eq!(
        rs_ipv6_addr_new(1, 0, 0, 4, 5, 0, 0, 8).rs_ipv6_addr_to_string(),
        "1::4:5:0:0:8"
    );
    // A lone zero group is not compressed.
    assert_eq!(
        rs_ipv6_addr_new(1, 0, 3, 4, 5, 6, 7, 8).rs_ipv6_addr_to_string(),
        "1:0:3:4:5:6:7:8"
    );
}

#[test]
fn ipv4_mapped_text_uses_the_dotted_quad() {
    assert_eq!(
        rs_ipv6_addr_new(0, 0, 0, 0, 0, 0xffff, 0xc000, 0x0201).rs_ipv6_addr_to_string(),
        "::ffff:192.0.2.1"
    );
}

#[test]
fn formatted_addresses_parse_back() {
    let cases_v4 = [[0u8, 0, 0, 0], [127, 0, 0, 1], [10, 20, 30, 40], [255, 255, 255, 255]];
    for octets in cases_v4 {
        let text = rs_ipv4_addr_from_octets(octets).rs_ipv4_addr_to_string();
        assert_eq!(parsed_v4(&text), octets);
    }
    let cases_v6 = [
        [0u16, 0, 0, 0, 0, 0, 0, 0],
        [0, 0, 0, 0, 0, 0, 0, 1],
        [0xfe80, 0, 0, 0, 0x1234, 0, 0, 0xabcd],
        [1, 2, 3, 4, 5, 6, 7, 8],
        [0, 0, 0, 0, 0, 0xffff, 0xc0a8, 0x0101],
        [0xdead, 0, 0xbeef, 0, 0, 0, 0, 0],
    ];
    for segments in cases_v6 {
        let text = rs_ipv6_addr_from_segments(segments).rs_ipv6_addr_to_string();
        assert_eq!(parsed_v6(&text), segments);
    }
}

#[test]
fn ip_addr_text_follows_the_family() {
    let v4 = rs_ip_addr_from_ipv4(rs_ipv4_addr_new(192, 0, 2, 7));
    assert_eq!(v4.rs_ip_addr_to_string(), "192.0.2.7");
    let v6 = rs_ip_addr_from_ipv6(rs_ipv6_addr_localhost());
    assert_eq!(v6.rs_ip_addr_to_string(), "::1");
}

#[test]
fn url_host_text_brackets_ipv6() {
    assert_eq!(
        rs_url_host_domain("db.internal".to_string()).rs_url_host_to_string(),
        "db.internal"
    );
    assert_eq!(
        rs_url_host_from_ipv4(rs_ipv4_addr_localhost()).rs_url_host_to_string(),
        "127.0.0.1"
    );
    assert_eq!(
        rs_url_host_from_ipv6(rs_ipv6_addr_localhost()).rs_url_host_to_string(),
        "[::1]"
    );
}

#[test]
fn url_hosts_convert_only_within_their_variant() {
    let d = rs_url_host_domain("db.internal".to_string());
    assert!(d.rs_url_host_is_domain());
    assert_eq!(d.rs_url_host_to_domain().unwrap(), "db.internal");
    assert_eq!(d.rs_url_host_to_ipv4().unwrap_err(), Error::TypeMismatch);

    let h4 = rs_url_host_from_ipv4(rs_ipv4_addr_localhost());
    assert!(h4.rs_url_host_is_ipv4());
    assert_eq!(h4.rs_url_host_to_ipv4().unwrap().octets, [127, 0, 0, 1]);
    assert_eq!(h4.rs_url_host_to_domain().unwrap_err(), Error::TypeMismatch);

    let h6 = rs_url_host_from_ipv6(rs_ipv6_addr_localhost());
    assert!(h6.rs_url_host_is_ipv6());
    assert_eq!(h6.rs_url_host_to_ipv6().unwrap().segments, [0, 0, 0, 0, 0, 0, 0, 1]);
    assert_eq!(h6.rs_url_host_to_ipv4().unwrap_err(), Error::TypeMismatch);
    assert_eq!(h6.rs_url_host_clone(), h6);
}
