// Which texts are socket addresses.

use facingtime_core::server::address::{
    decimal_within, find, find_double_colon, group_count_at, hex_group_at, ipv4_at, ipv6_at,
    is_socket_address, octet_at, scoped_ipv6_at, socket_addr_v4, socket_addr_v6,
};

#[test]
fn ipv4_socket_addresses_are_accepted() {
    for address in [
        "127.0.0.1:8080",
        "0.0.0.0:0",
        "0.0.0.0:8080",
        "255.255.255.255:65535",
        "1.2.3.4:00080",
        "10.0.0.1:0000000000000000000000080",
        "192.168.1.10:443",
        "127.0.0.1:0",
    ] {
        assert!(is_socket_address(address), "{address}");
        assert!(socket_addr_v4(address.as_bytes()), "{address}");
        assert!(!socket_addr_v6(address.as_bytes()), "{address}");
    }
}

#[test]
fn ipv6_socket_addresses_are_accepted() {
    for address in [
        "[::1]:8080",
        "[::]:0",
        "[1:2:3:4:5:6:7:8]:80",
        "[::ffff:1.2.3.4]:443",
        "[1:2:3:4:5:6:1.2.3.4]:1",
        "[fe80::1%3]:80",
        "[::1%4294967295]:80",
        "[1::]:80",
        "[1:2:3:4:5:6:7::]:80",
        "[::2:3:4:5:6:7:8]:80",
        "[ABCD:ef01::]:9",
        "[1:2:3:4:5::1.2.3.4]:80",
        "[0:0:0:0:0:0:0:0%0]:0",
        "[::1]:080",
        "[2001:db8::8a2e:370:7334]:65535",
    ] {
        assert!(is_socket_address(address), "{address}");
        assert!(socket_addr_v6(address.as_bytes()), "{address}");
        assert!(!socket_addr_v4(address.as_bytes()), "{address}");
    }
}

#[test]
fn other_texts_are_refused() {
    for address in [
        "",
        ":",
        "localhost:8080",
        "example.com:80",
        "127.0.0.1",
        "127.0.0.1:",
        ":8080",
        "127.0.0.1:65536",
        "127.0.0.1:99999999999999999999",
        "256.1.1.1:80",
        "01.2.3.4:80",
        "1.2.3.04:80",
        "1.2.3:80",
        "1.2.3.4.5:80",
        "1..3.4:80",
        "1.2.3.4:80 ",
        " 1.2.3.4:80",
        "1.2.3.4:-1",
        "1.2.3.4:+1",
        "1.2.3.4:8a",
        "1.2.3.4:80:80",
        "1.2.3.1000:80",
        "::1:80",
        "[::1]",
        "[::1]:",
        "[::1]8080",
        "[::1]::80",
        "[::1:80",
        "::1]:80",
        "[]:80",
        "[1:2:3:4:5:6:7:8:9]:80",
        "[1:2:3:4:5:6:7]:80",
        "[:::]:80",
        "[1::2::3]:80",
        "[12345::]:80",
        "[1.2.3.4::]:80",
        "[::1.2.3.4:5]:80",
        "[1:2:3:4:5:6:7:1.2.3.4]:80",
        "[1:2:3:4:5:6::1.2.3.4]:80",
        "[1:2:3:4:5:6:7::8]:80",
        "[1:2:3:4:5:6:7:8::]:80",
        "[::1%]:80",
        "[::1%eth0]:80",
        "[::1%4294967296]:80",
        "[::1%1%2]:80",
        "[g::]:80",
        "[:1:2:3:4:5:6:7]:80",
        "[1:2:3:4:5:6:7:]:80",
        "[::1.2.3]:80",
        "[::1.2.3.256]:80",
        "[::01.2.3.4]:80",
        "1.2.3.4:\u{663}",
        "\u{661}.2.3.4:80",
        "[::1]:80\n",
    ] {
        assert!(!is_socket_address(address), "{address}");
    }
}

#[test]
fn numbers_are_read_within_their_bounds() {
    let text = "x65535y".as_bytes();
    assert!(decimal_within(text, 1, 6, 65535));
    assert!(!decimal_within(text, 1, 6, 65534));
    assert!(!decimal_within(text, 1, 1, 65535));
    assert!(!decimal_within(text, 0, 6, 65535));
    assert!(!decimal_within(text, 1, 7, 65535));
    assert!(decimal_within("0000255".as_bytes(), 0, 7, 255));
    assert!(decimal_within("4294967295".as_bytes(), 0, 10, 4294967295));
    assert!(!decimal_within("4294967296".as_bytes(), 0, 10, 4294967295));
}

#[test]
fn octets_and_groups_are_told_apart() {
    assert!(octet_at("0".as_bytes(), 0, 1));
    assert!(octet_at("255".as_bytes(), 0, 3));
    assert!(!octet_at("256".as_bytes(), 0, 3));
    assert!(!octet_at("00".as_bytes(), 0, 2));
    assert!(!octet_at("0255".as_bytes(), 0, 4));
    assert!(!octet_at("".as_bytes(), 0, 0));
    assert!(hex_group_at("0".as_bytes(), 0, 1));
    assert!(hex_group_at("fFfF".as_bytes(), 0, 4));
    assert!(hex_group_at("0000".as_bytes(), 0, 4));
    assert!(!hex_group_at("00000".as_bytes(), 0, 5));
    assert!(!hex_group_at("g".as_bytes(), 0, 1));
    assert!(!hex_group_at("".as_bytes(), 0, 0));
}

#[test]
fn separators_are_found_first_from_the_left() {
    let text = "a:b::c:".as_bytes();
    assert_eq!(find(text, 0, 7, 58), 1);
    assert_eq!(find(text, 2, 7, 58), 3);
    assert_eq!(find(text, 0, 1, 58), 1);
    assert_eq!(find(text, 0, 7, 46), 7);
    assert_eq!(find_double_colon(text, 0, 7), 3);
    assert_eq!(find_double_colon(text, 4, 7), 7);
    assert_eq!(find_double_colon(text, 0, 4), 4);
}

#[test]
fn groups_are_counted() {
    let count = |text: &str, v4: bool| group_count_at(text.as_bytes(), 0, text.len(), v4);
    assert_eq!(count("", false), Some(0));
    assert_eq!(count("1", false), Some(1));
    assert_eq!(count("1:2:3", false), Some(3));
    assert_eq!(count("1:2:3:4:5:6:7:8", true), Some(8));
    assert_eq!(count("1:2:3:4:5:6:7:8:9", true), None);
    assert_eq!(count("1.2.3.4", true), Some(2));
    assert_eq!(count("1.2.3.4", false), None);
    assert_eq!(count("a:1.2.3.4", true), Some(3));
    assert_eq!(count("1.2.3.4:a", true), None);
    assert_eq!(count("1::2", true), None);
    assert_eq!(count(":1", true), None);
    assert_eq!(count("1:", true), None);
    assert_eq!(count("1:2:3:4:5:6:7:1.2.3.4", true), None);
}

#[test]
fn literals_of_both_families() {
    let v4 = |text: &str| ipv4_at(text.as_bytes(), 0, text.len());
    let v6 = |text: &str| ipv6_at(text.as_bytes(), 0, text.len());
    let scoped = |text: &str| scoped_ipv6_at(text.as_bytes(), 0, text.len());
    assert!(v4("1.2.3.4"));
    assert!(!v4("1.2.3"));
    assert!(!v4("1.2.3.4."));
    assert!(!v4(".1.2.3.4"));
    assert!(!v4(""));
    assert!(v6("::"));
    assert!(v6("::1"));
    assert!(!v6(""));
    assert!(!v6("1"));
    assert!(!v6("1.2.3.4"));
    assert!(v6("::1.2.3.4"));
    assert!(!v6("::1%1"));
    assert!(scoped("::1%1"));
    assert!(scoped("::1"));
    assert!(!scoped("%1"));
    assert!(ipv4_at("[1.2.3.4]".as_bytes(), 1, 8));
}
