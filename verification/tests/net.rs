use olvm::net::{
    decimal, iface_dev, iface_dev_at, is_valid_cidr, is_valid_ip, is_valid_ip_port, mac_from_bytes,
    net_dev, rand_mac,
};
use olvm::text::{char_len, chars_of, find_char, same_text, string_of, trim_chars};

#[test]
fn net_dev_prefixes_the_name() {
    assert_eq!(net_dev("lan").as_str(), "netlan");
    assert_eq!(net_dev("").as_str(), "net");
}

#[test]
fn iface_dev_truncates_to_ten_characters() {
    assert_eq!(iface_dev("vm1", 0).as_str(), "vmvm1.0");
    assert_eq!(iface_dev("abcdefghij", 3).as_str(), "vmabcdefghij.3");
    assert_eq!(iface_dev("abcdefghijk", 12).as_str(), "vmabcdefghij.12");
    assert_eq!(iface_dev("abcdefghijXYZ", 7).as_str(), iface_dev("abcdefghijQ", 7).as_str());
    assert_eq!(iface_dev("vm", -5).as_str(), "vmvm.-5");
    assert_eq!(iface_dev("", 0).as_str(), "vm.0");
    assert_eq!(iface_dev_at("vm1", 10).as_str(), "vmvm1.10");
    assert_eq!(iface_dev_at("vm1", 0).as_str(), iface_dev("vm1", 0).as_str());
}

#[test]
fn decimal_writes_integers() {
    assert_eq!(decimal(0).as_str(), "0");
    assert_eq!(decimal(7).as_str(), "7");
    assert_eq!(decimal(10).as_str(), "10");
    assert_eq!(decimal(2147483647).as_str(), "2147483647");
    assert_eq!(decimal(-2147483648).as_str(), "-2147483648");
}

#[test]
fn mac_from_bytes_writes_lower_case_hex() {
    assert_eq!(mac_from_bytes(0xaa, 0xbb, 0xcc).as_str(), "52:54:01:aa:bb:cc");
    assert_eq!(mac_from_bytes(0, 9, 0x1f).as_str(), "52:54:01:00:09:1f");
    assert_eq!(mac_from_bytes(255, 16, 10).as_str(), "52:54:01:ff:10:0a");
}

#[test]
fn rand_mac_has_the_fixed_prefix() {
    let a = rand_mac();
    assert_eq!(a.len(), 17);
    assert!(a.starts_with("52:54:01:"));
    for (i, c) in a.chars().enumerate() {
        if i % 3 == 2 {
            assert_eq!(c, ':');
        } else {
            assert!(c.is_ascii_digit() || ('a'..='f').contains(&c));
        }
    }
    let mut different = false;
    for _ in 0..16 {
        if rand_mac() != a {
            different = true;
        }
    }
    assert!(different);
}

#[test]
fn ip_shape() {
    assert!(is_valid_ip("10.0.0.1"));
    assert!(is_valid_ip("255.255.255.255"));
    // Only the shape is tested.
    assert!(is_valid_ip("999.0.0.1"));
    assert!(is_valid_ip("..."));
    assert!(!is_valid_ip("10.0.0"));
    assert!(!is_valid_ip("10.0.0.1.2"));
    assert!(!is_valid_ip("1000.0.0.1"));
    assert!(!is_valid_ip("a.b.c.d"));
    assert!(!is_valid_ip("10.0.0.1 "));
    assert!(!is_valid_ip(""));
    assert!(!is_valid_ip("10.0.0.1/24"));
}

#[test]
fn cidr_shape() {
    assert!(is_valid_cidr("10.0.0.0/24"));
    assert!(is_valid_cidr("10.0.0.0/"));
    assert!(is_valid_cidr("10.0.0.0/x/y"));
    assert!(!is_valid_cidr("10.0.0.0"));
    assert!(!is_valid_cidr("/24"));
    assert!(!is_valid_cidr("net/24"));
    assert!(!is_valid_cidr(""));
}

#[test]
fn ip_port_shape() {
    assert!(is_valid_ip_port("10.0.0.2:1997"));
    assert!(is_valid_ip_port("10.0.0.2:1"));
    assert!(is_valid_ip_port("10.0.0.2:65535"));
    assert!(!is_valid_ip_port("10.0.0.2"));
    assert!(!is_valid_ip_port("10.0.0.2:"));
    assert!(!is_valid_ip_port("10.0.0.2:123456"));
    assert!(!is_valid_ip_port("10.0.0.2:12a"));
    assert!(!is_valid_ip_port("host:1997"));
    assert!(!is_valid_ip_port(":1997"));
    assert!(!is_valid_ip_port("10.0.0.2:19:97"));
}

#[test]
fn text_primitives() {
    let v = chars_of("  héllo\t\n");
    assert_eq!(v.len(), 9);
    assert_eq!(string_of(&trim_chars(&v)).as_str(), "héllo");
    assert_eq!(string_of(&trim_chars(&chars_of(" \u{3000}\u{a0} "))).as_str(), "");
    assert_eq!(char_len("héllo"), 5);
    assert!(same_text("abc", "abc"));
    assert!(!same_text("abc", "abd"));
    assert!(!same_text("abc", "ab"));
    assert_eq!(find_char(&chars_of("a/b/c"), '/', 0), 1);
    assert_eq!(find_char(&chars_of("a/b/c"), '/', 2), 3);
    assert_eq!(find_char(&chars_of("abc"), '/', 0), 3);
}
