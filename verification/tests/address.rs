use message_row::address::{is_blocked_image_ip, IpAddr};

fn v4(a: u8, b: u8, c: u8, d: u8) -> bool {
    is_blocked_image_ip(IpAddr::V4([a, b, c, d]))
}

fn v6(segments: [u16; 8]) -> bool {
    is_blocked_image_ip(IpAddr::V6(segments))
}

fn with_ends(first: u16, last: u16) -> bool {
    v6([first, 0, 0, 0, 0, 0, 0, last])
}

#[test]
fn private_networks_are_blocked() {
    assert!(v4(10, 0, 0, 0) && v4(10, 255, 255, 255));
    assert!(v4(172, 16, 0, 1) && v4(172, 31, 255, 255));
    assert!(!v4(172, 15, 255, 255) && !v4(172, 32, 0, 0));
    assert!(v4(192, 168, 1, 1) && !v4(192, 167, 1, 1) && !v4(193, 168, 1, 1));
}

#[test]
fn special_v4_addresses_are_blocked() {
    assert!(v4(127, 0, 0, 1) && v4(127, 255, 0, 1));
    assert!(v4(169, 254, 169, 254) && !v4(169, 253, 0, 1));
    assert!(v4(0, 0, 0, 0) && !v4(0, 0, 0, 1));
    assert!(v4(224, 0, 0, 1) && v4(239, 255, 255, 255) && !v4(223, 255, 255, 255));
    assert!(v4(255, 255, 255, 255) && !v4(255, 255, 255, 254) && !v4(240, 0, 0, 1));
}

#[test]
fn public_addresses_are_not_blocked() {
    assert!(!v4(8, 8, 8, 8) && !v4(1, 1, 1, 1) && !v4(93, 184, 216, 34));
    assert!(!v6([0x2606, 0x2800, 0x220, 0x1, 0x248, 0x1893, 0x25c8, 0x1946]));
}

#[test]
fn the_first_octet_decides_for_most_networks() {
    for a in 0..=255u8 {
        let whole_network = a == 10 || a == 127 || (224..=239).contains(&a);
        assert_eq!(v4(a, 1, 2, 3), whole_network);
    }
}

#[test]
fn special_v6_addresses_are_blocked() {
    assert!(with_ends(0, 1) && with_ends(0, 0) && !with_ends(0, 2));
    assert!(!v6([0, 0, 0, 0, 0, 0, 1, 1]));
    assert!(with_ends(0xff02, 1) && with_ends(0xff00, 0) && with_ends(0xffff, 0));
    assert!(with_ends(0xfe80, 1) && with_ends(0xfebf, 1) && !with_ends(0xfec0, 1));
    assert!(!with_ends(0xfe7f, 1) && !with_ends(0xfeff, 1));
    assert!(with_ends(0xfc00, 1) && with_ends(0xfdff, 1) && !with_ends(0xfbff, 1));
}

#[test]
fn mapped_addresses_are_blocked_alike() {
    for octets in [[127u8, 0, 0, 1], [10, 1, 2, 3], [8, 8, 8, 8], [255, 255, 255, 255], [0, 0, 0, 0]] {
        let [a, b, c, d] = octets;
        let high = u16::from_be_bytes([a, b]);
        let low = u16::from_be_bytes([c, d]);
        assert_eq!(v4(a, b, c, d), v6([0, 0, 0, 0, 0, 0xffff, high, low]));
    }
    assert!(v6([0, 0, 0, 0, 0, 0xffff, 0xc0a8, 1]));
    assert!(!v6([0, 0, 0, 0, 0, 0xffff, 0x0808, 0x0808]));
    assert!(!v6([0, 0, 0, 0, 0, 0xfffe, 0xc0a8, 1]));
    assert!(!v6([1, 0, 0, 0, 0, 0xffff, 0xc0a8, 1]));
}
