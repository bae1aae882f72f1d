use libdnscheck::{format_ip, format_v6, IpAddress};

fn v6(groups: [u16; 8]) -> [u8; 16] {
    let mut octets = [0u8; 16];
    for (i, group) in groups.iter().enumerate() {
        octets[2 * i] = (group >> 8) as u8;
        octets[2 * i + 1] = (group & 0xff) as u8;
    }
    octets
}

#[test]
fn ipv4_labels_are_reversed_decimal_octets() {
    assert_eq!(format_ip(&IpAddress::V4([1, 2, 3, 4])), "4.3.2.1.");
    assert_eq!(format_ip(&IpAddress::V4([192, 168, 0, 255])), "255.0.168.192.");
    assert_eq!(format_ip(&IpAddress::V4([0, 0, 0, 0])), "0.0.0.0.");
    assert_eq!(format_ip(&IpAddress::V4([127, 0, 0, 2])), "2.0.0.127.");
}

#[test]
fn ipv4_labels_hold_four_labels_for_every_last_octet() {
    for last in 0u8..=255 {
        let labels = format_ip(&IpAddress::V4([10, 20, 30, last]));
        assert_eq!(labels, format!("{}.30.20.10.", last));
        assert_eq!(labels.matches('.').count(), 4);
        assert!(labels.ends_with('.'));
    }
}

#[test]
fn ipv6_labels_are_reversed_nibbles() {
    let octets = v6([0x2001, 0x0db8, 0, 0, 0, 0, 0x0567, 0x89ab]);
    assert_eq!(
        format_v6(&octets),
        "b.a.9.8.7.6.5.0.0.0.0.0.0.0.0.0.0.0.0.0.0.0.0.0.8.b.d.0.1.0.0.2."
    );
    assert_eq!(format_ip(&IpAddress::V6(octets)), format_v6(&octets));
}

#[test]
fn ipv6_labels_of_loopback() {
    let labels = format_ip(&IpAddress::V6(v6([0, 0, 0, 0, 0, 0, 0, 1])));
    assert_eq!(labels, format!("1.{}", "0.".repeat(31)));
}

#[test]
fn ipv6_labels_hold_32_labels() {
    let mut octets = [0u8; 16];
    for (i, octet) in octets.iter_mut().enumerate() {
        *octet = (i as u8) * 17 + 3;
    }
    let labels = format_v6(&octets);
    assert_eq!(labels.len(), 64);
    let parts: Vec<&str> = labels.split('.').collect();
    assert_eq!(parts.len(), 33);
    assert_eq!(parts[32], "");
    for k in 0..32 {
        let nibble_index = 31 - k;
        let octet = octets[nibble_index / 2];
        let nibble = if nibble_index % 2 == 0 { octet >> 4 } else { octet & 0xf };
        assert_eq!(parts[k], format!("{:x}", nibble));
    }
}

#[test]
fn ipv4_text_is_dotted_decimal() {
    assert_eq!(IpAddress::V4([1, 2, 3, 4]).to_text(), "1.2.3.4");
    assert_eq!(IpAddress::V4([0, 0, 0, 0]).to_text(), "0.0.0.0");
    assert_eq!(IpAddress::V4([255, 100, 10, 1]).to_text(), "255.100.10.1");
}

#[test]
fn ipv6_text_shortens_the_longest_zero_run() {
    let text = |groups: [u16; 8]| IpAddress::V6(v6(groups)).to_text();
    assert_eq!(text([0, 0, 0, 0, 0, 0, 0, 0]), "::");
    assert_eq!(text([0, 0, 0, 0, 0, 0, 0, 1]), "::1");
    assert_eq!(text([1, 0, 0, 0, 0, 0, 0, 0]), "1::");
    assert_eq!(text([0x2001, 0xdb8, 0, 0, 0, 0, 0, 1]), "2001:db8::1");
    assert_eq!(text([0x2001, 0xdb8, 0, 0, 1, 0, 0, 1]), "2001:db8::1:0:0:1");
    assert_eq!(text([1, 0, 0, 2, 0, 0, 0, 3]), "1:0:0:2::3");
    assert_eq!(text([0, 0, 1, 0, 0, 1, 0, 0]), "::1:0:0:1:0:0");
    assert_eq!(text([0xfe80, 0, 0, 0, 0x0202, 0xb3ff, 0xfe1e, 0x8329]), "fe80::202:b3ff:fe1e:8329");
}

#[test]
fn ipv6_text_keeps_a_single_zero_group() {
    let text = |groups: [u16; 8]| IpAddress::V6(v6(groups)).to_text();
    assert_eq!(text([1, 0, 2, 3, 4, 5, 6, 7]), "1:0:2:3:4:5:6:7");
    assert_eq!(text([1, 2, 3, 4, 5, 6, 7, 8]), "1:2:3:4:5:6:7:8");
    assert_eq!(text([0xffff, 0xffff, 0xffff, 0xffff, 0xffff, 0xffff, 0xffff, 0xffff]),
        "ffff:ffff:ffff:ffff:ffff:ffff:ffff:ffff");
    assert_eq!(text([0, 1, 2, 3, 4, 5, 6, 0]), "0:1:2:3:4:5:6:0");
}

#[test]
fn ipv6_text_of_a_mapped_address_ends_in_dotted_decimal() {
    let text = |groups: [u16; 8]| IpAddress::V6(v6(groups)).to_text();
    assert_eq!(text([0, 0, 0, 0, 0, 0xffff, 0x0102, 0x0304]), "::ffff:1.2.3.4");
    assert_eq!(text([0, 0, 0, 0, 0, 0xffff, 0, 0]), "::ffff:0.0.0.0");
    assert_eq!(text([0, 0, 0, 0, 0, 0xfffe, 0x0102, 0x0304]), "::fffe:102:304");
    assert_eq!(text([0, 0, 0, 0, 0, 0, 0x0102, 0x0304]), "::102:304");
}
