use tunnel_net::{decode_ifname, encode_ifname, IfNameError, IFNAMSIZ};

#[test]
fn name_is_padded_with_zeros() {
    let f = encode_ifname("tun0").unwrap();
    assert_eq!(f.len(), IFNAMSIZ);
    assert_eq!(&f[..4], b"tun0");
    assert!(f[4..].iter().all(|b| *b == 0));
}

#[test]
fn name_with_nul_is_refused() {
    assert_eq!(encode_ifname("tu\0n"), Err(IfNameError::InteriorNul));
    assert_eq!(encode_ifname("0123456789abcdef\0"), Err(IfNameError::InteriorNul));
}

#[test]
fn name_longer_than_field_is_refused() {
    assert_eq!(encode_ifname("0123456789abcdefg"), Err(IfNameError::TooLong));
    assert!(encode_ifname("0123456789abcdef").is_ok());
}

#[test]
fn name_reads_back() {
    for name in ["utun10", "tun0", "", "0123456789abcdef", "tün"] {
        let f = encode_ifname(name).unwrap();
        assert_eq!(decode_ifname(&f), name);
    }
}

#[test]
fn read_back_stops_at_first_nul_and_replaces_invalid_utf8() {
    let mut raw = [0u8; 16];
    raw[..3].copy_from_slice(b"abc");
    raw[4] = b'x';
    assert_eq!(decode_ifname(&raw), "abc");
    let bad = [b'a', 0xFF, b'b', 0];
    assert_eq!(decode_ifname(&bad), "a\u{FFFD}b");
}
