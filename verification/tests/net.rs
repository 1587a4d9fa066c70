use tunnel_net::{get_ipv4_source, get_ipv4_target};

fn header() -> Vec<u8> {
    let mut p = vec![0u8; 20];
    p[0] = 0x45;
    p[12] = 10;
    p[13] = 0;
    p[14] = 0;
    p[15] = 1;
    p[16] = 192;
    p[17] = 168;
    p[18] = 1;
    p[19] = 2;
    p
}

#[test]
fn source_and_target_of_ipv4_header() {
    let p = header();
    assert_eq!(get_ipv4_source(&p), Some(0x0A00_0001));
    assert_eq!(get_ipv4_target(&p), Some(0xC0A8_0102));
}

#[test]
fn source_needs_sixteen_bytes() {
    let p = header();
    assert_eq!(get_ipv4_source(&p[..15]), None);
    assert_eq!(get_ipv4_source(&p[..16]), Some(0x0A00_0001));
    assert_eq!(get_ipv4_source(&[]), None);
}

#[test]
fn target_needs_twenty_bytes() {
    let p = header();
    assert_eq!(get_ipv4_target(&p[..19]), None);
    assert_eq!(get_ipv4_target(&p[..20]), Some(0xC0A8_0102));
}

#[test]
fn fields_are_big_endian() {
    let mut p = vec![0u8; 24];
    for (i, b) in p.iter_mut().enumerate() {
        *b = i as u8;
    }
    assert_eq!(get_ipv4_source(&p), Some(0x0C0D_0E0F));
    assert_eq!(get_ipv4_target(&p), Some(0x1011_1213));
    let all = vec![0xFFu8; 20];
    assert_eq!(get_ipv4_source(&all), Some(u32::MAX));
}
