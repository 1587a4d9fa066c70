use tunnel_net::{before_first_colon, ipv4_to_dotted, str_equals, u32_to_decimal};

#[test]
fn decimal_notation() {
    assert_eq!(u32_to_decimal(0), "0");
    assert_eq!(u32_to_decimal(7), "7");
    assert_eq!(u32_to_decimal(10), "10");
    assert_eq!(u32_to_decimal(1500), "1500");
    assert_eq!(u32_to_decimal(u32::MAX), u32::MAX.to_string());
}

#[test]
fn dotted_quad_notation() {
    assert_eq!(ipv4_to_dotted(0xC0A8_0102), "192.168.1.2");
    assert_eq!(ipv4_to_dotted(0), "0.0.0.0");
    assert_eq!(ipv4_to_dotted(u32::MAX), "255.255.255.255");
    assert_eq!(ipv4_to_dotted(0x0A14_00FE), "10.20.0.254");
}

#[test]
fn text_before_first_colon() {
    assert_eq!(before_first_colon("127.0.0.1:3001"), Some("127.0.0.1"));
    assert_eq!(before_first_colon("8.8.8.8:53"), Some("8.8.8.8"));
    assert_eq!(before_first_colon("a:b:c"), Some("a"));
    assert_eq!(before_first_colon(":80"), Some(""));
    assert_eq!(before_first_colon("localhost"), None);
    assert_eq!(before_first_colon(""), None);
    assert_eq!(before_first_colon("ä:1"), Some("ä"));
}

#[test]
fn text_equality() {
    assert!(str_equals("tcp", "tcp"));
    assert!(!str_equals("tcp", "tc"));
    assert!(!str_equals("tcp", "udp"));
    assert!(str_equals("", ""));
}
