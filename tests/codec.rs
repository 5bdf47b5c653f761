use etherip::codec::{build_etherip_packet, decapsulate, frame_start, ip_header_len, ValidationError};

fn ipv4_header() -> Vec<u8> {
    let mut h = vec![0u8; 20];
    h[0] = 0x45;
    h
}

#[test]
fn encapsulate_three_bytes() {
    assert_eq!(build_etherip_packet(&[0xAA, 0xBB, 0xCC]), vec![0x30, 0x00, 0xAA, 0xBB, 0xCC]);
}

#[test]
fn encapsulate_empty_frame() {
    assert_eq!(build_etherip_packet(&[]), vec![0x30, 0x00]);
}

#[test]
fn encapsulate_layout_on_a_long_frame() {
    let frame: Vec<u8> = (0..1500u32).map(|i| (i % 251) as u8).collect();
    let packet = build_etherip_packet(&frame);
    assert_eq!(packet.len(), frame.len() + 2);
    assert_eq!(packet[0], 0x30);
    assert_eq!(packet[1], 0x00);
    assert_eq!(&packet[2..], &frame[..]);
}

#[test]
fn ipv4_header_len_from_ihl_five() {
    let d = ipv4_header();
    assert_eq!(ip_header_len(&d, false), 20);
}

#[test]
fn ipv4_header_len_from_largest_ihl() {
    assert_eq!(ip_header_len(&[0x4F, 0, 0], false), 60);
}

#[test]
fn ipv6_has_no_header() {
    assert_eq!(ip_header_len(&[0x45, 0, 0], true), 0);
}

#[test]
fn decapsulate_ipv4_datagram() {
    let mut d = ipv4_header();
    d.extend_from_slice(&[0x30, 0x00, 0x01, 0x02]);
    assert_eq!(decapsulate(&d, false), Ok(vec![0x01, 0x02]));
    assert_eq!(frame_start(&d, false), Ok(22));
}

#[test]
fn decapsulate_bad_version() {
    let mut d = ipv4_header();
    d.extend_from_slice(&[0x20, 0x00]);
    assert_eq!(decapsulate(&d, false), Err(ValidationError::BadVersion));
}

#[test]
fn decapsulate_ipv6_empty_frame() {
    assert_eq!(decapsulate(&[0x30, 0x00], true), Ok(vec![]));
}

#[test]
fn decapsulate_too_short_ipv4() {
    let mut d = ipv4_header();
    d.push(0x30);
    assert_eq!(decapsulate(&d, false), Err(ValidationError::TooShort));
    assert_eq!(decapsulate(&[0x45, 0x00, 0x30], false), Err(ValidationError::TooShort));
}

#[test]
fn decapsulate_empty_datagram() {
    assert_eq!(decapsulate(&[], false), Err(ValidationError::TooShort));
    assert_eq!(decapsulate(&[], true), Err(ValidationError::TooShort));
    assert_eq!(decapsulate(&[0x30], true), Err(ValidationError::TooShort));
}

#[test]
fn decapsulate_too_short_wins_over_version() {
    assert_eq!(decapsulate(&[0x20], true), Err(ValidationError::TooShort));
}

#[test]
fn decapsulate_bad_version_ipv6() {
    assert_eq!(decapsulate(&[0x40, 0x00, 0x01], true), Err(ValidationError::BadVersion));
    assert_eq!(frame_start(&[0x40, 0x00, 0x01], true), Err(ValidationError::BadVersion));
}

#[test]
fn decapsulate_ignores_reserved_bits() {
    assert_eq!(decapsulate(&[0x3F, 0xFF, 0x09], true), Ok(vec![0x09]));
}

#[test]
fn round_trip_both_families() {
    let frame = vec![0xDE, 0xAD, 0xBE, 0xEF, 0x00, 0x45];
    let packet = build_etherip_packet(&frame);
    assert_eq!(decapsulate(&packet, true), Ok(frame.clone()));
    assert_eq!(decapsulate(&packet, false), Ok(frame));
    let empty = build_etherip_packet(&[]);
    assert_eq!(decapsulate(&empty, false), Ok(vec![]));
}
