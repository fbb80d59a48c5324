use wol_server::mac::{parse_mac, MacAddr};
use wol_server::wake_on_lan::WakeOnLan;

#[test]
fn magic_packet_layout() {
    let mac = MacAddr::new([0xAA, 0xBB, 0xCC, 0xDD, 0xEE, 0xFF]);
    let packet = WakeOnLan::build_magic_packet(&mac);
    assert_eq!(packet.len(), 102);
    for i in 0..6 {
        assert_eq!(packet[i], 0xFF);
    }
    for rep in 0..16 {
        let base = 6 + 6 * rep;
        assert_eq!(
            &packet[base..base + 6],
            &[0xAA, 0xBB, 0xCC, 0xDD, 0xEE, 0xFF]
        );
    }
}

#[test]
fn magic_packet_from_parsed_mac() {
    let mac = parse_mac("AA:BB:CC:DD:EE:FF").unwrap();
    assert_eq!(mac.bytes, [0xAA, 0xBB, 0xCC, 0xDD, 0xEE, 0xFF]);
    let packet = WakeOnLan::build_magic_packet(&mac);
    assert_eq!(packet.len(), 102);
    assert_eq!(&packet[..6], &[0xFF; 6]);
    assert_eq!(&packet[6..12], &[0xAA, 0xBB, 0xCC, 0xDD, 0xEE, 0xFF]);
    assert_eq!(&packet[96..], &[0xAA, 0xBB, 0xCC, 0xDD, 0xEE, 0xFF]);
}

#[test]
fn magic_packet_distinct_macs_differ() {
    let a = WakeOnLan::build_magic_packet(&MacAddr::new([0, 0x11, 0x22, 0x33, 0x44, 0x55]));
    let b = WakeOnLan::build_magic_packet(&MacAddr::new([0, 0x11, 0x22, 0x33, 0x44, 0x56]));
    assert_ne!(a, b);
}

#[test]
fn parse_mac_accepts_well_formed() {
    let m = parse_mac("00:11:22:33:44:55").unwrap();
    assert_eq!(m.bytes, [0x00, 0x11, 0x22, 0x33, 0x44, 0x55]);
    let m = parse_mac("a1:b2:c3:d4:e5:f6").unwrap();
    assert_eq!(m.bytes, [0xA1, 0xB2, 0xC3, 0xD4, 0xE5, 0xF6]);
    let m = parse_mac("0F:fe:01:Ab:cD:90").unwrap();
    assert_eq!(m.bytes, [0x0F, 0xFE, 0x01, 0xAB, 0xCD, 0x90]);
}

#[test]
fn parse_mac_rejects_malformed() {
    assert!(parse_mac("").is_none());
    assert!(parse_mac("00:11:22:33:44").is_none());
    assert!(parse_mac("00:11:22:33:44:55:66").is_none());
    assert!(parse_mac("00-11-22-33-44-55").is_none());
    assert!(parse_mac("0g:11:22:33:44:55").is_none());
    assert!(parse_mac("00:11:22:33:44:5").is_none());
    assert!(parse_mac("001122334455").is_none());
    assert!(parse_mac("00:11:22:33:44:555").is_none());
    assert!(parse_mac("not a mac addr!!").is_none());
}
