use ethercrab::dl_status::DlStatus;

#[test]
fn dl_status_fuzz() {
    for raw in [[0u8, 0u8], [0xf7, 0xff], [0x13, 0x5a], [0x80, 0x01], [0x07, 0xa5]] {
        let status = DlStatus::unpack_from_slice(&raw).expect("Unpack");
        let packed = status.pack();
        let unpacked = DlStatus::unpack_from_slice(&packed).expect("Unpack");
        assert_eq!(status, unpacked);
    }
}

#[test]
fn dl_status_fields() {
    let status = DlStatus::unpack_from_slice(&[0b0001_0011, 0b0000_0010]).unwrap();
    assert!(status.pdi_operational);
    assert!(status.watchdog_ok);
    assert!(!status.extended_link_detection);
    assert!(status.link_port0);
    assert!(!status.link_port1);
    assert!(status.signal_port0);
    assert!(!status.loopback_port0);
    assert_eq!(status.pack(), [0b0001_0011, 0b0000_0010]);
}
