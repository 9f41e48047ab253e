use ethercrab::ethernet::{EthernetAddress, EthernetFrame, ETHERNET_HEADER_LEN};

#[test]
fn frame_fields_roundtrip() {
    let mut frame = EthernetFrame::new_checked(vec![0u8; 20]).unwrap();
    let dst = EthernetAddress::broadcast();
    let src = EthernetAddress::from_bytes(&[0x10, 0x10, 0x10, 0x10, 0x10, 0x10]);
    frame.set_dst_addr(dst);
    frame.set_src_addr(src);
    frame.set_ethertype(0x88a4);
    assert_eq!(frame.dst_addr(), dst);
    assert_eq!(frame.src_addr(), src);
    assert_eq!(frame.ethertype(), 0x88a4);
    assert_eq!(frame.payload(), &[0u8; 6]);
    let raw = frame.into_inner();
    assert_eq!(&raw[..14], &[0xff, 0xff, 0xff, 0xff, 0xff, 0xff, 0x10, 0x10, 0x10, 0x10, 0x10, 0x10, 0x88, 0xa4]);
}

#[test]
fn frame_too_short() {
    assert!(EthernetFrame::new_checked(vec![0u8; 13]).is_err());
    assert_eq!(
        EthernetFrame::new_unchecked(vec![0u8; 13]).check_len(),
        Err(ethercrab::error::Error::Pdu(ethercrab::error::PduError::Ethernet))
    );
    assert_eq!(EthernetFrame::new_unchecked(vec![0u8; 13]).ethertype(), 0);
}

#[test]
fn frame_lengths() {
    assert_eq!(EthernetFrame::header_len(), ETHERNET_HEADER_LEN);
    assert_eq!(EthernetFrame::buffer_len(46), 60);
    let addr = EthernetAddress([1, 2, 3, 4, 5, 6]);
    assert_eq!(addr.as_bytes(), &[1, 2, 3, 4, 5, 6]);
}

#[test]
fn payload_written_in_place() {
    let mut frame = EthernetFrame::new_checked(vec![0u8; 18]).unwrap();
    frame.set_ethertype(0x88a4);
    {
        let payload = frame.payload_mut();
        assert_eq!(payload.len(), 4);
        payload.copy_from_slice(&[1, 2, 3, 4]);
    }
    assert_eq!(frame.payload(), &[1, 2, 3, 4]);
    assert_eq!(frame.ethertype(), 0x88a4);
}
