use ethercrab::mailbox::{MailboxHeader, MailboxType, Priority};

#[test]
fn mailbox_header_fuzz() {
    for (length, address, priority, mailbox_type, counter) in [
        (0u16, 0u16, Priority::Lowest, MailboxType::Error, 0u8),
        (10, 0x1001, Priority::Highest, MailboxType::Coe, 7),
        (0xffff, 0xffff, Priority::High, MailboxType::VendorSpecific, 3),
        (128, 2, Priority::Low, MailboxType::Foe, 1),
    ] {
        let status = MailboxHeader { length, address, priority, mailbox_type, counter };
        let packed = status.pack();

        let unpacked = MailboxHeader::unpack_from_slice(&packed).expect("Unpack");

        assert_eq!(status, unpacked);
    }
}

#[test]
fn encode_header() {
    // From wireshark capture
    let expected = [0x0a, 0x00, 0x00, 0x00, 0x00, 0x33];

    let packed = MailboxHeader {
        length: 10,
        priority: Priority::Lowest,
        address: 0x0000,
        counter: 3,
        mailbox_type: MailboxType::Coe,
    }
    .pack();

    assert_eq!(packed, expected);
}

#[test]
fn decode_header() {
    // From Wireshark capture "soem-slaveinfo-akd.pcapng", packet #296
    let raw = [0x0a, 0x00, 0x00, 0x00, 0x00, 0x23];

    let expected = MailboxHeader {
        length: 10,
        address: 0x0000,
        priority: Priority::Lowest,
        mailbox_type: MailboxType::Coe,
        counter: 2,
    };

    let parsed = MailboxHeader::unpack_from_slice(&raw).unwrap();

    assert_eq!(parsed, expected);
}

#[test]
fn mailbox_counter_wraps() {
    assert_eq!(ethercrab::mailbox::next_mailbox_counter(0), 1);
    assert_eq!(ethercrab::mailbox::next_mailbox_counter(1), 2);
    assert_eq!(ethercrab::mailbox::next_mailbox_counter(6), 7);
    assert_eq!(ethercrab::mailbox::next_mailbox_counter(7), 1);
    assert_eq!(ethercrab::mailbox::next_mailbox_counter(200), 1);
}
