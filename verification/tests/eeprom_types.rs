use ethercrab::eeprom::types::{
    CategoryType, CoeDetails, DefaultMailbox, Flags, FmmuEx, FmmuUsage, MailboxProtocols, Pdo,
    PdoEntry, PdoType, PortStatus, PortStatuses, SiiAccess, SiiAddressSize, SiiControl,
    SiiGeneral, SiiReadSize, SiiRequest, SyncManager, SyncManagerEnable, SyncManagerType,
};
use ethercrab::sync_manager_channel::{Control, Direction, OperationMode};
use ethercrab::wire::WireError;

fn busy_rw_ctl() -> SiiControl {
    SiiControl {
        access: SiiAccess::ReadWrite,
        emulate_sii: false,
        read_size: SiiReadSize::Octets8,
        address_type: SiiAddressSize::U8,
        read: false,
        write: false,
        reload: false,
        checksum_error: false,
        device_info_error: false,
        command_error: false,
        write_error: false,
        busy: true,
    }
}

#[test]
fn sii_control_pack() {
    let ctl = busy_rw_ctl();

    assert_eq!(ctl.pack(), [0b0100_0001, 0b1000_0000],);
}

#[test]
fn sii_request_read_pack() {
    let packed = SiiRequest::read(0x1234).pack();

    assert_eq!(packed, [0x00, 0x01, 0x34, 0x12, 0x00, 0x00]);
}

#[test]
fn sii_control_unpack() {
    let ctl = busy_rw_ctl();

    assert_eq!(
        SiiControl::unpack_from_slice(&[0b0100_0001, 0b1000_0000]),
        Ok(ctl)
    );
}

#[test]
fn sii_request_read_unpack() {
    let packed = SiiRequest::read(0x1234);

    let buf = [0x00, 0x01, 0x34, 0x12, 0x00, 0x00];

    assert_eq!(SiiRequest::unpack_from_slice(&buf), Ok(packed));
}

#[test]
fn sii_general_ek1100() {
    let expected = SiiGeneral {
        group_string_idx: 2,
        image_string_idx: 0,
        order_string_idx: 1,
        name_string_idx: 4,
        coe_details: CoeDetails::empty(),
        foe_enabled: false,
        eoe_enabled: false,
        flags: Flags::empty(),
        ebus_current: -2000,
        ports: PortStatuses([
            PortStatus::Ebus,
            PortStatus::Unused,
            PortStatus::Unused,
            PortStatus::Unused,
        ]),
        physical_memory_addr: 0,
    };

    let raw = [2u8, 0, 1, 4, 2, 0, 0, 0, 0, 0, 0, 0, 48, 248, 3, 0, 0, 0];

    assert_eq!(SiiGeneral::unpack_from_slice(&raw), Ok(expected))
}

#[test]
fn fmmu_ex() {
    let data = [0xaa, 0xbb, 0xcc];

    assert_eq!(
        FmmuEx::unpack_from_slice(&data),
        Ok(FmmuEx { sync_manager: 0xbb })
    );
}

fn sm(start_addr: u16, operation_mode: OperationMode, direction: Direction) -> SyncManager {
    SyncManager {
        start_addr,
        length: 0x0080,
        control: Control {
            operation_mode,
            direction,
            ecat_event_enable: true,
            dls_user_event_enable: true,
            watchdog_enable: false,
        },
        enable: SyncManagerEnable { bits: SyncManagerEnable::ENABLE },
        usage_type: SyncManagerType::Unknown,
    }
}

#[test]
fn recover_unknown_sm_types() {
    assert_eq!(
        sm(0x1000, OperationMode::Mailbox, Direction::MasterWrite).usage_type(),
        SyncManagerType::MailboxWrite
    );
    assert_eq!(
        sm(0x10c0, OperationMode::Mailbox, Direction::MasterRead).usage_type(),
        SyncManagerType::MailboxRead
    );
    assert_eq!(
        sm(0x1100, OperationMode::Normal, Direction::MasterWrite).usage_type(),
        SyncManagerType::ProcessDataWrite
    );
    assert_eq!(
        sm(0x1180, OperationMode::Normal, Direction::MasterRead).usage_type(),
        SyncManagerType::ProcessDataRead
    );
}

#[test]
fn known_sm_type_is_kept() {
    let mut s = sm(0x1000, OperationMode::Mailbox, Direction::MasterWrite);
    s.usage_type = SyncManagerType::ProcessDataRead;
    assert_eq!(s.usage_type(), SyncManagerType::ProcessDataRead);
}

#[test]
fn sync_manager_unpack() {
    // start 0x1000, length 0x80, mailbox write with both event flags, enabled, type 1
    let raw = [0x00, 0x10, 0x80, 0x00, 0x36, 0x00, 0x01, 0x01];
    let expected = SyncManager {
        usage_type: SyncManagerType::MailboxWrite,
        ..sm(0x1000, OperationMode::Mailbox, Direction::MasterWrite)
    };
    assert_eq!(SyncManager::unpack_from_slice(&raw), Ok(expected));
    // invalid operation mode
    let bad = [0x00, 0x10, 0x80, 0x00, 0x01, 0x00, 0x01, 0x01];
    assert_eq!(SyncManager::unpack_from_slice(&bad), Err(WireError::InvalidValue));
    assert_eq!(SyncManager::unpack_from_slice(&raw[..7]), Err(WireError::ReadBufferTooShort));
}

#[test]
fn sii_control_errors() {
    let ctl = SiiControl {
        checksum_error: true,
        command_error: true,
        ..SiiControl::default()
    };
    assert!(ctl.has_error());
    let reset = ctl.error_reset();
    assert!(!reset.has_error());
    assert!(!reset.command_error);
    assert_eq!(SiiReadSize::Octets8.chunk_len(), 8);
    assert_eq!(SiiReadSize::Octets4.chunk_len(), 4);
}

#[test]
fn sii_request_write_roundtrip() {
    let req = SiiRequest::write(0xabcd);
    assert_eq!(req.pack(), [0x01, 0x02, 0xcd, 0xab, 0x00, 0x00]);
    assert_eq!(SiiRequest::unpack_from_slice(&req.pack()), Ok(req));
    assert_eq!(SiiRequest::unpack_from_slice(&[0, 0, 0]), Err(WireError::ReadBufferTooShort));
}

#[test]
fn category_types() {
    assert_eq!(CategoryType::from_u16(5), Some(CategoryType::DeviceSpecific));
    assert_eq!(CategoryType::from_u16(41), Some(CategoryType::SyncManager));
    assert_eq!(CategoryType::from_u16(0xffff), Some(CategoryType::End));
    assert_eq!(CategoryType::from_u16(11), None);
    assert_eq!(CategoryType::unpack_from_slice(&[50, 0]), Ok(CategoryType::TxPdo));
    assert_eq!(CategoryType::unpack_from_slice(&[12, 0]), Err(WireError::InvalidValue));
    assert_eq!(CategoryType::from(PdoType::Rx), CategoryType::RxPdo);
    assert_eq!(CategoryType::RxPdo.to_u16(), 51);
}

#[test]
fn fmmu_usage_and_pdo() {
    assert_eq!(FmmuUsage::unpack_from_slice(&[0xff]), Ok(FmmuUsage::Unused));
    assert_eq!(FmmuUsage::unpack_from_slice(&[2]), Ok(FmmuUsage::Inputs));
    assert_eq!(FmmuUsage::unpack_from_slice(&[7]), Err(WireError::InvalidValue));
    assert_eq!(
        Pdo::unpack_from_slice(&[0x00, 0x1a, 3, 2, 0, 0, 0, 0]),
        Ok(Pdo { num_entries: 3, sync_manager: 2, bit_len: 0 })
    );
    assert_eq!(
        PdoEntry::unpack_from_slice(&[0, 0x70, 1, 0, 7, 16, 0, 0]),
        Ok(PdoEntry { data_length_bits: 16 })
    );
}

#[test]
fn default_mailbox() {
    let raw = [0x00, 0x10, 0x80, 0x00, 0x80, 0x10, 0x80, 0x00, 0x04, 0x00];
    let mbox = DefaultMailbox::unpack_from_slice(&raw).unwrap();
    assert_eq!(mbox.subdevice_receive_offset, 0x1000);
    assert_eq!(mbox.subdevice_send_offset, 0x1080);
    assert_eq!(mbox.supported_protocols, MailboxProtocols { bits: MailboxProtocols::COE });
    assert!(mbox.has_mailbox());
    assert!(!DefaultMailbox::default().has_mailbox());
}
