use ethercrab::al_status_code::AlStatusCode;
use ethercrab::coe::abort_code::AbortCode;
use ethercrab::command::{Command, Reads, Writes};
use ethercrab::error::{
    EepromError, Error, Item, MailboxError, PduError, PduValidationError,
};
use ethercrab::subdevice_state::SubDeviceState;
use ethercrab::wire::WireError;

#[test]
fn working_counter_message() {
    let e = Error::WorkingCounter { expected: 2, received: 1, context: None };
    assert_eq!(e.message(), "working counter expected 2, got 1 ([no context provided])");
    let e = Error::WorkingCounter { expected: 0, received: 65535, context: Some("init") };
    assert_eq!(e.message(), "working counter expected 0, got 65535 (init)");
}

#[test]
fn nested_error_messages() {
    let e = Error::Mailbox(MailboxError::TooLong { address: 0x1008, sub_index: 0 });
    assert_eq!(e.message(), "mailbox: 0x1008:0 returned data is too long");
    let e = Error::Mailbox(MailboxError::Aborted {
        code: AbortCode::SdoTimeout,
        address: 0x00ab,
        sub_index: 12,
    });
    assert_eq!(e.message(), "mailbox: 0x00ab:12 aborted: 0x05040000: SDO protocol timeout");
    let e = Error::Mailbox(MailboxError::Emergency { error_code: 0x8130, error_register: 1 });
    assert_eq!(e.message(), "mailbox: emergency: code 0x8130, register 0x01");
    let e = Error::Eeprom(EepromError::SectionUnderrun);
    assert_eq!(e.message(), "eeprom: section too short to fill buffer");
    let e = Error::Wire(WireError::ReadBufferTooShort);
    assert_eq!(e.message(), "wire: ReadBufferTooShort");
    let e = Error::Pdu(PduError::InvalidIndex(300));
    assert_eq!(e.message(), "pdu: invalid PDU index 300");
}

#[test]
fn state_and_item_messages() {
    let e = Error::InvalidState {
        expected: SubDeviceState::Op,
        actual: SubDeviceState::Init,
        configured_address: 0x1001,
    };
    assert_eq!(e.message(), "slave 0x1001 state is invalid: Init, expected Op");
    let e = Error::InvalidState {
        expected: SubDeviceState::SafeOp,
        actual: SubDeviceState::Unknown(5),
        configured_address: 0xffff,
    };
    assert_eq!(e.message(), "slave 0xffff state is invalid: Unknown(5), expected SafeOp");
    let e = Error::NotFound { item: Item::Slave, index: Some(3) };
    assert_eq!(e.message(), "item kind Slave not found (index: Some(3))");
    let e = Error::NotFound { item: Item::SdoSubIndex, index: None };
    assert_eq!(e.message(), "item kind SdoSubIndex not found (index: None)");
    assert_eq!(Error::Capacity(Item::Pdo).message(), "not enough capacity for Pdo");
}

#[test]
fn size_messages() {
    let e = Error::StringTooLong { max_length: 16, string_length: 1000 };
    assert_eq!(e.message(), "string of 1000 bytes is too long to fit in max storage of 16 bytes");
    let e = Error::PartialSend { len: 60, sent: 0 };
    assert_eq!(e.message(), "frame of 60 bytes only had 0 bytes sent");
    let e = Error::PdiTooLong { max_length: 64, desired_length: 18446744073709551615 };
    assert_eq!(
        e.message(),
        "Process Data Image is too long (18446744073709551615 bytes), max length is 64"
    );
    assert_eq!(Error::Timeout.message(), "");
    assert_eq!(Error::Topology.message(), "topology");
}

#[test]
fn command_messages() {
    assert_eq!(Command::Write(Command::fpwr(0x1000, 0x0120)).message(), "FPWR(addr 4096, reg 288)");
    assert_eq!(Command::Read(Command::brd(0x0130)).message(), "BRD(addr 0, reg 304)");
    assert_eq!(Command::Read(Reads::Lrd { address: 0x1234_5678 }).message(), "LRD(addr 305419896)");
    assert_eq!(Command::Write(Writes::Lrw { address: 0 }).message(), "LRW(addr 0)");
    assert_eq!(Command::Nop.message(), "NOP");
    let e = PduValidationError::CommandMismatch {
        sent: Command::Read(Command::fprd(1, 2)),
        received: Command::Nop,
    };
    assert_eq!(e.message(), "PDU command mismatch: sent FPRD(addr 1, reg 2), received NOP");
    let e = PduError::Validation(PduValidationError::IndexMismatch { sent: 7, received: 255 });
    assert_eq!(
        e.message(),
        "received PDU validation failed: PDU index mismatch: sent 7, received 255"
    );
}

#[test]
fn al_status_code_messages() {
    assert_eq!(AlStatusCode::NoError.message(), "0x0000: No error");
    assert_eq!(AlStatusCode::SyncManagerWatchdog.message(), "0x001b: Sync manager watchdog");
    assert_eq!(AlStatusCode::ApplicationControllerAvailable.message(), "0x00f0: Application controller available");
    assert_eq!(AlStatusCode::Unknown(0xbeef).message(), "0xbeef: (unknown)");
}
