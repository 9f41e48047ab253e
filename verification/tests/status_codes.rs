use ethercrab::al_status::AlState;
use ethercrab::al_status_code::AlStatusCode;
use ethercrab::base_data_types::PrimitiveDataType;

#[test]
fn al_status_codes() {
    assert_eq!(AlStatusCode::from_u16(0x0011), AlStatusCode::InvalidRequestedStateChange);
    assert_eq!(AlStatusCode::from_u16(0x8001), AlStatusCode::Unknown(0x8001));
    assert_eq!(AlStatusCode::SyncManagerWatchdog.to_u16(), 0x001B);
    assert_eq!(AlStatusCode::SyncManagerWatchdog.description(), "Sync manager watchdog");
    assert_eq!(AlStatusCode::Unknown(5).description(), "(unknown)");
    assert_eq!(AlStatusCode::try_from_slice(&[0x1b, 0x00]), AlStatusCode::SyncManagerWatchdog);
}

#[test]
fn al_states() {
    assert_eq!(AlState::try_from_u8(8), Some(AlState::Op));
    assert_eq!(AlState::try_from_u8(5), None);
    assert_eq!(AlState::SafeOp.name(), "Safe-Operational");
    assert_eq!(AlState::default().to_u8(), 0);
}

#[test]
fn primitive_types() {
    assert_eq!(PrimitiveDataType::from_u8(0x06), Some(PrimitiveDataType::U16));
    assert_eq!(PrimitiveDataType::from_u8(0x09), None);
    assert_eq!(PrimitiveDataType::Bit16.to_u8(), 0x3F);
}
