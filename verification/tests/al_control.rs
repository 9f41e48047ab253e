use ethercrab::al_control::AlControl;
use ethercrab::subdevice_state::SubDeviceState;

#[test]
fn al_control() {
    let value = AlControl {
        state: SubDeviceState::SafeOp,
        error: true,
        id_request: false,
    };

    let packed = value.pack();

    assert_eq!(packed, [0x04 | 0x10, 0x00]);
}

#[test]
fn unpack() {
    let value = AlControl {
        state: SubDeviceState::SafeOp,
        error: true,
        id_request: false,
    };

    let parsed = AlControl::unpack_from_slice(&[0x04 | 0x10, 0x00]).unwrap();

    assert_eq!(value, parsed);
}

#[test]
fn unpack_short() {
    let parsed = AlControl::unpack_from_slice(&[0x04 | 0x10]);

    assert!(parsed.is_err());
}
