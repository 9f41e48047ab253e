use ethercrab::ds402::{
    BikeshedHighLevelState, ControlWord, Ds402, ObjectRanges, OpMode, PdiMappingBikeshedName,
    PdoMapping, ReadObject, ReadState, StatusWord, SyncManagerAssignment, Transition, WriteObject,
    WriteState,
};
use ethercrab::error::Error;

#[test]
fn object_codes() {
    // A 16 bit value at 0x6800:01.
    assert_eq!(PdoMapping::object(0x6800, 1, 2), 0x6800_010f);
    assert_eq!(PdoMapping::object(0x6800, 2, 1), 0x6800_0207);
    assert_eq!(PdoMapping::object(0xffff, 0xff, 4), 0xffff_ff1f);
    let objects = [PdoMapping::object(0x6800, 1, 2), PdoMapping::object(0x6800, 2, 1)];
    let mappings = [PdoMapping::new(0x1600, &objects)];
    assert_eq!(SyncManagerAssignment::new(&mappings).len_bytes(), 3);
    assert_eq!(WriteObject::CONTROL_WORD, PdoMapping::object(0x6040, 0, 2));
    assert_eq!(WriteObject::OP_MODE, PdoMapping::object(0x6060, 0, 1));
    assert_eq!(ReadObject::STATUS_WORD, PdoMapping::object(0x6041, 0, 2));
    assert_eq!(ReadObject::OP_MODE, PdoMapping::object(0x6061, 0, 1));
    assert_eq!(WriteObject::CONTROL_WORD, 0x6040_000f);
    assert_eq!(ReadObject::OP_MODE, 0x6061_0007);
}

#[test]
fn control_word_states() {
    let mut cw = ControlWord::unpack_from_slice(&[0x80, 0x00]).unwrap();
    assert!(cw.fault_reset);
    cw.set_state(WriteState::EnableVoltage);
    assert!(!cw.fault_reset);
    assert!(cw.switch_on && cw.enable_voltage && !cw.enable_operation);
    cw.set_state(WriteState::ResetFault);
    assert!(cw.fault_reset);
}

#[test]
fn status_word_states() {
    let s = |a: u8| StatusWord::unpack_from_slice(&[a, 0]).unwrap().state();
    assert_eq!(s(0x08), ReadState::Fault);
    assert_eq!(s(0x27), ReadState::QuickStop);
    assert_eq!(s(0x07), ReadState::OpEnabled);
    assert_eq!(s(0x03), ReadState::SwitchedOn);
    assert_eq!(s(0x01), ReadState::ReadyToSwitchOn);
    assert_eq!(s(0x40), ReadState::SwitchOnDisabled);
    assert_eq!(s(0x00), ReadState::NotReadyToSwitchOn);
}

#[test]
fn op_modes() {
    assert_eq!(OpMode::from_i8(8), OpMode::CyclicSynchronousPosition);
    assert_eq!(OpMode::from_i8(-3), OpMode::ManufacturerSpecific(-3));
    assert_eq!(OpMode::ManufacturerSpecific(-3).pack_byte(), 0xfd);
    assert_eq!(OpMode::CyclicSynchronousVelocity.to_i8(), 9);
}

#[test]
fn sync_manager_assignment_sizes() {
    let objects = [WriteObject::CONTROL_WORD, WriteObject::OP_MODE, 0x7000_0101];
    let mappings = [
        PdoMapping::new(0x1600, &objects),
        PdoMapping::new(0x1601, &objects[..1]).with_oversampling(3),
    ];
    let sm = SyncManagerAssignment::new(&mappings).with_sync_manager(2);
    assert_eq!(sm.sync_manager, Some(2));
    assert_eq!(sm.object_sizes(), vec![4, 6]);
    assert_eq!(sm.len_bytes(), 10);
}

fn ranges(entries: &[(u32, std::ops::Range<usize>)]) -> ObjectRanges {
    let mut r = ObjectRanges::new();
    for (key, range) in entries {
        assert_eq!(r.insert(*key, range.clone()), None);
    }
    r
}

fn mapped() -> PdiMappingBikeshedName {
    PdiMappingBikeshedName {
        inputs: ranges(&[(ReadObject::STATUS_WORD, 0..2), (ReadObject::OP_MODE, 2..3)]),
        outputs: ranges(&[(WriteObject::CONTROL_WORD, 0..2), (WriteObject::OP_MODE, 2..3)]),
        inputs_raw: vec![0x08, 0x00, 0],
        outputs_raw: vec![0; 3],
    }
}

#[test]
fn object_ranges_insert() {
    let mut r = ranges(&[(1, 0..2), (2, 2..3)]);
    assert_eq!(r.insert(1, 5..7), Some(0..2));
    assert_eq!(r.get(&1), Some(5..7));
    assert_eq!(r.get(&2), Some(2..3));
    assert_eq!(r.get(&3), None);
    assert!(r.contains_key(&2));
    assert!(!ObjectRanges::new().contains_key(&1));
}

#[test]
fn ds402_lifecycle() {
    let mut d = Ds402::new(mapped()).unwrap();
    assert_eq!(d.control_word, 0..2);
    assert_eq!(d.op_mode, 2..3);
    assert_eq!(d.status_word, 0..2);
    assert_eq!(d.op_mode_display, 2..3);
    assert_eq!(d.state(), ReadState::Fault);
    d.bikeshed_set_high_level_state(BikeshedHighLevelState::On);
    assert_eq!(
        d.bikeshed_tick(),
        Transition::Edge { previous: ReadState::NotReadyToSwitchOn, current: ReadState::Fault }
    );
    assert_eq!(d.desired_state, None);
    assert_eq!(d.bikeshed_tick(), Transition::Steady(ReadState::Fault));
    d.set_op_mode(OpMode::CyclicSynchronousPosition);
    assert_eq!(d.inner().outputs_raw[2], 8);
}

#[test]
fn ds402_missing_objects() {
    let full = [
        (ReadObject::STATUS_WORD, 0..2),
        (ReadObject::OP_MODE, 2..3),
        (WriteObject::CONTROL_WORD, 3..5),
        (WriteObject::OP_MODE, 5..6),
    ];
    // Each mandatory object missing from where it belongs.
    let m = PdiMappingBikeshedName {
        inputs: ranges(&[(ReadObject::OP_MODE, 2..3)]),
        outputs: ranges(&full),
        inputs_raw: vec![0; 6],
        outputs_raw: vec![0; 6],
    };
    assert!(matches!(Ds402::new(m), Err(Error::Internal)));
    let m = PdiMappingBikeshedName {
        inputs: ranges(&[(ReadObject::STATUS_WORD, 0..2)]),
        outputs: ranges(&full),
        inputs_raw: vec![0; 6],
        outputs_raw: vec![0; 6],
    };
    assert!(matches!(Ds402::new(m), Err(Error::Internal)));
    let m = PdiMappingBikeshedName {
        inputs: ranges(&full),
        outputs: ranges(&[(WriteObject::OP_MODE, 5..6)]),
        inputs_raw: vec![0; 6],
        outputs_raw: vec![0; 6],
    };
    assert!(matches!(Ds402::new(m), Err(Error::Internal)));
    let m = PdiMappingBikeshedName {
        inputs: ranges(&full),
        outputs: ranges(&[(WriteObject::CONTROL_WORD, 3..5)]),
        inputs_raw: vec![0; 6],
        outputs_raw: vec![0; 6],
    };
    assert!(matches!(Ds402::new(m), Err(Error::Internal)));
    // Write objects among the inputs only are not enough.
    let m = PdiMappingBikeshedName {
        inputs: ranges(&full),
        outputs: ranges(&[]),
        inputs_raw: vec![0; 6],
        outputs_raw: vec![0; 6],
    };
    assert!(matches!(Ds402::new(m), Err(Error::Internal)));
}
