use ethercrab::convenience::field::{DType, Field, TypeID};
use ethercrab::convenience::sdo::{ConfigurablePdo, PdoMapping, SdoValue, SdoWrite, SubItem, SyncManager, SyncMapping};

#[test]
fn field_roundtrip_unsigned() {
    let mut data = [0u8; 8];
    let f: Field<u32> = Field::new(2, 0, 32);
    f.set(&mut data, 0xdead_beef);
    assert_eq!(data, [0, 0, 0xef, 0xbe, 0xad, 0xde, 0, 0]);
    assert_eq!(f.get(&data), 0xdead_beef);
    let g: Field<u16> = Field::new(6, 0, 16);
    g.set(&mut data, 0x1234);
    assert_eq!(f.get(&data), 0xdead_beef);
    assert_eq!(g.get(&data), 0x1234);
}

#[test]
fn field_roundtrip_signed() {
    let mut data = [0u8; 4];
    let f: Field<i16> = Field::new(1, 0, 16);
    f.set(&mut data, -2000);
    assert_eq!(data, [0, 0x30, 0xf8, 0]);
    assert_eq!(f.get(&data), -2000);
    let b: Field<i8> = Field::new(3, 0, 8);
    b.set(&mut data, -1);
    assert_eq!(b.get(&data), -1);
    let w: Field<i32> = Field::new(0, 0, 32);
    w.set(&mut data, i32::MIN);
    assert_eq!(w.get(&data), i32::MIN);
    assert!(matches!(<i32 as DType>::id(), TypeID::I32));
    assert_eq!(<u8 as DType>::size(), 1);
}

#[test]
fn sdo_descriptions() {
    let item: SubItem<u16> = SubItem { index: 0x6040, sub: 0, field: Field::new(0, 0, 16) };
    let copy = item.clone();
    assert_eq!(copy.index, 0x6040);
    assert_eq!(copy.field.bitlen, 16);
    assert_eq!(ConfigurablePdo { index: 0x1600, num: 8 }.num, 8);
    assert_eq!(SyncManager { index: 0x1c12, num: 4 }.index, 0x1c12);
}

#[test]
fn sdo_pdo_assignment() {
    let manager = SyncManager { index: 0x1c12, num: 2 };
    let (mut sm, clear) = SyncMapping::new(manager);
    assert_eq!(clear, SdoWrite { index: 0x1c12, sub_index: 0, value: SdoValue::U8(0) });
    let pdo = ConfigurablePdo { index: 0x1600, num: 4 };
    let (mut pm, assign, clear_pdo): (PdoMapping, SdoWrite, SdoWrite) = sm.push(&pdo);
    assert_eq!(assign, SdoWrite { index: 0x1c12, sub_index: 1, value: SdoValue::U16(0x1600) });
    assert_eq!(clear_pdo, SdoWrite { index: 0x1600, sub_index: 0, value: SdoValue::U8(0) });

    let control: SubItem<u16> = SubItem { index: 0x6040, sub: 0, field: Field::new(0, 0, 16) };
    let (field, entry) = pm.push(&mut sm, &control);
    assert_eq!(entry, SdoWrite { index: 0x1600, sub_index: 1, value: SdoValue::U32(0x6040_0010) });
    assert_eq!((field.byte, field.bit, field.bitlen), (0, 0, 16));
    // (16 + 1) / 8 == 2
    assert_eq!(sm.offset, 2);

    let mode: SubItem<i8> = SubItem { index: 0x6060, sub: 0, field: Field::new(0, 0, 8) };
    let (field, entry) = pm.push(&mut sm, &mode);
    assert_eq!(entry.value, SdoValue::U32(0x6060_0008));
    assert_eq!(field.byte, 2);
    assert_eq!(sm.offset, 3);
    assert_eq!(pm.finish(), SdoWrite { index: 0x1600, sub_index: 0, value: SdoValue::U8(2) });
    assert_eq!(sm.finish(), SdoWrite { index: 0x1c12, sub_index: 0, value: SdoValue::U8(1) });

    // An already mapped PDO is only counted: offsets are rounded up to whole bytes.
    let (mut sm2, _) = SyncMapping::new(manager);
    let (mut pm2, _, _) = sm2.push(&pdo);
    let status: SubItem<u16> = SubItem { index: 0x6041, sub: 0, field: Field::new(0, 0, 12) };
    let f = pm2.count(&mut sm2, &status, 0x6041_000c);
    assert_eq!(f.byte, 0);
    assert_eq!(sm2.offset, 2);
    assert_eq!(pm2.num, 1);
}
