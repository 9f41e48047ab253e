use ethercrab::fmmu::Fmmu;

#[test]
fn default_is_zero() {
    assert_eq!(Fmmu::default().pack(), [0u8; 16]);
}

#[test]
fn size() {
    assert_eq!(std::mem::size_of::<Fmmu>(), 16);
    assert_eq!(Fmmu::PACKED_LEN, 16);
}

#[test]
fn decode_one() {
    let raw = [
        0x00, 0x00, 0x00, 0x00, //
        0x01, 0x00, //
        0x00, //
        0x03, //
        0x00, 0x10, //
        0x00, //
        0x01, //
        0x01, //
        0x00, 0x00, 0x00,
    ];

    let fmmu = Fmmu::unpack_from_slice(&raw).unwrap();

    assert_eq!(
        fmmu,
        Fmmu {
            logical_start_address: 0,
            length_bytes: 1,
            logical_start_bit: 0,
            logical_end_bit: 3,
            physical_start_address: 0x1000,
            physical_start_bit: 0,
            read_enable: true,
            write_enable: false,
            enable: true,
        }
    )
}

#[test]
fn fmmu_pack_roundtrip() {
    let f = Fmmu {
        logical_start_address: 0x1234_5678,
        length_bytes: 0x0203,
        logical_start_bit: 2,
        logical_end_bit: 7,
        physical_start_address: 0x1100,
        physical_start_bit: 5,
        read_enable: false,
        write_enable: true,
        enable: true,
    };
    let packed = f.pack();
    assert_eq!(
        packed,
        [0x78, 0x56, 0x34, 0x12, 0x03, 0x02, 2, 7, 0x00, 0x11, 5, 0x02, 0x01, 0, 0, 0]
    );
    assert_eq!(Fmmu::unpack_from_slice(&packed), Ok(f));
    assert_eq!(
        Fmmu::unpack_from_slice(&packed[..15]),
        Err(ethercrab::wire::WireError::ReadBufferTooShort)
    );
}
