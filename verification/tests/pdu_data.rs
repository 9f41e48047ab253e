use ethercrab::pdu_data::{PduData, PduRead};

// A fixed spread of inputs: edge patterns and a deterministic pseudo-random sequence.
fn inputs() -> Vec<[u8; 8]> {
    let mut out = vec![[0u8; 8], [0xff; 8], [0x80, 0, 0, 0x80, 0, 0, 0, 0x80], [0x7f; 8]];
    let mut state: u64 = 0x2545_f491_4f6c_dd1d;
    for _ in 0..512 {
        state ^= state << 13;
        state ^= state >> 7;
        state ^= state << 17;
        out.push(state.to_le_bytes());
    }
    out
}

#[test]
fn fuzz_pdu_data_roundtrip() {
    for data in inputs() {
        // u8
        {
            let data = data[0];
            let sl = data.as_slice();
            let decoded = u8::try_from_slice(&sl).expect("u8 from slice");
            assert_eq!(decoded, data);
        }

        // u16
        {
            let data = u16::from_le_bytes(data[0..2].try_into().unwrap());
            let sl = data.as_slice();
            let decoded = u16::try_from_slice(&sl).expect("u16 from slice");
            assert_eq!(decoded, data);
        }

        // u32
        {
            let data = u32::from_le_bytes(data[0..4].try_into().unwrap());
            let sl = data.as_slice();
            let decoded = u32::try_from_slice(&sl).expect("u32 from slice");
            assert_eq!(decoded, data);
        }

        // u64
        {
            let data = u64::from_le_bytes(data[0..8].try_into().unwrap());
            let sl = data.as_slice();
            let decoded = u64::try_from_slice(&sl).expect("u64 from slice");
            assert_eq!(decoded, data);
        }

        // i8
        {
            let data = data[0] as i8;
            let sl = data.as_slice();
            let decoded = i8::try_from_slice(&sl).expect("i8 from slice");
            assert_eq!(decoded, data);
        }

        // i16
        {
            let data = i16::from_le_bytes(data[0..2].try_into().unwrap());
            let sl = data.as_slice();
            let decoded = i16::try_from_slice(&sl).expect("i16 from slice");
            assert_eq!(decoded, data);
        }

        // i32
        {
            let data = i32::from_le_bytes(data[0..4].try_into().unwrap());
            let sl = data.as_slice();
            let decoded = i32::try_from_slice(&sl).expect("i32 from slice");
            assert_eq!(decoded, data);
        }

        // i64
        {
            let data = i64::from_le_bytes(data[0..8].try_into().unwrap());
            let sl = data.as_slice();
            let decoded = i64::try_from_slice(&sl).expect("i64 from slice");
            assert_eq!(decoded, data);
        }
    }
}

#[test]
fn pdu_data_wire_forms() {
    assert_eq!(0x1234u16.as_slice(), vec![0x34, 0x12]);
    assert_eq!((-2i32).as_slice(), vec![0xfe, 0xff, 0xff, 0xff]);
    assert_eq!(true.as_slice(), vec![0xff]);
    assert_eq!(false.as_slice(), vec![0x00]);
    assert_eq!(bool::try_from_slice(&[0x01, 0x00]), Ok(true));
    assert_eq!(bool::try_from_slice(&[0x00]), Ok(false));
    assert_eq!(bool::try_from_slice(&[]), Err(()));
    assert!(u16::try_from_slice(&[1, 2, 3]).is_err());
    assert!(u32::try_from_slice(&[1, 2]).is_err());
    assert!(<() as PduRead>::try_from_slice(&[1, 2, 3]).is_ok());
    assert_eq!(<[u8; 3]>::try_from_slice(&[7, 8, 9]).unwrap(), [7, 8, 9]);
    assert!(<[u8; 3]>::try_from_slice(&[7, 8]).is_err());
    assert_eq!(PduData::as_slice(&[1u8, 2, 3]), vec![1, 2, 3]);
    assert_eq!(<u64 as PduRead>::len(), 8);
    assert_eq!(<bool as PduRead>::len(), 1);
    assert_eq!(<() as PduRead>::len(), 0);
    assert_eq!(<[u8; 4096] as PduRead>::len(), 0);
    assert_eq!(<[u8; 100] as PduRead>::len(), 100);
}
