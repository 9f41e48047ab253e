use ethercrab::pdi::{PdiOffset, PdiSegment};

#[test]
fn el2004_byte_aligned() {
    let input = PdiOffset::default();

    let input = input.increment_byte_aligned(4);

    assert_eq!(input, PdiOffset { start_address: 1 }, "first increment");

    let input = input.increment_byte_aligned(4);

    assert_eq!(input, PdiOffset { start_address: 2 }, "second increment");
}

#[test]
fn fuzz_pdi_segment() {
    for (start_address, incr_bits) in [
        (0u32, 0u16),
        (5, 1),
        (100, 8),
        (100, 9),
        (7, 1000),
        (1, 65528),
        (1, 65529),
        (0, u16::MAX),
        (0xffff_0000, u16::MAX),
        (u32::MAX - 8192, u16::MAX),
        (u32::MAX, 0),
    ] {
        let offset = PdiOffset { start_address };

        let new = offset.increment_byte_aligned(incr_bits);

        let incr_bits = u32::from(incr_bits);
        let incr_bytes = (incr_bits + 7) / 8;

        assert_eq!(
            new.start_address,
            offset.start_address + incr_bytes,
            "incorrect increment"
        );
    }
}

#[test]
fn pdi_ranges() {
    let a = PdiOffset { start_address: 4 };
    let b = a.increment(6);
    assert_eq!(b.start_address, 10);
    let seg = PdiSegment { bytes: a.up_to(b) };
    assert_eq!(seg.len(), 6);
    assert_eq!(seg.clone(), seg);
    assert_eq!(PdiSegment { bytes: 8..3 }.len(), 0);
}
