use ethercrab::eeprom::device_reader::{DeviceEeprom, SII_FIRST_CATEGORY_START};
use ethercrab::eeprom::file_reader::EepromFile;
use ethercrab::eeprom::types::{CategoryType, SiiControl, SiiReadSize, SyncManagerType};
use ethercrab::eeprom::{find_string, ChunkReader, Eeprom, SiiCategory};
use ethercrab::error::{EepromError, Error};

static IMAGE: [u8; 64] = [
    0x04, 0x01, 0x00, 0x00, 0x00, 0x00, 0xff, 0x00, // First 8
    0x00, 0x00, 0x00, 0x00, 0x00, 0x00, 0xe2, 0x00, // Second 8
    0, 0, 0, 0, 0, 0, 0, 0, 0, 0, 0, 0, 0, 0, 0, 0, //
    0, 0, 0, 0, 0, 0, 0, 0, 0, 0, 0, 0, 0, 0, 0, 0, //
    0, 0, 0, 0, 0, 0, 0, 0, 0, 0, 0, 0, 0, 0, 0, 0,
];

#[test]
fn skip_past_end() {
    let mut r = ChunkReader::new(EepromFile::new(&IMAGE), 0, 32);

    // Current position is zero, so 32 words = 64 bytes = ok
    assert_eq!(r.skip_ahead_bytes(63), Ok(()), "63 bytes");

    let mut r = ChunkReader::new(EepromFile::new(&IMAGE), 0, 32);

    // Off by one errors are always fun
    assert_eq!(
        r.skip_ahead_bytes(64),
        Err(Error::Eeprom(EepromError::SectionOverrun)),
        "64 bytes"
    );

    let mut r = ChunkReader::new(EepromFile::new(&IMAGE), 0, 32);

    // 65 is one byte off the end
    assert_eq!(
        r.skip_ahead_bytes(65),
        Err(Error::Eeprom(EepromError::SectionOverrun)),
        "65 bytes"
    );

    let mut r = ChunkReader::new(EepromFile::new(&IMAGE), 0, 32);

    // Madness
    assert_eq!(
        r.skip_ahead_bytes(10000),
        Err(Error::Eeprom(EepromError::SectionOverrun)),
        "10000 bytes"
    );
}

fn read_byte(r: &mut ChunkReader<EepromFile<8>>) -> u8 {
    let chunk = r.reader.read_chunk(r.chunk_word());
    r.read_byte(&chunk)
}

#[test]
fn read_single_bytes() {
    let mut r = ChunkReader::new(EepromFile::new(&IMAGE), 0, 32);

    let expected = [
        0x04u8, 0x01, 0x00, 0x00, 0x00, 0x00, 0xff, 0x00, // First 8
        0x00u8, 0x00, 0x00, 0x00, 0x00, 0x00, 0xe2, 0x00, // Second 8
    ];

    let actual: Vec<u8> = (0..16).map(|_| read_byte(&mut r)).collect();

    assert_eq!(expected.to_vec(), actual, "Expected:\n{:#04x?}\n\nActual: \n{:#04x?}", expected, actual);
}

#[test]
fn chunked_reads() {
    let mut r = ChunkReader::new(EepromFile::new_short(&IMAGE), 0, 8);
    r.skip_ahead_bytes(1).unwrap();
    let total = r.read_len(100);
    assert_eq!(total, 15);
    let mut out = Vec::new();
    while out.len() < total {
        let chunk = r.reader.read_chunk(r.chunk_word());
        let bytes = r.read_step(&chunk, total - out.len());
        out.extend_from_slice(&bytes);
    }
    assert_eq!(out, IMAGE[1..16].to_vec());
    assert_eq!(r.read_len(10), 0);
}

fn image_with_categories() -> Vec<u8> {
    let mut image = vec![0u8; 0x40 * 2];
    // General category (30), 2 words
    image.extend_from_slice(&[30, 0, 2, 0, 1, 2, 3, 4]);
    // Strings category (10), 6 words: 2 strings "ab" and "xyz"
    image.extend_from_slice(&[10, 0, 6, 0, 2, 2, b'a', b'b', 3, b'x', b'y', b'z', 0, 0, 0, 0]);
    // End marker
    image.extend_from_slice(&[0xff, 0xff, 0, 0]);
    image
}

#[test]
fn category_walk() {
    let eeprom = Eeprom { image: image_with_categories() };
    assert_eq!(
        eeprom.find_eeprom_category_start(CategoryType::General),
        Ok(Some(SiiCategory { category: CategoryType::General, start: SII_FIRST_CATEGORY_START + 2, len_words: 2 }))
    );
    let strings = eeprom.find_eeprom_category_start(CategoryType::Strings).unwrap().unwrap();
    assert_eq!(strings.start, 0x40 + 2 + 2 + 2);
    assert_eq!(strings.len_words, 6);
    assert_eq!(eeprom.find_eeprom_category_start(CategoryType::Fmmu), Ok(None));

    let section = eeprom.section(&strings);
    assert_eq!(find_string(&section, 0, 16), Ok(None));
    assert_eq!(find_string(&section, 1, 16), Ok(Some("ab".to_string())));
    assert_eq!(find_string(&section, 2, 16), Ok(Some("xyz".to_string())));
    assert_eq!(find_string(&section, 2, 2), Err(Error::Eeprom(EepromError::SectionOverrun)));
    assert_eq!(find_string(&section, 9, 16), Ok(None));
    assert_eq!(find_string(&[1, 5, b'a'], 1, 16), Err(Error::Eeprom(EepromError::SectionUnderrun)));
    assert_eq!(find_string(&[1, 1, 0xff], 1, 16), Err(Error::Eeprom(EepromError::Decode)));
}

#[test]
fn device_eeprom_decisions() {
    let dev = DeviceEeprom::new(0x1001);
    let req = dev.read_request(0x40);
    assert_eq!(req.address, 0x40);
    assert!(req.control.read);
    let busy = SiiControl { busy: true, ..SiiControl::default() };
    assert!(!dev.read_done(&busy));
    let done = SiiControl { read_size: SiiReadSize::Octets8, ..SiiControl::default() };
    assert_eq!(dev.chunk_len(&done), 8);
    let err = SiiControl { checksum_error: true, ..SiiControl::default() };
    assert_eq!(dev.error_reset(&err), Some(SiiControl::default()));
    assert_eq!(dev.error_reset(&done), None);
    assert_eq!(dev.clear_errors_result(&err), Err(Error::Eeprom(EepromError::ClearErrors)));
    assert_eq!(dev.clear_errors_result(&done), Ok(()));
}

fn device_image(with_general: bool, with_sync_managers: bool) -> Vec<u8> {
    let mut image = vec![0u8; 0x40 * 2];
    // Strings: two strings, "abc" and "EK1100"
    image.extend_from_slice(&[10, 0, 6, 0]);
    image.extend_from_slice(&[2, 3, b'a', b'b', b'c', 6, b'E', b'K', b'1', b'1', b'0', b'0']);
    if with_general {
        image.extend_from_slice(&[30, 0, 10, 0]);
        image.extend_from_slice(&[
            1, 0, 0, 2, 0, 0x01, 0, 0, 0, 0, 0, 0x00, 0x2c, 0x01, 0x11, 0x00, 0x34, 0x12, 0, 0,
        ]);
    }
    if with_sync_managers {
        // Two records and two trailing bytes that make no record.
        image.extend_from_slice(&[41, 0, 9, 0]);
        image.extend_from_slice(&[0x00, 0x10, 0x80, 0x00, 0x26, 0x00, 0x01, 0x01]);
        image.extend_from_slice(&[0x80, 0x10, 0x80, 0x00, 0x22, 0x00, 0x01, 0x02]);
        image.extend_from_slice(&[0xaa, 0xbb]);
    }
    image.extend_from_slice(&[0xff, 0xff, 0, 0]);
    image
}

#[test]
fn general_name_and_sync_managers() {
    let eeprom = Eeprom { image: device_image(true, true) };
    let general = eeprom.general().unwrap();
    assert_eq!(general.group_string_idx, 1);
    assert_eq!(general.name_string_idx, 2);
    assert_eq!(general.ebus_current, 300);
    assert_eq!(general.physical_memory_addr, 0x1234);
    assert_eq!(eeprom.device_name(16), Ok(Some(String::from("EK1100"))));
    assert_eq!(eeprom.device_name(3), Err(Error::Eeprom(EepromError::SectionOverrun)));

    let sms = eeprom.sync_managers();
    assert_eq!(sms.len(), 2);
    assert_eq!(sms[0].start_addr, 0x1000);
    assert_eq!(sms[0].length, 0x80);
    assert_eq!(sms[0].usage_type, SyncManagerType::MailboxWrite);
    assert_eq!(sms[1].start_addr, 0x1080);
    assert_eq!(sms[1].usage_type, SyncManagerType::MailboxRead);

    let bare = Eeprom { image: device_image(false, false) };
    assert_eq!(bare.general().map(|g| g.name_string_idx), Err(Error::Eeprom(EepromError::NoCategory)));
    assert_eq!(bare.device_name(16), Err(Error::Eeprom(EepromError::NoCategory)));
    assert!(bare.sync_managers().is_empty());
}
