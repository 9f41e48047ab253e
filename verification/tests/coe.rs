use ethercrab::coe::abort_code::AbortCode;
use ethercrab::coe::services::{
    download, upload, ObjectDescriptionListQueryInner, ObjectDescriptionListRequest,
    ObjectDescriptionListResponse, SdoExpeditedDownload, SdoNormal,
};
use ethercrab::coe::{
    CoeCommand, CoeHeader, CoeService, InitSdoHeader, SdoInfoHeader, SdoInfoOpCode, SubIndex,
};
use ethercrab::mailbox::coe::object_description_list;
use ethercrab::mailbox::{MailboxHeader, MailboxType, Priority};

fn mbx(length: u16, counter: u8) -> MailboxHeader {
    MailboxHeader { length, address: 0, priority: Priority::Lowest, mailbox_type: MailboxType::Coe, counter }
}

#[test]
fn pack_coe_header() {
    let header = CoeHeader { number: 0, service: CoeService::SdoRequest };

    let packed = header.pack();

    assert_eq!(packed, [0x00, 0x20]);
}

#[test]
fn sanity_coe_service() {
    assert_eq!(CoeService::SdoRequest.pack(), [0x02]);
    assert_eq!(CoeService::unpack_from_slice(&[0x02]), Ok(CoeService::SdoRequest));
}

#[test]
fn decode_sdo_response_normal() {
    let raw = [10u8, 0, 0, 0, 0, 83, 0, 48, 79, 0, 28, 4];

    let expected = SdoNormal {
        header: mbx(10, 5),
        coe_header: CoeHeader { number: 0, service: CoeService::SdoResponse },
        sdo_header: InitSdoHeader {
            size_indicator: true,
            expedited_transfer: true,
            size: 3,
            complete_access: false,
            command: CoeCommand::UploadRequest,
            index: 0x1c00,
            sub_index: 4,
        },
    };

    assert_eq!(SdoNormal::unpack_from_slice(&raw), Ok(expected));
}

#[test]
fn encode_sdo_request() {
    let buf = [0xaau8, 0xbb, 0xcc, 0xdd];

    let request = download(123, 0x1234, 3.into(), buf, buf.len() as u8);

    assert_eq!(
        request,
        SdoExpeditedDownload {
            headers: SdoNormal {
                header: mbx(10, 123),
                coe_header: CoeHeader { number: 0, service: CoeService::SdoRequest },
                sdo_header: InitSdoHeader {
                    size_indicator: true,
                    expedited_transfer: true,
                    size: 0,
                    complete_access: false,
                    command: CoeCommand::DownloadRequest,
                    index: 0x1234,
                    sub_index: 3,
                },
            },
            data: buf
        }
    )
}

#[test]
fn encode_sdo_request_complete() {
    let buf = [0xaau8, 0xbb, 0xcc, 0xdd];

    let request = download(123, 0x1234, SubIndex::Complete, buf, buf.len() as u8);

    assert_eq!(
        request,
        SdoExpeditedDownload {
            headers: SdoNormal {
                header: mbx(10, 123),
                coe_header: CoeHeader { number: 0, service: CoeService::SdoRequest },
                sdo_header: InitSdoHeader {
                    size_indicator: true,
                    expedited_transfer: true,
                    size: 0,
                    complete_access: true,
                    command: CoeCommand::DownloadRequest,
                    index: 0x1234,
                    // MUST be 1 if complete access is used
                    sub_index: 1,
                },
            },
            data: buf
        }
    )
}

#[test]
fn upload_request_normal() {
    let request = upload(210, 0x4567, 2.into());

    assert_eq!(
        request,
        SdoNormal {
            header: mbx(10, 210),
            coe_header: CoeHeader { number: 0, service: CoeService::SdoRequest },
            sdo_header: InitSdoHeader {
                size_indicator: false,
                expedited_transfer: false,
                size: 0,
                complete_access: false,
                command: CoeCommand::UploadRequest,
                index: 0x4567,
                sub_index: 2,
            },
        }
    )
}

#[test]
fn upload_request_response_segmented() {
    let raw = [
        16u8, 0, 0, 0, 0, 99, 0, 48, 65, 8, 16, 0, 6, 0, 0, 0, 69, 75, 49, 57, 49, 52, 68, 105,
        97, 103, 110, 111, 115, 101, 32, 77, 67, 50, 0, 86, 111, 108, 116, 97, 103, 101, 116, 97,
        103, 101, 115, 105, 118, 101, 1, 112, 16, 112, 0, 128, 1, 128, 2, 128, 14, 128, 1, 144,
    ];

    let expected_headers = SdoNormal {
        header: mbx(16, 6),
        coe_header: CoeHeader { number: 0, service: CoeService::SdoResponse },
        sdo_header: InitSdoHeader {
            size_indicator: true,
            expedited_transfer: false,
            size: 0,
            complete_access: false,
            command: CoeCommand::UploadRequest,
            index: 0x1008,
            sub_index: 0,
        },
    };

    assert_eq!(SdoNormal::unpack_from_slice(&raw[0..12]), Ok(expected_headers));

    assert_eq!(&raw[(12 + 4)..][..4], &[69, 75, 49, 57]);
}

#[test]
fn get_object_description_list() {
    // from Wireshark
    let raw: [u8; 14] = [0x8, 0x0, 0x0, 0x0, 0x0, 0x73, 0x0, 0x80, 0x1, 0x0, 0x0, 0x0, 0x1, 0x0];
    let parsed = ObjectDescriptionListRequest::unpack_from_slice(&raw);
    let expected = ObjectDescriptionListRequest {
        mailbox: mbx(8, 7),
        coe_header: CoeHeader { number: 0, service: CoeService::SdoInformation },
        sdo_info_header: SdoInfoHeader {
            op_code: SdoInfoOpCode::GetObjectDescriptionListRequest,
            incomplete: false,
            fragments_left: 0,
        },
        list_type: ObjectDescriptionListQueryInner::All,
    };
    assert_eq!(parsed, Ok(expected));
    assert_eq!(expected.pack(), raw);

    // from Wireshark
    const RAW_LEN: usize = 128;
    let raw: [u8; RAW_LEN] = [
        0x7a, 0x0, 0x0, 0x0, 0x0, 0x73, 0x0, 0x80, 0x82, 0x0, 0x1, 0x0, 0x1, 0x0, 0x0, 0x10, 0x8,
        0x10, 0x9, 0x10, 0xa, 0x10, 0x18, 0x10, 0x1, 0x16, 0x2, 0x16, 0x3, 0x16, 0x21, 0x16, 0x22,
        0x16, 0x23, 0x16, 0x24, 0x16, 0x25, 0x16, 0x26, 0x16, 0x30, 0x16, 0x31, 0x16, 0x0, 0x1a,
        0x1, 0x1a, 0x2, 0x1a, 0x3, 0x1a, 0x4, 0x1a, 0x5, 0x1a, 0x6, 0x1a, 0x7, 0x1a, 0x8, 0x1a,
        0x9, 0x1a, 0xa, 0x1a, 0xb, 0x1a, 0xc, 0x1a, 0xd, 0x1a, 0xe, 0x1a, 0xf, 0x1a, 0x10, 0x1a,
        0x11, 0x1a, 0x12, 0x1a, 0x13, 0x1a, 0x14, 0x1a, 0x15, 0x1a, 0x16, 0x1a, 0x17, 0x1a, 0x18,
        0x1a, 0x19, 0x1a, 0x1a, 0x1a, 0x1b, 0x1a, 0x1c, 0x1a, 0x1d, 0x1a, 0x1e, 0x1a, 0x1f, 0x1a,
        0x20, 0x1a, 0x21, 0x1a, 0x22, 0x1a, 0x23, 0x1a, 0x24, 0x1a, 0x25, 0x1a, 0x26, 0x1a, 0x30,
        0x1a, 0x31, 0x1a,
    ];
    let parsed = ObjectDescriptionListResponse::unpack_from_slice(&raw);
    let expected = ObjectDescriptionListResponse {
        mailbox: mbx(122, 7),
        coe_header: CoeHeader { number: 0, service: CoeService::SdoInformation },
        sdo_info_header: SdoInfoHeader {
            op_code: SdoInfoOpCode::GetObjectDescriptionListResponse,
            incomplete: true,
            fragments_left: 1,
        },
    };
    assert_eq!(parsed, Ok(expected));
    let list_type = ObjectDescriptionListQueryInner::unpack_from_slice(&raw[12..12 + 2]);
    assert_eq!(list_type, Ok(ObjectDescriptionListQueryInner::All));
    assert_eq!(expected.pack(), raw[..12]);
    // length is actually 57
    let expected: [u16; (RAW_LEN - 14) / 2] = [
        0x1000, 0x1008, 0x1009, 0x100a, 0x1018, 0x1601, 0x1602, 0x1603, 0x1621, 0x1622, 0x1623,
        0x1624, 0x1625, 0x1626, 0x1630, 0x1631, 0x1a00, 0x1a01, 0x1a02, 0x1a03, 0x1a04, 0x1a05,
        0x1a06, 0x1a07, 0x1a08, 0x1a09, 0x1a0a, 0x1a0b, 0x1a0c, 0x1a0d, 0x1a0e, 0x1a0f, 0x1a10,
        0x1a11, 0x1a12, 0x1a13, 0x1a14, 0x1a15, 0x1a16, 0x1a17, 0x1a18, 0x1a19, 0x1a1a, 0x1a1b,
        0x1a1c, 0x1a1d, 0x1a1e, 0x1a1f, 0x1a20, 0x1a21, 0x1a22, 0x1a23, 0x1a24, 0x1a25, 0x1a26,
        0x1a30, 0x1a31,
    ];
    let parsed = object_description_list(&raw[14..]);
    assert_eq!(parsed, expected.to_vec());
}

#[test]
fn error_not_found() {
    // Copypasta'd from Wireshark
    let raw = [
        0x0a, 0x00, 0x00, 0x00, 0x00, 0x63, 0x00, 0x20, 0x80, 0x01, 0x10, 0x00, 0x00, 0x00, 0x02,
        0x06,
    ];

    let parsed = SdoNormal::unpack_from_slice(&raw);

    let expected = SdoNormal {
        header: mbx(0x0a, 6),
        coe_header: CoeHeader { number: 0, service: CoeService::SdoRequest },
        sdo_header: InitSdoHeader {
            size_indicator: false,
            expedited_transfer: false,
            size: 0,
            complete_access: false,
            command: CoeCommand::AbortRequest,
            index: 0x1001,
            sub_index: 0,
        },
    };

    let abort_code = AbortCode::try_from_u32(u32::from_le_bytes([raw[12], raw[13], raw[14], raw[15]]));

    assert_eq!(abort_code, Some(AbortCode::NotFound));

    assert_eq!(parsed, Ok(expected));
}
