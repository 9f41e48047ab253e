use ethercrab::coe::services::{
    get_object_quantities, upload, upload_segmented, ObjectDescriptionListQueryCounts,
    ObjectDescriptionListResponse, SdoNormal,
};
use ethercrab::coe::{SdoInfoHeader, SdoInfoOpCode};
use ethercrab::coe::{CoeCommand, SubIndex};
use ethercrab::error::{Error, Item, MailboxError};
use ethercrab::mailbox::coe::{
    array_len_fits, expedited_download_request, expedited_upload_data, interpret_response,
    object_description_list,
    sdo_upload_start, ClearStep, Coe, Mailbox, MailboxConfig, SdoInfoCollect,
    SegmentedUpload, UploadStart,
};
use ethercrab::wire::WireError;

fn mbx(address: u16) -> Mailbox {
    Mailbox { address, len: 128, sync_manager: 0 }
}

#[test]
fn mailbox_selection() {
    let both = Coe::new(0x1000, MailboxConfig { read: Some(mbx(0x1080)), write: Some(mbx(0x1000)), complete_access: false });
    assert_eq!(both.mailboxes(), Ok((mbx(0x1080), mbx(0x1000))));
    let no_write = Coe::new(0x1000, MailboxConfig { read: Some(mbx(0x1080)), write: None, complete_access: false });
    assert_eq!(no_write.mailboxes(), Err(Error::Mailbox(MailboxError::NoReadMailbox)));
    let no_read = Coe::new(0x1000, MailboxConfig { read: None, write: Some(mbx(0x1000)), complete_access: false });
    assert_eq!(no_read.mailboxes(), Err(Error::Mailbox(MailboxError::NoWriteMailbox)));
}

#[test]
fn clear_steps() {
    assert_eq!(Coe::out_mailbox_clear_step(0, false), ClearStep::Done);
    assert_eq!(Coe::out_mailbox_clear_step(0, true), ClearStep::Clear { delay: false, retry: true });
    assert_eq!(Coe::out_mailbox_clear_step(9, true), ClearStep::Clear { delay: true, retry: false });
}

fn response(request: &SdoNormal, command_bits: u8, data: &[u8]) -> Vec<u8> {
    let mut raw = request.pack().to_vec();
    // response service (SDO response = 3) in the top four bits of byte 7
    raw[7] = (raw[7] & 0x0f) | 0x30;
    raw[8] = (raw[8] & 0x1f) | (command_bits << 5);
    raw.extend_from_slice(data);
    raw
}

#[test]
fn interpret_upload_response() {
    let request = upload(1, 0x1018, SubIndex::Index(1));
    let raw = response(&request, 2, &[0x11, 0x22, 0x33, 0x44]);
    let (headers, data) = interpret_response(&request, &raw).unwrap();
    assert_eq!(headers.sdo_header.index, 0x1018);
    assert_eq!(headers.sdo_header.command, CoeCommand::UploadRequest);
    assert_eq!(data, &[0x11, 0x22, 0x33, 0x44]);

    // abort with "object does not exist"
    let raw = response(&request, 4, &[0x00, 0x00, 0x02, 0x06]);
    assert!(matches!(
        interpret_response(&request, &raw),
        Err(Error::Mailbox(MailboxError::Aborted { address: 0x1018, sub_index: 1, .. }))
    ));

    // a response to another object
    let other = upload(1, 0x1019, SubIndex::Index(1));
    let raw = response(&other, 2, &[0, 0, 0, 0]);
    assert_eq!(
        interpret_response(&request, &raw).err(),
        Some(Error::Mailbox(MailboxError::SdoResponseInvalid { address: 0x1019, sub_index: 1 }))
    );

    assert_eq!(interpret_response(&request, &raw[..5]).err(), Some(Error::Wire(WireError::ReadBufferTooShort)));
}

#[test]
fn upload_start_decisions() {
    let mut expedited = upload(1, 0x6041, SubIndex::Index(0));
    expedited.sdo_header.expedited_transfer = true;
    expedited.sdo_header.size = 2;
    assert_eq!(
        sdo_upload_start(&expedited, &[0x37, 0x02, 0, 0], 2),
        Ok(UploadStart::Complete(vec![0x37, 0x02]))
    );

    let mut normal = upload(1, 0x1008, SubIndex::Index(0));
    normal.header.length = 10 + 5;
    assert_eq!(
        sdo_upload_start(&normal, &[5, 0, 0, 0, b'h', b'e', b'l', b'l', b'o'], 16),
        Ok(UploadStart::Complete(b"hello".to_vec()))
    );
    assert_eq!(
        sdo_upload_start(&normal, &[5, 0, 0, 0, b'h', b'e', b'l', b'l', b'o'], 4),
        Err(Error::Mailbox(MailboxError::TooLong { address: 0x1008, sub_index: 0 }))
    );
    normal.header.length = 10;
    assert_eq!(sdo_upload_start(&normal, &[30, 0, 0, 0], 64), Ok(UploadStart::Segmented));
}

#[test]
fn segmented_upload() {
    let mut up = SegmentedUpload::new(16);
    let mut seg = upload_segmented(2, false);
    seg.header.length = 3 + 7;
    seg.sdo_header.segment_data_size = 3;
    assert_eq!(up.push_segment(&seg, &[1, 2, 3, 4, 0, 0, 0]), Ok(false));
    assert!(up.toggle);
    seg.header.length = 3 + 9;
    seg.sdo_header.is_last_segment = true;
    assert_eq!(up.push_segment(&seg, &[5, 6, 7, 8, 9, 10, 11, 12, 13]), Ok(true));
    assert_eq!(up.buf, vec![1, 2, 3, 4, 5, 6, 7, 8, 9, 10, 11, 12, 13]);
    let mut small = SegmentedUpload::new(2);
    assert_eq!(small.push_segment(&seg, &[0; 9]), Err(Error::Internal));
}

#[test]
fn sdo_info_fragments() {
    let req = get_object_quantities(3);
    let mut headers = ObjectDescriptionListResponse {
        mailbox: req.mailbox,
        coe_header: req.coe_header,
        sdo_info_header: SdoInfoHeader {
            op_code: SdoInfoOpCode::GetObjectDescriptionListResponse,
            incomplete: true,
            fragments_left: 1,
        },
    };
    headers.mailbox.length = 8 + 4;
    let mut first = headers.pack().to_vec();
    first.extend_from_slice(&[0x00, 0x00, 0xaa, 0xbb, 0xcc, 0xdd]);
    let mut c = SdoInfoCollect::new();
    assert_eq!(c.push_fragment(&first), Ok(false));
    headers.sdo_info_header.incomplete = false;
    headers.mailbox.length = 8 + 2;
    let mut second = headers.pack().to_vec();
    second.extend_from_slice(&[0xee, 0xff]);
    assert_eq!(c.push_fragment(&second), Ok(true));
    assert_eq!(c.buf.as_slice(), &[0xaa, 0xbb, 0xcc, 0xdd, 0xee, 0xff]);
    assert_eq!(object_description_list(&c.buf), vec![0xbbaa, 0xddcc, 0xffee]);
}

#[test]
fn sdo_info_payload_capacity() {
    let req = get_object_quantities(3);
    let mut headers = ObjectDescriptionListResponse {
        mailbox: req.mailbox,
        coe_header: req.coe_header,
        sdo_info_header: SdoInfoHeader {
            op_code: SdoInfoOpCode::GetObjectDescriptionListResponse,
            incomplete: true,
            fragments_left: 2,
        },
    };
    headers.mailbox.length = 0xffff;
    let payload_len = 0xffff - 8;
    let mut c = SdoInfoCollect::new();
    // The first fragment carries the list type word before its payload.
    let mut first = headers.pack().to_vec();
    first.extend_from_slice(&vec![0x11; 2 + payload_len]);
    assert_eq!(c.push_fragment(&first), Ok(false));
    let mut next = headers.pack().to_vec();
    next.extend_from_slice(&vec![0x22; payload_len]);
    assert_eq!(c.push_fragment(&next), Ok(false));
    assert_eq!(c.buf.len(), 2 * payload_len);
    // A third full fragment does not fit in the 0x1fffe byte buffer, which is left as it was.
    assert_eq!(c.push_fragment(&next), Err(Error::Internal));
    assert_eq!(c.buf.len(), 2 * payload_len);
}

#[test]
fn expedited_download_requests() {
    let req = expedited_download_request(2, 0x1c12, SubIndex::Index(1), &[0x00, 0x16]).unwrap();
    assert_eq!(req.data, [0x00, 0x16, 0x00, 0x00]);
    assert_eq!(req.headers.sdo_header.size, 2);
    assert_eq!(req.headers.sdo_header.index, 0x1c12);
    assert_eq!(req.headers.sdo_header.sub_index, 1);
    assert!(req.headers.sdo_header.expedited_transfer);
    assert_eq!(req.headers.header.counter, 2);
    assert_eq!(
        expedited_download_request(2, 0x1c12, SubIndex::Index(1), &[1, 2, 3, 4, 5]).map(|r| r.data),
        Err(Error::Internal)
    );
    assert_eq!(array_len_fits(4, 4), Ok(()));
    assert_eq!(array_len_fits(5, 4), Err(Error::Capacity(Item::SdoSubIndex)));
}

#[test]
fn object_quantities_unpack() {
    let counts = ObjectDescriptionListQueryCounts::unpack_from_slice(&[
        0x10, 0x00, 0x02, 0x00, 0x03, 0x00, 0x00, 0x01, 0x05, 0x00,
    ])
    .unwrap();
    assert_eq!(counts.all, 0x10);
    assert_eq!(counts.rx_pdo_mappable, 2);
    assert_eq!(counts.tx_pdo_mappable, 3);
    assert_eq!(counts.stored_for_device_replacement, 0x100);
    assert_eq!(counts.startup_parameters, 5);
    assert_eq!(
        ObjectDescriptionListQueryCounts::unpack_from_slice(&[0; 9]),
        Err(WireError::ReadBufferTooShort)
    );
}

#[test]
fn expedited_upload_only() {
    let mut expedited = upload(1, 0x6061, SubIndex::Index(0));
    expedited.sdo_header.expedited_transfer = true;
    expedited.sdo_header.size = 3;
    assert_eq!(expedited_upload_data(&expedited, &[0x08, 0, 0, 0]), Ok(vec![0x08]));
    expedited.sdo_header.size = 0;
    assert_eq!(expedited_upload_data(&expedited, &[1, 2, 3]), Err(Error::Internal));
    let normal = upload(1, 0x6061, SubIndex::Index(0));
    assert_eq!(expedited_upload_data(&normal, &[1, 2, 3, 4]), Err(Error::Internal));
}
