use ethercrab::pdu::{Brd, Command, Fprd, Pdu, PduParseError};
use std::convert::TryFrom;

#[test]
fn brd_request_bytes() {
    let brd = Brd::new(2, 0x0130);
    assert_eq!(brd.byte_len(), 14);
    let mut buf = [0xaau8; 16];
    brd.as_bytes(&mut buf).unwrap();
    assert_eq!(
        buf,
        [0x07, 0x01, 0x00, 0x00, 0x30, 0x01, 0x02, 0x00, 0x00, 0x00, 0x00, 0x00, 0x00, 0x00, 0xaa, 0xaa]
    );
    let mut short = [0u8; 5];
    assert!(brd.as_bytes(&mut short).is_err());
    assert_eq!(short, [0x07, 0x01, 0x00, 0x00, 0x30]);
}

#[test]
fn fprd_request_bytes() {
    let fprd = Fprd::new(1, 0x1001, 0x0010);
    let mut buf = [0u8; 13];
    Pdu::Fprd(fprd).as_bytes(&mut buf).unwrap();
    assert_eq!(buf, [0x04, 0x01, 0x01, 0x10, 0x10, 0x00, 0x01, 0x00, 0x00, 0x00, 0x00, 0x00, 0x00]);
}

#[test]
fn brd_parse_response() {
    let brd = Brd::new(2, 0x0130);
    let raw = [0x07, 0x01, 0x00, 0x00, 0x30, 0x01, 0x02, 0x00, 0x00, 0x00, 0x11, 0x22, 0x03, 0x00];
    let resp = brd.parse_response(&raw).unwrap();
    assert_eq!(resp.data, vec![0x11, 0x22]);
    assert_eq!(resp.wkc(), 3);
    assert!(brd.is_response(&resp));

    let mut trailing = raw.to_vec();
    trailing.push(0);
    assert!(matches!(brd.parse_response(&trailing), Err(PduParseError::Incomplete)));

    let mut wrong_cmd = raw;
    wrong_cmd[0] = 0x04;
    assert!(matches!(brd.parse_response(&wrong_cmd), Err(PduParseError::Parse(m)) if m == "command"));

    let mut wrong_idx = raw;
    wrong_idx[1] = 0x02;
    assert!(matches!(brd.parse_response(&wrong_idx), Err(PduParseError::Parse(m)) if m == "index"));

    assert!(matches!(brd.parse_response(&raw[..11]), Err(PduParseError::Parse(m)) if m == "data"));
    assert!(matches!(brd.parse_response(&raw[..13]), Err(PduParseError::Parse(m)) if m == "working counter"));
    assert!(matches!(brd.parse_response(&raw[..5]), Err(PduParseError::Parse(m)) if m == "header"));
}

#[test]
fn pdu_command_codes() {
    assert_eq!(Command::try_from(0x04), Ok(Command::Fprd));
    assert_eq!(Command::try_from(0x07), Ok(Command::Brd));
    assert_eq!(Command::try_from(0x08), Err(0x08));
}

#[test]
fn working_counter_check() {
    assert_eq!(ethercrab::command::check_working_counter(Some(1), 1), Ok(()));
    assert_eq!(ethercrab::command::check_working_counter(None, 7), Ok(()));
    assert_eq!(
        ethercrab::command::check_working_counter(Some(2), 1),
        Err(ethercrab::error::Error::WorkingCounter { expected: 2, received: 1, context: None })
    );
}

#[test]
fn brd_request_parses_as_its_own_response() {
    let request = Brd::new(4, 0x0130);
    let mut buf = [0xaau8; 16];
    request.as_bytes(&mut buf).unwrap();
    let response = request.parse_response(&buf).unwrap();
    assert_eq!(response.command, 0x07);
    assert_eq!(response.idx, request.idx);
    assert_eq!(response.ado, 0x0130);
    assert_eq!(response.data, vec![0, 0, 0, 0]);
    assert_eq!(response.working_counter, 0);
    assert_eq!(response.data_len, 4);
    assert!(request.is_response(&response));
}
