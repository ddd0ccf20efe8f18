use heappy::server::protocol::{
    message_header, read_message, recv_response, send_request, write_message, ReadProgress,
    ReadStep, Response, WireError, WireErrorKind, MAX_MESSAGE_LEN,
};

fn header(len: u32) -> Vec<u8> {
    len.to_be_bytes().to_vec()
}

#[test]
fn message_is_framed_with_its_length() {
    assert_eq!(write_message(b""), Ok(vec![0, 0, 0, 0]));
    assert_eq!(write_message(b"hi"), Ok(vec![0, 0, 0, 2, b'h', b'i']));
    let long = vec![7u8; 0x010203];
    let bytes = write_message(&long).unwrap();
    assert_eq!(bytes[..4].to_vec(), vec![0, 1, 2, 3]);
    assert_eq!(bytes[4..].to_vec(), long);
}

#[test]
fn message_comes_back_as_it_was_sent() {
    let mut wire = write_message(b"{\"type\":\"ping\"}").unwrap();
    wire.extend_from_slice(b"more");
    let head = ReadProgress::Header;
    assert_eq!(head.wanted(), 4);
    let body = match read_message(head, wire[..4].to_vec()) {
        ReadStep::More(progress) => progress,
        other => panic!("{:?}", other),
    };
    assert_eq!(body, ReadProgress::Body { len: 15 });
    assert_eq!(body.wanted(), 15);
    assert_eq!(
        read_message(body, wire[4..19].to_vec()),
        ReadStep::Message(b"{\"type\":\"ping\"}".to_vec())
    );
}

#[test]
fn empty_message_is_read() {
    assert_eq!(
        read_message(ReadProgress::Header, header(0)),
        ReadStep::More(ReadProgress::Body { len: 0 })
    );
    assert_eq!(
        read_message(ReadProgress::Body { len: 0 }, Vec::new()),
        ReadStep::Message(Vec::new())
    );
}

#[test]
fn large_message_is_refused() {
    assert_eq!(MAX_MESSAGE_LEN, 67_108_864);
    assert_eq!(
        read_message(ReadProgress::Header, header(67_108_864)),
        ReadStep::More(ReadProgress::Body { len: 67_108_864 })
    );
    assert_eq!(
        read_message(ReadProgress::Header, header(67_108_865)),
        ReadStep::Refused(WireError {
            kind: WireErrorKind::InvalidData,
            message: "message too large: 67108865 bytes".to_string(),
        })
    );
    assert_eq!(
        read_message(ReadProgress::Header, header(u32::MAX)),
        ReadStep::Refused(WireError {
            kind: WireErrorKind::InvalidData,
            message: "message too large: 4294967295 bytes".to_string(),
        })
    );
}

#[test]
fn request_is_framed_or_fails() {
    assert_eq!(send_request(Ok(b"{}".to_vec())), Ok(vec![0, 0, 0, 2, b'{', b'}']));
    assert_eq!(
        send_request(Err("no".to_string())),
        Err(WireError { kind: WireErrorKind::Other, message: "no".to_string() })
    );
}

#[test]
fn response_is_decoded_or_invalid() {
    assert_eq!(recv_response(Ok(Response::Pong)), Ok(Response::Pong));
    assert_eq!(
        recv_response(Err("eof".to_string())),
        Err(WireError { kind: WireErrorKind::InvalidData, message: "eof".to_string() })
    );
}

#[test]
fn messages_come_back_one_after_another() {
    let messages: Vec<Vec<u8>> = vec![b"a".to_vec(), Vec::new(), b"longer".to_vec()];
    let mut wire: Vec<u8> = Vec::new();
    for message in &messages {
        wire.extend_from_slice(&write_message(message).unwrap());
    }
    let mut read: Vec<Vec<u8>> = Vec::new();
    let mut progress = ReadProgress::Header;
    while !wire.is_empty() || progress != ReadProgress::Header {
        let rest = wire.split_off(progress.wanted());
        match read_message(progress, wire) {
            ReadStep::More(next) => progress = next,
            ReadStep::Message(data) => {
                read.push(data);
                progress = ReadProgress::Header;
            }
            ReadStep::Refused(e) => panic!("{:?}", e),
        }
        wire = rest;
    }
    assert_eq!(read, messages);
}

#[test]
fn length_that_does_not_fit_has_no_header() {
    assert_eq!(message_header(0x0102_0304), Ok(vec![1, 2, 3, 4]));
    assert_eq!(message_header(0xffff_ffff), Ok(vec![255, 255, 255, 255]));
    assert_eq!(
        message_header(0x1_0000_0005),
        Err(WireError {
            kind: WireErrorKind::InvalidData,
            message: "message too large: 4294967301 bytes".to_string(),
        })
    );
}
