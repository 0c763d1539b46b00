use veracruz_host::codec::{
    deserialize_request, deserialize_response, frame_message, parse_frame_header,
    serialize_request, serialize_response, unframe_message,
};
use veracruz_host::messages::{RuntimeManagerRequest, RuntimeManagerResponse, Status};

fn request_round_trip(m: RuntimeManagerRequest) {
    let payload = serialize_request(&m);
    let back = deserialize_request(payload.as_slice()).expect("payload must parse");
    assert_eq!(back, m);
    // Through the frame as well, bit-for-bit.
    let framed = frame_message(payload.as_slice()).expect("payload must fit a frame");
    let unframed = unframe_message(framed.as_slice()).expect("frame must strip");
    assert_eq!(unframed, payload);
    assert_eq!(deserialize_request(unframed.as_slice()).unwrap(), m);
}

fn response_round_trip(m: RuntimeManagerResponse) {
    let payload = serialize_response(&m);
    let back = deserialize_response(payload.as_slice()).expect("payload must parse");
    assert_eq!(back, m);
    let framed = frame_message(payload.as_slice()).expect("payload must fit a frame");
    let unframed = unframe_message(framed.as_slice()).expect("frame must strip");
    assert_eq!(unframed, payload);
    assert_eq!(deserialize_response(unframed.as_slice()).unwrap(), m);
}

#[test]
fn every_request_variant_round_trips() {
    request_round_trip(RuntimeManagerRequest::Attestation(vec![1, 2, 3], -7));
    request_round_trip(RuntimeManagerRequest::Attestation(Vec::new(), i32::MAX));
    request_round_trip(RuntimeManagerRequest::Initialize(
        String::from("{\"policy\": true}"),
        vec![vec![0xde, 0xad], vec![0xbe, 0xef], Vec::new()],
    ));
    request_round_trip(RuntimeManagerRequest::Initialize(String::new(), Vec::new()));
    request_round_trip(RuntimeManagerRequest::NewTlsSession);
    request_round_trip(RuntimeManagerRequest::CloseTlsSession(42));
    request_round_trip(RuntimeManagerRequest::SendTlsData(7, vec![9, 9, 9]));
    request_round_trip(RuntimeManagerRequest::SendTlsData(0, Vec::new()));
    request_round_trip(RuntimeManagerRequest::GetTlsDataNeeded(u32::MAX));
    request_round_trip(RuntimeManagerRequest::GetTlsData(1));
}

#[test]
fn every_response_variant_round_trips() {
    response_round_trip(RuntimeManagerResponse::Status(Status::Success));
    response_round_trip(RuntimeManagerResponse::Status(Status::Fail));
    response_round_trip(RuntimeManagerResponse::Status(Status::Unimplemented));
    response_round_trip(RuntimeManagerResponse::AttestationData(
        vec![1; 40],
        vec![2; 17],
    ));
    response_round_trip(RuntimeManagerResponse::TlsSession(77));
    response_round_trip(RuntimeManagerResponse::TlsDataNeeded(true));
    response_round_trip(RuntimeManagerResponse::TlsDataNeeded(false));
    response_round_trip(RuntimeManagerResponse::TlsData(vec![5, 4, 3], true));
    response_round_trip(RuntimeManagerResponse::TlsData(Vec::new(), false));
}

#[test]
fn unicode_policy_text_round_trips() {
    request_round_trip(RuntimeManagerRequest::Initialize(
        String::from("pölícy — ∀x"),
        vec![vec![1]],
    ));
}

#[test]
fn close_session_has_exact_wire_bytes() {
    let payload = serialize_request(&RuntimeManagerRequest::CloseTlsSession(0x0102_0304));
    assert_eq!(payload, vec![3, 0, 0, 0, 0x04, 0x03, 0x02, 0x01]);
}

#[test]
fn attestation_has_exact_wire_bytes() {
    let payload = serialize_request(&RuntimeManagerRequest::Attestation(vec![0xAA, 0xBB], -1));
    assert_eq!(
        payload,
        vec![
            0, 0, 0, 0, // tag
            2, 0, 0, 0, 0, 0, 0, 0, // challenge length
            0xAA, 0xBB, // challenge
            0xFF, 0xFF, 0xFF, 0xFF, // device id -1
        ]
    );
}

#[test]
fn tls_data_needed_response_has_exact_wire_bytes() {
    let payload = serialize_response(&RuntimeManagerResponse::TlsDataNeeded(true));
    assert_eq!(payload, vec![3, 0, 0, 0, 1]);
}

#[test]
fn frame_prefixes_length_little_endian() {
    let framed = frame_message(&[0xAA, 0xBB]).unwrap();
    assert_eq!(framed, vec![2, 0, 0, 0, 0xAA, 0xBB]);
    assert_eq!(parse_frame_header(&framed), Some(2));
}

#[test]
fn frame_header_needs_four_bytes() {
    assert_eq!(parse_frame_header(&[1, 0]), None);
}

#[test]
fn unframe_rejects_wrong_length() {
    assert_eq!(unframe_message(&[2, 0, 0, 0, 0xAA]), None);
    assert_eq!(unframe_message(&[1, 0, 0, 0, 0xAA, 0xBB]), None);
    assert_eq!(unframe_message(&[5, 0, 0]), None);
}

#[test]
fn unframe_accepts_empty_payload() {
    assert_eq!(unframe_message(&[0, 0, 0, 0]), Some(Vec::new()));
}

#[test]
fn parser_rejects_unknown_tags_and_trailing_bytes() {
    assert_eq!(deserialize_request(&[9, 0, 0, 0]), None);
    assert_eq!(deserialize_response(&[9, 0, 0, 0]), None);
    // A valid message followed by a stray byte is rejected whole.
    assert_eq!(deserialize_request(&[2, 0, 0, 0, 0]), None);
    // Truncated field.
    assert_eq!(deserialize_request(&[3, 0, 0, 0, 1, 2]), None);
    assert_eq!(deserialize_request(&[]), None);
}

#[test]
fn parser_rejects_policy_that_is_not_utf8() {
    // Initialize with a one-byte "string" 0xFF: not UTF-8.
    let raw = [
        1u8, 0, 0, 0, // tag
        1, 0, 0, 0, 0, 0, 0, 0, // byte length 1
        0xFF, // invalid UTF-8
        0, 0, 0, 0, 0, 0, 0, 0, // empty certificate list
    ];
    assert_eq!(deserialize_request(&raw), None);
}

#[test]
fn parser_rejects_malformed_booleans() {
    // TlsDataNeeded with byte 2: not a boolean.
    assert_eq!(deserialize_response(&[3, 0, 0, 0, 2]), None);
}
