use veracruz_host::codec::unframe_message;
use veracruz_host::messages::{RuntimeManagerRequest, RuntimeManagerResponse, Status};
use veracruz_host::session::{
    attestation_request, decode_attestation_response, encode_attestation_document,
    expect_attestation_data, expect_status_success, expect_tls_data, expect_tls_data_needed,
    expect_tls_session, frame_request, frame_response, initialize_request, parse_request,
    parse_response, ConnectDecision, ConnectEvent, ConnectRetry, ProtocolError, TlsDataExchange,
};

#[test]
fn tls_send_and_drain_accumulates_two_chunks_in_order() {
    // SendTlsData, then GetTlsDataNeeded answers (true, true, false):
    // two chunks accumulate in receipt order; still_active reflects the
    // final GetTlsData's flag.
    let (mut exchange, first) = TlsDataExchange::start(5, vec![0x16, 0x03]);
    assert_eq!(first, RuntimeManagerRequest::SendTlsData(5, vec![0x16, 0x03]));

    let next = exchange
        .handle_response(RuntimeManagerResponse::Status(Status::Success))
        .unwrap();
    assert_eq!(next, Some(RuntimeManagerRequest::GetTlsDataNeeded(5)));

    let next = exchange
        .handle_response(RuntimeManagerResponse::TlsDataNeeded(true))
        .unwrap();
    assert_eq!(next, Some(RuntimeManagerRequest::GetTlsData(5)));
    let next = exchange
        .handle_response(RuntimeManagerResponse::TlsData(vec![1, 1], true))
        .unwrap();
    assert_eq!(next, Some(RuntimeManagerRequest::GetTlsDataNeeded(5)));

    let next = exchange
        .handle_response(RuntimeManagerResponse::TlsDataNeeded(true))
        .unwrap();
    assert_eq!(next, Some(RuntimeManagerRequest::GetTlsData(5)));
    let next = exchange
        .handle_response(RuntimeManagerResponse::TlsData(vec![2, 2, 2], true))
        .unwrap();
    assert_eq!(next, Some(RuntimeManagerRequest::GetTlsDataNeeded(5)));

    let next = exchange
        .handle_response(RuntimeManagerResponse::TlsDataNeeded(false))
        .unwrap();
    assert_eq!(next, None);

    assert!(exchange.is_done());
    let (active, chunks) = exchange.finish();
    assert!(active);
    assert_eq!(chunks, Some(vec![vec![1, 1], vec![2, 2, 2]]));
}

#[test]
fn tls_drain_ends_inactive_when_final_chunk_says_so() {
    let (mut exchange, _first) = TlsDataExchange::start(9, vec![7]);
    exchange
        .handle_response(RuntimeManagerResponse::Status(Status::Success))
        .unwrap();
    exchange
        .handle_response(RuntimeManagerResponse::TlsDataNeeded(true))
        .unwrap();
    let next = exchange
        .handle_response(RuntimeManagerResponse::TlsData(vec![3], false))
        .unwrap();
    assert_eq!(next, None);
    let (active, chunks) = exchange.finish();
    assert!(!active);
    assert_eq!(chunks, Some(vec![vec![3]]));
}

#[test]
fn tls_drain_with_no_chunks_hands_back_nothing() {
    let (mut exchange, _first) = TlsDataExchange::start(2, Vec::new());
    exchange
        .handle_response(RuntimeManagerResponse::Status(Status::Success))
        .unwrap();
    exchange
        .handle_response(RuntimeManagerResponse::TlsDataNeeded(false))
        .unwrap();
    let (active, chunks) = exchange.finish();
    assert!(active);
    assert_eq!(chunks, None);
}

#[test]
fn mismatched_response_fails_the_exchange() {
    let (mut exchange, _first) = TlsDataExchange::start(2, vec![1]);
    let err = exchange
        .handle_response(RuntimeManagerResponse::TlsSession(8))
        .unwrap_err();
    assert_eq!(
        err,
        ProtocolError::UnexpectedResponse(RuntimeManagerResponse::TlsSession(8))
    );
    assert!(!exchange.is_done());
}

#[test]
fn expectation_helpers_accept_exactly_their_variant() {
    assert!(expect_status_success(RuntimeManagerResponse::Status(Status::Success)).is_ok());
    assert_eq!(
        expect_status_success(RuntimeManagerResponse::Status(Status::Fail)),
        Err(ProtocolError::UnexpectedResponse(
            RuntimeManagerResponse::Status(Status::Fail)
        ))
    );
    assert_eq!(
        expect_tls_session(RuntimeManagerResponse::TlsSession(3)).unwrap(),
        3
    );
    assert!(expect_tls_session(RuntimeManagerResponse::TlsDataNeeded(true)).is_err());
    assert_eq!(
        expect_tls_data_needed(RuntimeManagerResponse::TlsDataNeeded(false)).unwrap(),
        false
    );
    assert_eq!(
        expect_tls_data(RuntimeManagerResponse::TlsData(vec![1], true)).unwrap(),
        (vec![1], true)
    );
    let (token, csr) =
        expect_attestation_data(RuntimeManagerResponse::AttestationData(vec![9], vec![8]))
            .unwrap();
    assert_eq!((token, csr), (vec![9], vec![8]));
    assert!(expect_attestation_data(RuntimeManagerResponse::TlsSession(1)).is_err());
}

#[test]
fn request_builders_carry_their_arguments() {
    assert_eq!(
        attestation_request(vec![1, 2], 42),
        RuntimeManagerRequest::Attestation(vec![1, 2], 42)
    );
    assert_eq!(
        initialize_request(String::from("p"), vec![vec![1], vec![2]]),
        RuntimeManagerRequest::Initialize(String::from("p"), vec![vec![1], vec![2]])
    );
}

#[test]
fn frame_request_produces_a_parsable_frame() {
    let framed = frame_request(&RuntimeManagerRequest::NewTlsSession).unwrap();
    assert_eq!(framed, vec![4, 0, 0, 0, 2, 0, 0, 0]);
    let resp_bytes = &framed[4..];
    // The same payload read back as a request parses; as a response the
    // tag means something else, which parse_response reports.
    assert_eq!(
        veracruz_host::codec::deserialize_request(resp_bytes),
        Some(RuntimeManagerRequest::NewTlsSession)
    );
}

#[test]
fn the_runtime_side_reads_requests_and_frames_responses() {
    // What the supervisor frames, the trusted side unframes and parses;
    // its own answer travels back the same way.
    let framed = frame_request(&RuntimeManagerRequest::SendTlsData(3, vec![1, 2])).unwrap();
    let payload = unframe_message(&framed).unwrap();
    assert_eq!(
        parse_request(&payload).unwrap(),
        RuntimeManagerRequest::SendTlsData(3, vec![1, 2])
    );

    let framed = frame_response(&RuntimeManagerResponse::Status(Status::Success)).unwrap();
    let payload = unframe_message(&framed).unwrap();
    assert_eq!(
        parse_response(&payload).unwrap(),
        RuntimeManagerResponse::Status(Status::Success)
    );
}

#[test]
fn parse_response_reports_malformed_bytes() {
    assert_eq!(
        parse_response(&[250, 0, 0, 0]),
        Err(ProtocolError::MalformedMessage)
    );
}

#[test]
fn attestation_document_encodes_as_standard_base64() {
    // A reversed attestation submission would not survive this check:
    // the text must be the standard padded base64 of the bytes.
    assert_eq!(encode_attestation_document(&b"hello".to_vec()), "aGVsbG8=");
    assert_eq!(
        decode_attestation_response("aGVsbG8=").unwrap(),
        b"hello".to_vec()
    );
}

#[test]
fn attestation_response_that_is_not_base64_is_rejected() {
    assert_eq!(
        decode_attestation_response("!!not base64!!"),
        Err(ProtocolError::BadServiceResponse)
    );
}

#[test]
fn connect_policy_retries_until_the_deadline() {
    let mut policy = ConnectRetry::new(250);
    assert_eq!(
        policy.step(ConnectEvent::NotReady, 100).unwrap(),
        ConnectDecision::Wait
    );
    assert_eq!(
        policy.step(ConnectEvent::NotReady, 100).unwrap(),
        ConnectDecision::Wait
    );
    // 200 ms spent; another 100 ms would pass the 250 ms deadline.
    assert_eq!(
        policy.step(ConnectEvent::NotReady, 100),
        Err(ProtocolError::DeadlineExceeded)
    );
}

#[test]
fn connect_policy_passes_success_and_failure_through() {
    let mut policy = ConnectRetry::new(1000);
    assert_eq!(
        policy.step(ConnectEvent::Connected, 100).unwrap(),
        ConnectDecision::Ready
    );
    assert_eq!(
        policy.step(ConnectEvent::Failed, 100),
        Err(ProtocolError::ChannelFailed)
    );
}
