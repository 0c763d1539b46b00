//! The supervisor's side of the enclave session protocol.
//!
//! The protocol is strictly synchronous: one request, then its
//! response, on a framed byte channel.  The decisions live here — which
//! request to issue next, which response variant is acceptable, and how
//! the TLS send-and-drain exchange accumulates chunks — while the
//! channel reads and writes stay with the caller.  A response whose
//! variant does not match the request just issued is fatal to the
//! session and never retried.

use vstd::prelude::*;
use crate::codec::{
    frame_message, serialize_request, serialize_response, deserialize_request,
    deserialize_response, spec_dec_req, spec_dec_resp, spec_enc_req, spec_enc_resp, spec_frame,
};
use crate::messages::{
    RequestModel, ResponseModel, RuntimeManagerRequest, RuntimeManagerResponse, Status,
};

verus! {

/// Errors of the supervisor side of the session protocol.
#[derive(PartialEq, Eq, Debug)]
pub enum ProtocolError {
    /// The response variant does not match the request just issued.
    UnexpectedResponse(RuntimeManagerResponse),
    /// A payload too large for the frame's 32-bit length field.
    MessageTooLarge,
    /// Bytes from which no message parses.
    MalformedMessage,
    /// The channel to the isolated subsystem failed.
    ChannelFailed,
    /// The channel did not come up before the configured deadline.
    DeadlineExceeded,
    /// The attestation service's reply was not valid base64.
    BadServiceResponse,
}

/// Encodes and frames a request for the wire.
pub fn frame_request(m: &RuntimeManagerRequest) -> (r: Result<Vec<u8>, ProtocolError>)
    ensures
        r is Ok <==> spec_enc_req(m@).len() <= u32::MAX,
        r matches Ok(f) ==> f@ == spec_frame(spec_enc_req(m@)),
        r matches Err(e) ==> e is MessageTooLarge,
{
    let payload = serialize_request(m);
    match frame_message(payload.as_slice()) {
        Some(f) => Ok(f),
        None => Err(ProtocolError::MessageTooLarge),
    }
}

/// Encodes and frames a response for the wire.
pub fn frame_response(m: &RuntimeManagerResponse) -> (r: Result<Vec<u8>, ProtocolError>)
    ensures
        r is Ok <==> spec_enc_resp(m@).len() <= u32::MAX,
        r matches Ok(f) ==> f@ == spec_frame(spec_enc_resp(m@)),
        r matches Err(e) ==> e is MessageTooLarge,
{
    let payload = serialize_response(m);
    match frame_message(payload.as_slice()) {
        Some(f) => Ok(f),
        None => Err(ProtocolError::MessageTooLarge),
    }
}

/// Parses a response payload received from the trusted subsystem.
pub fn parse_response(b: &[u8]) -> (r: Result<RuntimeManagerResponse, ProtocolError>)
    ensures
        r is Ok <==> spec_dec_resp(b@) is Some,
        r matches Ok(m) ==> spec_dec_resp(b@) == Some(m@),
        r matches Err(e) ==> e is MalformedMessage,
{
    match deserialize_response(b) {
        Some(m) => Ok(m),
        None => Err(ProtocolError::MalformedMessage),
    }
}

/// Parses a request payload received from the supervisor.
pub fn parse_request(b: &[u8]) -> (r: Result<RuntimeManagerRequest, ProtocolError>)
    ensures
        r is Ok <==> spec_dec_req(b@) is Some,
        r matches Ok(m) ==> spec_dec_req(b@) == Some(m@),
        r matches Err(e) ==> e is MalformedMessage,
{
    match deserialize_request(b) {
        Some(m) => Ok(m),
        None => Err(ProtocolError::MalformedMessage),
    }
}

/// Accepts exactly a successful status; anything else is a protocol
/// violation carrying the offending response.
pub fn expect_status_success(resp: RuntimeManagerResponse) -> (r: Result<(), ProtocolError>)
    ensures
        r is Ok <==> resp@ == (ResponseModel::Status { status: Status::Success }),
        r matches Err(e) ==> e matches ProtocolError::UnexpectedResponse(rr) && rr@ == resp@,
{
    match resp {
        RuntimeManagerResponse::Status(Status::Success) => Ok(()),
        other => Err(ProtocolError::UnexpectedResponse(other)),
    }
}

/// Accepts exactly a TLS session identifier.
pub fn expect_tls_session(resp: RuntimeManagerResponse) -> (r: Result<u32, ProtocolError>)
    ensures
        r is Ok <==> resp@ is TlsSession,
        r matches Ok(id) ==> resp@ == (ResponseModel::TlsSession { session_id: id }),
        r matches Err(e) ==> e matches ProtocolError::UnexpectedResponse(rr) && rr@ == resp@,
{
    match resp {
        RuntimeManagerResponse::TlsSession(id) => Ok(id),
        other => Err(ProtocolError::UnexpectedResponse(other)),
    }
}

/// Accepts exactly an answer to `GetTlsDataNeeded`.
pub fn expect_tls_data_needed(resp: RuntimeManagerResponse) -> (r: Result<bool, ProtocolError>)
    ensures
        r is Ok <==> resp@ is TlsDataNeeded,
        r matches Ok(needed) ==> resp@ == (ResponseModel::TlsDataNeeded { needed }),
        r matches Err(e) ==> e matches ProtocolError::UnexpectedResponse(rr) && rr@ == resp@,
{
    match resp {
        RuntimeManagerResponse::TlsDataNeeded(needed) => Ok(needed),
        other => Err(ProtocolError::UnexpectedResponse(other)),
    }
}

/// Accepts exactly one outward TLS chunk with its activity flag.
pub fn expect_tls_data(resp: RuntimeManagerResponse) -> (r: Result<(Vec<u8>, bool), ProtocolError>)
    ensures
        r is Ok <==> resp@ is TlsData,
        r matches Ok((data, active)) ==> resp@ == (ResponseModel::TlsData {
            data: data@,
            active,
        }),
        r matches Err(e) ==> e matches ProtocolError::UnexpectedResponse(rr) && rr@ == resp@,
{
    match resp {
        RuntimeManagerResponse::TlsData(data, active) => Ok((data, active)),
        other => Err(ProtocolError::UnexpectedResponse(other)),
    }
}

/// Accepts exactly an attestation token with its certificate-signing
/// request.
pub fn expect_attestation_data(resp: RuntimeManagerResponse) -> (r: Result<
    (Vec<u8>, Vec<u8>),
    ProtocolError,
>)
    ensures
        r is Ok <==> resp@ is AttestationData,
        r matches Ok((token, csr)) ==> resp@ == (ResponseModel::AttestationData {
            token: token@,
            csr: csr@,
        }),
        r matches Err(e) ==> e matches ProtocolError::UnexpectedResponse(rr) && rr@ == resp@,
{
    match resp {
        RuntimeManagerResponse::AttestationData(token, csr) => Ok((token, csr)),
        other => Err(ProtocolError::UnexpectedResponse(other)),
    }
}

/// Where the TLS send-and-drain exchange stands.
#[derive(Clone, Copy, PartialEq, Eq, Structural, Debug)]
pub enum TlsDataStep {
    /// Waiting for the status answering `SendTlsData`.
    AwaitSendStatus,
    /// Waiting for the answer to `GetTlsDataNeeded`.
    AwaitNeeded,
    /// Waiting for the chunk answering `GetTlsData`.
    AwaitData,
    /// The exchange is over.
    Done,
    /// A mismatched response ended the session; nothing more may be
    /// sent on it.
    Failed,
}

/// The supervisor's send-and-drain exchange on one TLS session: push
/// data in, then poll for outward chunks until the subsystem reports
/// none are waiting.  Chunks accumulate in receipt order and must be
/// delivered to the remote peer in that order.
pub struct TlsDataExchange {
    /// The session the exchange belongs to.
    pub session_id: u32,
    /// Where the exchange stands.
    pub step: TlsDataStep,
    /// The outward chunks drained so far, in receipt order.
    pub chunks: Vec<Vec<u8>>,
    /// Whether the session was still active when the exchange ended;
    /// meaningful once `step` is `Done`.
    pub active: bool,
}

impl TlsDataExchange {
    /// Opens the exchange: hands back the machine and the
    /// `SendTlsData` request to issue first.
    pub fn start(session_id: u32, input: Vec<u8>) -> (r: (TlsDataExchange, RuntimeManagerRequest))
        ensures
            r.0.session_id == session_id,
            r.0.step == TlsDataStep::AwaitSendStatus,
            r.0.chunks@ =~= Seq::<Vec<u8>>::empty(),
            r.1@ == (RequestModel::SendTlsData { session_id, data: input@ }),
    {
        let machine = TlsDataExchange {
            session_id,
            step: TlsDataStep::AwaitSendStatus,
            chunks: Vec::new(),
            active: true,
        };
        (machine, RuntimeManagerRequest::SendTlsData(session_id, input))
    }

    /// Feeds one response in and hands back the next request to issue,
    /// or nothing once the exchange is over.  The chunk carried by a
    /// `TlsData` response is appended to the accumulator, so the
    /// accumulator always lists the drained chunks in receipt order.  A
    /// response of the wrong variant fails the exchange for good.
    pub fn handle_response(&mut self, resp: RuntimeManagerResponse) -> (r: Result<
        Option<RuntimeManagerRequest>,
        ProtocolError,
    >)
        requires
            old(self).step == TlsDataStep::AwaitSendStatus || old(self).step
                == TlsDataStep::AwaitNeeded || old(self).step == TlsDataStep::AwaitData,
        ensures
            final(self).session_id == old(self).session_id,
            r is Err ==> final(self).step == TlsDataStep::Failed
                && final(self).chunks@ == old(self).chunks@,
            r matches Err(e) ==> e matches ProtocolError::UnexpectedResponse(rr) && rr@ == resp@,
            old(self).step == TlsDataStep::AwaitSendStatus ==> {
                if resp@ == (ResponseModel::Status { status: Status::Success }) {
                    &&& r matches Ok(Some(q)) && q@ == (RequestModel::GetTlsDataNeeded {
                        session_id: old(self).session_id,
                    })
                    &&& final(self).step == TlsDataStep::AwaitNeeded
                    &&& final(self).chunks@ == old(self).chunks@
                } else {
                    r is Err
                }
            },
            old(self).step == TlsDataStep::AwaitNeeded ==> {
                if resp@ == (ResponseModel::TlsDataNeeded { needed: true }) {
                    &&& r matches Ok(Some(q)) && q@ == (RequestModel::GetTlsData {
                        session_id: old(self).session_id,
                    })
                    &&& final(self).step == TlsDataStep::AwaitData
                    &&& final(self).chunks@ == old(self).chunks@
                } else if resp@ == (ResponseModel::TlsDataNeeded { needed: false }) {
                    &&& r == Ok::<Option<RuntimeManagerRequest>, ProtocolError>(None)
                    &&& final(self).step == TlsDataStep::Done
                    &&& final(self).active == true
                    &&& final(self).chunks@ == old(self).chunks@
                } else {
                    r is Err
                }
            },
            old(self).step == TlsDataStep::AwaitData ==> match resp@ {
                ResponseModel::TlsData { data, active } => {
                    &&& final(self).chunks@.len() == old(self).chunks@.len() + 1
                    &&& final(self).chunks@.last()@ == data
                    &&& final(self).chunks@.drop_last() == old(self).chunks@
                    &&& (active ==> (r matches Ok(Some(q)) && q@
                        == (RequestModel::GetTlsDataNeeded { session_id: old(self).session_id })
                        && final(self).step == TlsDataStep::AwaitNeeded))
                    &&& (!active ==> r == Ok::<Option<RuntimeManagerRequest>, ProtocolError>(None)
                        && final(self).step == TlsDataStep::Done && final(self).active == false)
                },
                _ => r is Err,
            },
    {
        match self.step {
            TlsDataStep::AwaitSendStatus => {
                match resp {
                    RuntimeManagerResponse::Status(Status::Success) => {
                        self.step = TlsDataStep::AwaitNeeded;
                        Ok(Some(RuntimeManagerRequest::GetTlsDataNeeded(self.session_id)))
                    },
                    other => {
                        self.step = TlsDataStep::Failed;
                        Err(ProtocolError::UnexpectedResponse(other))
                    },
                }
            },
            TlsDataStep::AwaitNeeded => {
                match resp {
                    RuntimeManagerResponse::TlsDataNeeded(true) => {
                        self.step = TlsDataStep::AwaitData;
                        Ok(Some(RuntimeManagerRequest::GetTlsData(self.session_id)))
                    },
                    RuntimeManagerResponse::TlsDataNeeded(false) => {
                        self.step = TlsDataStep::Done;
                        self.active = true;
                        Ok(None)
                    },
                    other => {
                        self.step = TlsDataStep::Failed;
                        Err(ProtocolError::UnexpectedResponse(other))
                    },
                }
            },
            _ => {
                match resp {
                    RuntimeManagerResponse::TlsData(data, active) => {
                        let ghost before = self.chunks@;
                        self.chunks.push(data);
                        proof {
                            assert(self.chunks@.drop_last() =~= before);
                        }
                        if active {
                            self.step = TlsDataStep::AwaitNeeded;
                            Ok(Some(RuntimeManagerRequest::GetTlsDataNeeded(self.session_id)))
                        } else {
                            self.step = TlsDataStep::Done;
                            self.active = false;
                            Ok(None)
                        }
                    },
                    other => {
                        self.step = TlsDataStep::Failed;
                        Err(ProtocolError::UnexpectedResponse(other))
                    },
                }
            },
        }
    }

    /// Whether the exchange has finished.
    pub fn is_done(&self) -> (r: bool)
        ensures
            r == (self.step == TlsDataStep::Done),
    {
        self.step == TlsDataStep::Done
    }

    /// Closes the exchange: the session's final activity flag, and the
    /// accumulated chunks — in receipt order — or nothing when no chunk
    /// was drained.
    pub fn finish(self) -> (r: (bool, Option<Vec<Vec<u8>>>))
        requires
            self.step == TlsDataStep::Done,
        ensures
            r.0 == self.active,
            r.1 is Some <==> self.chunks@.len() > 0,
            r.1 matches Some(v) ==> v@ == self.chunks@,
    {
        if self.chunks.len() == 0 {
            (self.active, None)
        } else {
            (self.active, Some(self.chunks))
        }
    }
}

/// Builds the attestation request forwarded to the trusted subsystem.
pub fn attestation_request(challenge: Vec<u8>, device_id: i32) -> (r: RuntimeManagerRequest)
    ensures
        r@ == (RequestModel::Attestation { challenge: challenge@, device_id }),
{
    RuntimeManagerRequest::Attestation(challenge, device_id)
}

/// Builds the initialization request that completes provisioning.
pub fn initialize_request(policy: String, cert_chain: Vec<Vec<u8>>) -> (r: RuntimeManagerRequest)
    ensures
        r@ == (RequestModel::Initialize {
            policy: policy@,
            cert_chain: cert_chain@.map_values(|v: Vec<u8>| v@),
        }),
{
    RuntimeManagerRequest::Initialize(policy, cert_chain)
}

/// The base64 text that the standard alphabet, with padding, assigns
/// to a byte sequence.
pub uninterp spec fn b64_encode_of(b: Seq<u8>) -> Seq<char>;

/// The bytes that base64 decoding, standard alphabet, assigns to a
/// text — or nothing when the text is not valid base64.
pub uninterp spec fn b64_decode_of(s: Seq<char>) -> Option<Seq<u8>>;

/// Relies on base64's `encode` (standard alphabet, padded): the result
/// depends on the input bytes alone.
#[verifier::external_body]
fn base64_encode(b: &[u8]) -> (r: String)
    ensures
        r@ == b64_encode_of(b@),
{
    base64::encode(b)
}

/// Relies on base64's `decode` (standard alphabet): success and result
/// depend on the input text alone.
#[verifier::external_body]
fn base64_decode(s: &str) -> (r: Option<Vec<u8>>)
    ensures
        r is Some <==> b64_decode_of(s@) is Some,
        r matches Some(v) ==> b64_decode_of(s@) == Some(v@),
{
    base64::decode(s).ok()
}

/// Encodes an attestation document as the base64 text the attestation
/// service is given.
pub fn encode_attestation_document(doc: &Vec<u8>) -> (r: String)
    ensures
        r@ == b64_encode_of(doc@),
{
    base64_encode(doc.as_slice())
}

/// Decodes the attestation service's base64 reply; a reply that is not
/// base64 aborts session establishment.
pub fn decode_attestation_response(text: &str) -> (r: Result<Vec<u8>, ProtocolError>)
    ensures
        r is Ok <==> b64_decode_of(text@) is Some,
        r matches Ok(v) ==> b64_decode_of(text@) == Some(v@),
        r matches Err(e) ==> e is BadServiceResponse,
{
    match base64_decode(text) {
        Some(v) => Ok(v),
        None => Err(ProtocolError::BadServiceResponse),
    }
}

/// What happened on one attempt to reach the isolated subsystem's
/// channel.
#[derive(Clone, Copy, PartialEq, Eq, Structural, Debug)]
pub enum ConnectEvent {
    /// The channel is up.
    Connected,
    /// The channel is not there yet; trying again may help.
    NotReady,
    /// The channel failed for good.
    Failed,
}

/// What the policy tells the caller to do next.
#[derive(Clone, Copy, PartialEq, Eq, Structural, Debug)]
pub enum ConnectDecision {
    /// Use the channel.
    Ready,
    /// Wait the step's interval and try again.
    Wait,
}

/// The connection policy for bringing the channel up: retries are
/// allowed until a configurable deadline, and exceeding it is its own
/// error, distinct from a channel failure.
pub struct ConnectRetry {
    /// The total time the policy allows, in milliseconds.
    pub deadline_ms: u64,
    /// The time already spent waiting, in milliseconds.
    pub waited_ms: u64,
}

impl ConnectRetry {
    /// A fresh policy with the given deadline.
    pub fn new(deadline_ms: u64) -> (r: ConnectRetry)
        ensures
            r.deadline_ms == deadline_ms,
            r.waited_ms == 0,
    {
        ConnectRetry { deadline_ms, waited_ms: 0 }
    }

    /// Decides what to do after one connection attempt that would be
    /// followed by a `wait_ms` pause: retry within the deadline, give
    /// up with `DeadlineExceeded` once the pause would pass it, or
    /// surface a channel failure as such.
    pub fn step(&mut self, event: ConnectEvent, wait_ms: u64) -> (r: Result<
        ConnectDecision,
        ProtocolError,
    >)
        ensures
            final(self).deadline_ms == old(self).deadline_ms,
            event == ConnectEvent::Connected ==> r == Ok::<ConnectDecision, ProtocolError>(
                ConnectDecision::Ready,
            ) && final(self).waited_ms == old(self).waited_ms,
            event == ConnectEvent::Failed ==> (r matches Err(e) && e is ChannelFailed)
                && final(self).waited_ms == old(self).waited_ms,
            event == ConnectEvent::NotReady && old(self).waited_ms + wait_ms
                <= old(self).deadline_ms ==> r == Ok::<ConnectDecision, ProtocolError>(
                ConnectDecision::Wait,
            ) && final(self).waited_ms == old(self).waited_ms + wait_ms,
            event == ConnectEvent::NotReady && old(self).waited_ms + wait_ms
                > old(self).deadline_ms ==> (r matches Err(e) && e is DeadlineExceeded)
                && final(self).waited_ms == old(self).waited_ms,
    {
        match event {
            ConnectEvent::Connected => Ok(ConnectDecision::Ready),
            ConnectEvent::Failed => Err(ProtocolError::ChannelFailed),
            ConnectEvent::NotReady => {
                if wait_ms <= self.deadline_ms && self.waited_ms <= self.deadline_ms - wait_ms {
                    self.waited_ms = self.waited_ms + wait_ms;
                    Ok(ConnectDecision::Wait)
                } else {
                    Err(ProtocolError::DeadlineExceeded)
                }
            },
        }
    }
}

} // verus!
