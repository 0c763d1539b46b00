//! The messages of the enclave session protocol.
//!
//! An untrusted supervisor drives the trusted subsystem with
//! `RuntimeManagerRequest` messages and receives `RuntimeManagerResponse`
//! messages back, one response per request.  The wire form of both lives
//! in `codec`.

use vstd::prelude::*;

verus! {

/// The outcome a response reports for a plain request.
#[derive(Clone, Copy, PartialEq, Eq, Structural, Debug)]
pub enum Status {
    /// The request was carried out.
    Success,
    /// The request failed.
    Fail,
    /// The request names an operation this build does not provide.
    Unimplemented,
}

/// A request from the supervisor to the trusted subsystem.
#[derive(Clone, PartialEq, Eq, Debug)]
pub enum RuntimeManagerRequest {
    /// Forward an attestation challenge and device identifier.
    Attestation(Vec<u8>, i32),
    /// Complete provisioning with the policy document and the
    /// certificate chain obtained from the attestation service.
    Initialize(String, Vec<Vec<u8>>),
    /// Open a fresh TLS session; the response carries its identifier.
    NewTlsSession,
    /// Close the TLS session with this identifier.
    CloseTlsSession(u32),
    /// Push ciphertext into the TLS session with this identifier.
    SendTlsData(u32, Vec<u8>),
    /// Ask whether the TLS session with this identifier has outward
    /// data waiting.
    GetTlsDataNeeded(u32),
    /// Drain one outward chunk from the TLS session with this
    /// identifier.
    GetTlsData(u32),
}

/// A response from the trusted subsystem.
#[derive(Clone, PartialEq, Eq, Debug)]
pub enum RuntimeManagerResponse {
    /// The outcome of a request that returns no data.
    Status(Status),
    /// The attestation token and certificate-signing request produced
    /// for a challenge.
    AttestationData(Vec<u8>, Vec<u8>),
    /// The identifier of a freshly opened TLS session.
    TlsSession(u32),
    /// Whether the session has outward data waiting.
    TlsDataNeeded(bool),
    /// One outward chunk, and whether the session is still active.
    TlsData(Vec<u8>, bool),
}

/// The mathematical value of a request.
#[verifier::ext_equal]
pub ghost enum RequestModel {
    Attestation { challenge: Seq<u8>, device_id: i32 },
    Initialize { policy: Seq<char>, cert_chain: Seq<Seq<u8>> },
    NewTlsSession,
    CloseTlsSession { session_id: u32 },
    SendTlsData { session_id: u32, data: Seq<u8> },
    GetTlsDataNeeded { session_id: u32 },
    GetTlsData { session_id: u32 },
}

/// The mathematical value of a response.
#[verifier::ext_equal]
pub ghost enum ResponseModel {
    Status { status: Status },
    AttestationData { token: Seq<u8>, csr: Seq<u8> },
    TlsSession { session_id: u32 },
    TlsDataNeeded { needed: bool },
    TlsData { data: Seq<u8>, active: bool },
}

impl View for RuntimeManagerRequest {
    type V = RequestModel;

    open spec fn view(&self) -> RequestModel {
        match self {
            RuntimeManagerRequest::Attestation(challenge, device_id) => RequestModel::Attestation {
                challenge: challenge@,
                device_id: *device_id,
            },
            RuntimeManagerRequest::Initialize(policy, cert_chain) => RequestModel::Initialize {
                policy: policy@,
                cert_chain: cert_chain@.map_values(|v: Vec<u8>| v@),
            },
            RuntimeManagerRequest::NewTlsSession => RequestModel::NewTlsSession,
            RuntimeManagerRequest::CloseTlsSession(session_id) => RequestModel::CloseTlsSession {
                session_id: *session_id,
            },
            RuntimeManagerRequest::SendTlsData(session_id, data) => RequestModel::SendTlsData {
                session_id: *session_id,
                data: data@,
            },
            RuntimeManagerRequest::GetTlsDataNeeded(session_id) => RequestModel::GetTlsDataNeeded {
                session_id: *session_id,
            },
            RuntimeManagerRequest::GetTlsData(session_id) => RequestModel::GetTlsData {
                session_id: *session_id,
            },
        }
    }
}

impl View for RuntimeManagerResponse {
    type V = ResponseModel;

    open spec fn view(&self) -> ResponseModel {
        match self {
            RuntimeManagerResponse::Status(status) => ResponseModel::Status { status: *status },
            RuntimeManagerResponse::AttestationData(token, csr) => ResponseModel::AttestationData {
                token: token@,
                csr: csr@,
            },
            RuntimeManagerResponse::TlsSession(session_id) => ResponseModel::TlsSession {
                session_id: *session_id,
            },
            RuntimeManagerResponse::TlsDataNeeded(needed) => ResponseModel::TlsDataNeeded {
                needed: *needed,
            },
            RuntimeManagerResponse::TlsData(data, active) => ResponseModel::TlsData {
                data: data@,
                active: *active,
            },
        }
    }
}

} // verus!
