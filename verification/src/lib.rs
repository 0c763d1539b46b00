//! A verified core for a trusted execution environment that runs untrusted
//! guest programs.
//!
//! The library covers three layers of the trusted host:
//!
//! * the provisioning lifecycle state machine that gates loading of the
//!   guest program, arrival of data sources, and shutdown requests;
//! * the host-call interface the guest reaches through its imports, with
//!   bounds-checked access to the guest's linear memory;
//! * the framed session protocol that an untrusted supervisor uses to drive
//!   the enclave: attestation, initialization, and TLS session traffic.
//!
//! All state-changing operations carry contracts; the wire codec comes with
//! a proved round-trip theorem.

pub mod adapter;
pub mod codec;
pub mod digest;
pub mod engine;
pub mod error;
pub mod hostcall;
pub mod lifecycle;
pub mod memory;
pub mod messages;
pub mod numparse;
pub mod session;
pub mod status;
