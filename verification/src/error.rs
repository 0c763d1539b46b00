//! Host-side error conditions.
//!
//! These are kept strictly apart from the guest-observable status codes in
//! `status`: an error here is an invariant violation on the host side.  It
//! aborts the current operation and is reported to the supervisor as
//! unrecoverable for this enclave instance.

use vstd::prelude::*;
use crate::lifecycle::LifecycleState;

verus! {

/// An error raised while provisioning the enclave with its program, data
/// sources, or shutdown permissions.
#[derive(Clone, PartialEq, Eq, Debug)]
pub enum HostProvisioningError {
    /// The operation is not legal in the current lifecycle state.  Carries
    /// the state the operation needed and the state that was found, so the
    /// failure can be diagnosed without re-running.
    InvalidLifeCycleState { expected: LifecycleState, found: LifecycleState },
}

/// A fatal error inside the host: an invariant violation that the guest
/// never observes.  The current operation is aborted; recovery means
/// discarding and recreating the enclave instance.
#[derive(Clone, PartialEq, Eq, Debug)]
pub enum FatalHostError {
    /// The guest module exports no linear memory region.
    NoMemoryRegistered,
    /// No program has been loaded into the provisioning state.
    NoProgramRegistered,
    /// The lifecycle state does not permit invocation.
    InvalidLifeCycleState { expected: LifecycleState, found: LifecycleState },
    /// The guest's program bytes were rejected by the execution engine.
    BadProgramModule,
    /// The guest asked for an import outside the reserved host-call
    /// namespace; carries the offending module and import name.
    UnrecognisedImport { module: String, name: String },
    /// The guest module has no entry-point export.
    NoEntryPoint,
    /// The entry-point export exists but its signature is neither of the
    /// two accepted shapes.
    BadEntryPointSignature,
    /// The guest trapped during execution; carries a description.
    ExecutionTrap { description: String },
}

/// The result of a single host call: either a status code handed back to
/// the guest as data, or a fatal host-side error.
pub type HCallError = Result<crate::status::VeracruzError, FatalHostError>;

} // verus!
