//! A self-contained provisioning front.
//!
//! `DummyWasmtimeHostProvisioningState` bundles one owned provisioning
//! state behind the capability set a supervisor uses — load the program,
//! add data sources, query the lifecycle, collect the result.  Unlike a
//! process-wide singleton, each adapter owns its own state handle, so the
//! serialization discipline stays explicit at the boundary that receives
//! the calls.

use vstd::prelude::*;
use crate::error::HostProvisioningError;
use crate::lifecycle::{
    add_source_m, load_program_m, DataSourceMetadata, LifecycleState, ProvisioningModel,
    WasmtimeHostProvisioningState,
};

verus! {

/// A provisioning front owning its state.
pub struct DummyWasmtimeHostProvisioningState {
    state: WasmtimeHostProvisioningState,
}

impl View for DummyWasmtimeHostProvisioningState {
    type V = ProvisioningModel;

    closed spec fn view(&self) -> ProvisioningModel {
        self.state@
    }
}

impl DummyWasmtimeHostProvisioningState {
    /// A fresh front in `Initial`, expecting nothing yet.
    pub fn new() -> (s: Self)
        ensures
            s@.wf(),
            s@.state == LifecycleState::Initial,
            s@.program is None,
            s@.result is None,
            s@.expected_sources =~= Seq::<u64>::empty(),
            s@.expected_shutdown_sources =~= Seq::<u64>::empty(),
    {
        DummyWasmtimeHostProvisioningState { state: WasmtimeHostProvisioningState::new() }
    }

    /// Replaces the expected data sources; see the state's own method.
    pub fn set_expected_data_sources(&mut self, sources: &[u64])
        requires
            old(self)@.wf(),
            old(self)@.state == LifecycleState::Initial,
        ensures
            final(self)@.wf(),
            final(self)@ == (ProvisioningModel { expected_sources: sources@, ..old(self)@ }),
    {
        self.state.set_expected_data_sources(sources);
    }

    /// Replaces the shutdown allowlist; see the state's own method.
    pub fn set_expected_shutdown_sources(&mut self, sources: &[u64])
        requires
            old(self)@.wf(),
            old(self)@.state == LifecycleState::Initial,
        ensures
            final(self)@.wf(),
            final(self)@ == (ProvisioningModel {
                expected_shutdown_sources: sources@,
                ..old(self)@
            }),
    {
        self.state.set_expected_shutdown_sources(sources);
    }

    /// Loads the guest program; see the state's own method.
    pub fn load_program(&mut self, buffer: &[u8]) -> (r: Result<(), HostProvisioningError>)
        requires
            old(self)@.wf(),
        ensures
            final(self)@.wf(),
            final(self)@ == load_program_m(old(self)@, buffer@),
            r is Ok <==> old(self)@.state == LifecycleState::Initial,
    {
        self.state.load_program(buffer)
    }

    /// Registers an arriving data source; see the state's own method.
    pub fn add_new_data_source(&mut self, metadata: DataSourceMetadata) -> (r: Result<
        (),
        HostProvisioningError,
    >)
        requires
            old(self)@.wf(),
            metadata@.data.len() <= u32::MAX,
        ensures
            final(self)@.wf(),
            final(self)@ == add_source_m(old(self)@, metadata@),
            r is Ok <==> old(self)@.state == LifecycleState::DataSourcesLoading,
    {
        self.state.add_new_data_source(metadata)
    }

    /// The current lifecycle stage.
    pub fn get_lifecycle_state(&self) -> (r: LifecycleState)
        ensures
            r == self@.state,
    {
        self.state.get_lifecycle_state()
    }

    /// Whether a program has been loaded.
    pub fn is_program_registered(&self) -> (r: bool)
        ensures
            r == (self@.program is Some),
    {
        self.state.is_program_registered()
    }

    /// Whether the guest has written a result.
    pub fn is_result_registered(&self) -> (r: bool)
        ensures
            r == (self@.result is Some),
    {
        self.state.is_result_registered()
    }

    /// Whether every allowed identifier has requested shutdown.
    pub fn is_able_to_shutdown(&self) -> (r: bool)
        ensures
            r == (self@.expected_shutdown_sources.len() == 0),
    {
        self.state.is_able_to_shutdown()
    }

    /// The number of data sources received so far.
    pub fn get_current_data_source_count(&self) -> (r: usize)
        ensures
            r == self@.sources.len(),
    {
        self.state.get_current_data_source_count()
    }

    /// The identifiers of the expected data sources.
    pub fn get_expected_data_sources(&self) -> (r: Vec<u64>)
        ensures
            r@ == self@.expected_sources,
    {
        self.state.get_expected_data_sources()
    }

    /// The identifiers still allowed to request shutdown.
    pub fn get_expected_shutdown_sources(&self) -> (r: Vec<u64>)
        ensures
            r@ == self@.expected_shutdown_sources,
    {
        self.state.get_expected_shutdown_sources()
    }

    /// The result written by the guest, if any.
    pub fn get_result(&self) -> (r: Option<Vec<u8>>)
        ensures
            r is Some <==> self@.result is Some,
            r matches Some(b) ==> Some(b@) == self@.result,
    {
        self.state.get_result()
    }

    /// The digest of the loaded program, if any.
    pub fn get_program_digest(&self) -> (r: Option<Vec<u8>>)
        ensures
            r is Some <==> self@.digest is Some,
            r matches Some(d) ==> Some(d@) == self@.digest,
    {
        self.state.get_program_digest()
    }

    /// Forces the terminal `Error` state.
    pub fn invalidate(&mut self)
        requires
            old(self)@.wf(),
        ensures
            final(self)@.wf(),
            final(self)@ == (ProvisioningModel { state: LifecycleState::Error, ..old(self)@ }),
    {
        self.state.invalidate()
    }

    /// Processes a shutdown request; see the state's own method.
    pub fn request_shutdown(&mut self, client_id: u64)
        requires
            old(self)@.wf(),
        ensures
            final(self)@.wf(),
            final(self)@ == (ProvisioningModel {
                expected_shutdown_sources: old(self)@.expected_shutdown_sources.filter(
                    |x: u64| x != client_id,
                ),
                ..old(self)@
            }),
    {
        self.state.request_shutdown(client_id)
    }
}

} // verus!
