//! The provisioning lifecycle state machine.
//!
//! One `WasmtimeHostProvisioningState` exists per enclave session.  It
//! tracks provisioning progress: the loaded program and its digest, the
//! expected and received data sources, the shutdown allowlist, and the
//! result written by the guest.  Every mutation is specified against the
//! mathematical model `ProvisioningModel`, and the transition functions
//! `load_program_m` / `add_source_m` pin each step down exactly.

use vstd::prelude::*;
use vstd::slice::slice_to_vec;
use crate::digest::{digest, digest_spec};
use crate::error::HostProvisioningError;

verus! {

/// The provisioning stage an enclave session is in.  Gates which
/// operations are currently legal.
#[derive(Clone, Copy, PartialEq, Eq, Structural, Debug)]
pub enum LifecycleState {
    /// Freshly created: no program, no data sources.
    Initial,
    /// A program is loaded; data sources are still arriving.
    DataSourcesLoading,
    /// Everything expected has arrived; execution may start.
    ReadyToExecute,
    /// The guest ran to completion.
    FinishedExecuting,
    /// A precondition was violated.  Terminal: no further provisioning is
    /// accepted, recovery means recreating the enclave instance.
    Error,
}

/// A client-supplied input blob consumed by the guest: a 64-bit client
/// identifier and an opaque payload.  The arrival index of a source is its
/// position in the state's arrival-ordered inventory.
#[derive(Clone, Debug)]
pub struct DataSourceMetadata {
    /// The identifier of the client that supplied this source.
    pub identifier: u64,
    /// The payload handed to the guest.
    pub data: Vec<u8>,
}

/// The mathematical value of a data source.
#[verifier::ext_equal]
pub ghost struct SourceModel {
    pub identifier: u64,
    pub data: Seq<u8>,
}

impl View for DataSourceMetadata {
    type V = SourceModel;

    open spec fn view(&self) -> SourceModel {
        SourceModel { identifier: self.identifier, data: self.data@ }
    }
}

/// The mathematical model of a provisioning state.
#[verifier::ext_equal]
pub ghost struct ProvisioningModel {
    /// The loaded program bytes, once `load_program` has succeeded.
    pub program: Option<Seq<u8>>,
    /// The digest of the loaded program.
    pub digest: Option<Seq<u8>>,
    /// Identifiers of the data sources that must arrive before execution.
    pub expected_sources: Seq<u64>,
    /// The data sources received so far, in arrival order.
    pub sources: Seq<SourceModel>,
    /// Identifiers still allowed — and required — to request shutdown.
    pub expected_shutdown_sources: Seq<u64>,
    /// The result written by the guest, at most once.
    pub result: Option<Seq<u8>>,
    /// The current lifecycle stage.
    pub state: LifecycleState,
}

impl ProvisioningModel {
    /// Well-formedness: the digest tracks the program, and the source
    /// inventory agrees with the lifecycle stage.  Each source payload
    /// fits the guest's 32-bit address space.
    pub open spec fn wf(self) -> bool {
        &&& (self.program is Some <==> self.digest is Some)
        &&& (self.program matches Some(p) ==> self.digest == Some(digest_spec(p)))
        &&& match self.state {
            LifecycleState::Initial => {
                &&& self.program is None
                &&& self.sources.len() == 0
            },
            LifecycleState::DataSourcesLoading => {
                &&& self.program is Some
                &&& self.sources.len() < self.expected_sources.len()
            },
            LifecycleState::ReadyToExecute => {
                &&& self.program is Some
                &&& self.sources.len() == self.expected_sources.len()
            },
            LifecycleState::FinishedExecuting => self.program is Some,
            LifecycleState::Error => true,
        }
        &&& forall|i: int|
            0 <= i < self.sources.len() ==> (#[trigger] self.sources[i].data).len() <= u32::MAX
    }
}

/// The transition taken by `load_program`: in `Initial`, store the program
/// and its digest and move on according to the number of expected sources;
/// in any other state, fall to `Error`.
pub open spec fn load_program_m(m: ProvisioningModel, buffer: Seq<u8>) -> ProvisioningModel {
    if m.state == LifecycleState::Initial {
        ProvisioningModel {
            program: Some(buffer),
            digest: Some(digest_spec(buffer)),
            state: if m.expected_sources.len() == 0 {
                LifecycleState::ReadyToExecute
            } else {
                LifecycleState::DataSourcesLoading
            },
            ..m
        }
    } else {
        ProvisioningModel { state: LifecycleState::Error, ..m }
    }
}

/// The transition taken by `add_new_data_source`: in `DataSourcesLoading`,
/// append the source and re-evaluate readiness; in any other state, fall
/// to `Error`.
pub open spec fn add_source_m(m: ProvisioningModel, s: SourceModel) -> ProvisioningModel {
    if m.state == LifecycleState::DataSourcesLoading {
        ProvisioningModel {
            sources: m.sources.push(s),
            state: if m.sources.len() + 1 == m.expected_sources.len() {
                LifecycleState::ReadyToExecute
            } else {
                LifecycleState::DataSourcesLoading
            },
            ..m
        }
    } else {
        ProvisioningModel { state: LifecycleState::Error, ..m }
    }
}

/// Folds `add_source_m` over a sequence of arriving sources.
pub open spec fn add_all_m(m: ProvisioningModel, items: Seq<SourceModel>) -> ProvisioningModel
    decreases items.len(),
{
    if items.len() == 0 {
        m
    } else {
        add_all_m(add_source_m(m, items[0]), items.drop_first())
    }
}

/// Whatever the order and content of arriving sources, a state that is
/// loading data sources reaches `ReadyToExecute` exactly when the received
/// count equals the expected count; if the arrivals overshoot, the state
/// falls to `Error`.
pub proof fn lemma_data_provisioning(m: ProvisioningModel, items: Seq<SourceModel>)
    requires
        m.state == LifecycleState::DataSourcesLoading,
        m.sources.len() < m.expected_sources.len(),
    ensures
        m.sources.len() + items.len() <= m.expected_sources.len() ==> {
            let m2 = add_all_m(m, items);
            &&& m2.sources =~= m.sources + items
            &&& (m2.state == LifecycleState::ReadyToExecute <==> m.sources.len() + items.len()
                == m.expected_sources.len())
            &&& (m2.state == LifecycleState::DataSourcesLoading <==> m.sources.len() + items.len()
                < m.expected_sources.len())
        },
        m.sources.len() + items.len() > m.expected_sources.len() ==> add_all_m(m, items).state
            == LifecycleState::Error,
    decreases items.len(),
{
    if items.len() == 0 {
        assert(m.sources + items =~= m.sources);
    } else {
        let m1 = add_source_m(m, items[0]);
        if m1.state == LifecycleState::DataSourcesLoading {
            lemma_data_provisioning(m1, items.drop_first());
            assert(m1.sources + items.drop_first() =~= m.sources + items);
        } else {
            // One arrival completed the expected set.
            assert(m1.state == LifecycleState::ReadyToExecute);
            lemma_overshoot_stays_error_free(m1, items.drop_first());
            if items.len() > 1 {
                assert(add_source_m(m1, items.drop_first()[0]).state == LifecycleState::Error);
            } else {
                assert(m1.sources + items.drop_first() =~= m.sources + items);
            }
        }
    }
}

/// From any state other than `DataSourcesLoading`, further arrivals leave
/// the lifecycle out of the loading stage; from `Error` or after an
/// overshoot every later state is `Error`.
proof fn lemma_overshoot_stays_error_free(m: ProvisioningModel, items: Seq<SourceModel>)
    requires
        m.state != LifecycleState::DataSourcesLoading,
    ensures
        items.len() == 0 ==> add_all_m(m, items) == m,
        items.len() > 0 ==> add_all_m(m, items).state == LifecycleState::Error,
        items.len() > 0 ==> add_all_m(m, items).sources == m.sources,
    decreases items.len(),
{
    if items.len() > 0 {
        let m1 = add_source_m(m, items[0]);
        lemma_overshoot_stays_error_free(m1, items.drop_first());
    }
}

/// The host provisioning state: one per enclave session, mutated only
/// under exclusive access.
pub struct WasmtimeHostProvisioningState {
    program: Option<Vec<u8>>,
    program_digest: Option<Vec<u8>>,
    expected_data_sources: Vec<u64>,
    data_sources: Vec<DataSourceMetadata>,
    expected_shutdown_sources: Vec<u64>,
    result: Option<Vec<u8>>,
    lifecycle_state: LifecycleState,
}

impl View for WasmtimeHostProvisioningState {
    type V = ProvisioningModel;

    closed spec fn view(&self) -> ProvisioningModel {
        ProvisioningModel {
            program: match self.program {
                Some(p) => Some(p@),
                None => None,
            },
            digest: match self.program_digest {
                Some(d) => Some(d@),
                None => None,
            },
            expected_sources: self.expected_data_sources@,
            sources: self.data_sources@.map_values(|d: DataSourceMetadata| d@),
            expected_shutdown_sources: self.expected_shutdown_sources@,
            result: match self.result {
                Some(r) => Some(r@),
                None => None,
            },
            state: self.lifecycle_state,
        }
    }
}

impl WasmtimeHostProvisioningState {
    /// Creates a fresh state in `Initial` with nothing expected yet.
    pub fn new() -> (s: Self)
        ensures
            s@.wf(),
            s@.state == LifecycleState::Initial,
            s@.program is None,
            s@.result is None,
            s@.expected_sources =~= Seq::<u64>::empty(),
            s@.sources =~= Seq::<SourceModel>::empty(),
            s@.expected_shutdown_sources =~= Seq::<u64>::empty(),
    {
        let s = WasmtimeHostProvisioningState {
            program: None,
            program_digest: None,
            expected_data_sources: Vec::new(),
            data_sources: Vec::new(),
            expected_shutdown_sources: Vec::new(),
            result: None,
            lifecycle_state: LifecycleState::Initial,
        };
        proof {
            assert(s@.sources =~= Seq::<SourceModel>::empty());
        }
        s
    }

    /// Replaces the set of expected data-source identifiers.  Only legal
    /// before provisioning has begun.
    pub fn set_expected_data_sources(&mut self, sources: &[u64])
        requires
            old(self)@.wf(),
            old(self)@.state == LifecycleState::Initial,
        ensures
            final(self)@.wf(),
            final(self)@ == (ProvisioningModel { expected_sources: sources@, ..old(self)@ }),
    {
        self.expected_data_sources = slice_to_vec(sources);
        proof {
            assert(self@ =~~= (ProvisioningModel {
                expected_sources: sources@,
                ..old(self)@
            }));
        }
    }

    /// Replaces the shutdown allowlist.  Only legal before provisioning
    /// has begun.
    pub fn set_expected_shutdown_sources(&mut self, sources: &[u64])
        requires
            old(self)@.wf(),
            old(self)@.state == LifecycleState::Initial,
        ensures
            final(self)@.wf(),
            final(self)@ == (ProvisioningModel {
                expected_shutdown_sources: sources@,
                ..old(self)@
            }),
    {
        self.expected_shutdown_sources = slice_to_vec(sources);
        proof {
            assert(self@ =~~= (ProvisioningModel {
                expected_shutdown_sources: sources@,
                ..old(self)@
            }));
        }
    }

    /// Loads the guest program.  Succeeds only in `Initial`: the program
    /// and its digest are stored and the state advances to
    /// `ReadyToExecute` when no data sources are expected, otherwise to
    /// `DataSourcesLoading`.  In any other state the call fails with
    /// `InvalidLifeCycleState` and forces `Error` — a program is loaded at
    /// most once.
    pub fn load_program(&mut self, buffer: &[u8]) -> (r: Result<(), HostProvisioningError>)
        requires
            old(self)@.wf(),
        ensures
            final(self)@.wf(),
            final(self)@ == load_program_m(old(self)@, buffer@),
            r is Ok <==> old(self)@.state == LifecycleState::Initial,
            r matches Err(e) ==> e matches HostProvisioningError::InvalidLifeCycleState {
                expected,
                found,
            } && expected == LifecycleState::Initial && found == old(self)@.state,
    {
        if self.lifecycle_state == LifecycleState::Initial {
            self.program = Some(slice_to_vec(buffer));
            self.program_digest = Some(digest(buffer));
            if self.expected_data_sources.len() == 0 {
                self.lifecycle_state = LifecycleState::ReadyToExecute;
            } else {
                self.lifecycle_state = LifecycleState::DataSourcesLoading;
            }
            proof {
                assert(self@ =~~= load_program_m(old(self)@, buffer@));
            }
            Ok(())
        } else {
            let found = self.lifecycle_state;
            self.lifecycle_state = LifecycleState::Error;
            proof {
                assert(self@ =~~= load_program_m(old(self)@, buffer@));
            }
            Err(HostProvisioningError::InvalidLifeCycleState {
                expected: LifecycleState::Initial,
                found,
            })
        }
    }

    /// Registers an arriving data source.  Succeeds only in
    /// `DataSourcesLoading`: the source is appended to the arrival-ordered
    /// inventory and the state advances to `ReadyToExecute` exactly when
    /// the received count equals the expected count.  In any other state
    /// the call fails and forces `Error`.
    pub fn add_new_data_source(&mut self, metadata: DataSourceMetadata) -> (r: Result<
        (),
        HostProvisioningError,
    >)
        requires
            old(self)@.wf(),
            metadata@.data.len() <= u32::MAX,
        ensures
            final(self)@.wf(),
            final(self)@ == add_source_m(old(self)@, metadata@),
            r is Ok <==> old(self)@.state == LifecycleState::DataSourcesLoading,
            r matches Err(e) ==> e matches HostProvisioningError::InvalidLifeCycleState {
                expected,
                found,
            } && expected == LifecycleState::DataSourcesLoading && found == old(self)@.state,
    {
        if self.lifecycle_state == LifecycleState::DataSourcesLoading {
            let ghost prior = self@;
            self.data_sources.push(metadata);
            if self.data_sources.len() == self.expected_data_sources.len() {
                self.lifecycle_state = LifecycleState::ReadyToExecute;
            } else {
                self.lifecycle_state = LifecycleState::DataSourcesLoading;
            }
            proof {
                assert(self@.sources =~= prior.sources.push(metadata@));
                assert(self@ =~~= add_source_m(old(self)@, metadata@));
            }
            Ok(())
        } else {
            let found = self.lifecycle_state;
            self.lifecycle_state = LifecycleState::Error;
            proof {
                assert(self@ =~~= add_source_m(old(self)@, metadata@));
            }
            Err(HostProvisioningError::InvalidLifeCycleState {
                expected: LifecycleState::DataSourcesLoading,
                found,
            })
        }
    }

    /// The current lifecycle stage.
    pub fn get_lifecycle_state(&self) -> (r: LifecycleState)
        ensures
            r == self@.state,
    {
        self.lifecycle_state
    }

    /// Whether a program has been loaded.
    pub fn is_program_registered(&self) -> (r: bool)
        ensures
            r == (self@.program is Some),
    {
        self.program.is_some()
    }

    /// Whether the guest has written a result.
    pub fn is_result_registered(&self) -> (r: bool)
        ensures
            r == (self@.result is Some),
    {
        self.result.is_some()
    }

    /// The number of data sources received so far.
    pub fn get_current_data_source_count(&self) -> (r: usize)
        ensures
            r == self@.sources.len(),
    {
        self.data_sources.len()
    }

    /// The data source at the given arrival index, if any.
    pub fn get_current_data_source(&self, index: usize) -> (r: Option<&DataSourceMetadata>)
        ensures
            r is Some <==> index < self@.sources.len(),
            r matches Some(d) ==> d@ == self@.sources[index as int],
    {
        if index < self.data_sources.len() {
            Some(&self.data_sources[index])
        } else {
            None
        }
    }

    /// The identifiers of the data sources expected before execution.
    pub fn get_expected_data_sources(&self) -> (r: Vec<u64>)
        ensures
            r@ == self@.expected_sources,
    {
        slice_to_vec(self.expected_data_sources.as_slice())
    }

    /// The identifiers still allowed to request shutdown.
    pub fn get_expected_shutdown_sources(&self) -> (r: Vec<u64>)
        ensures
            r@ == self@.expected_shutdown_sources,
    {
        slice_to_vec(self.expected_shutdown_sources.as_slice())
    }

    /// The number of data sources expected before execution.
    pub fn get_expected_data_source_count(&self) -> (r: usize)
        ensures
            r == self@.expected_sources.len(),
    {
        self.expected_data_sources.len()
    }

    /// The loaded program bytes, if any.
    pub fn get_program(&self) -> (r: Option<Vec<u8>>)
        ensures
            r is Some <==> self@.program is Some,
            r matches Some(p) ==> Some(p@) == self@.program,
    {
        match &self.program {
            Some(p) => Some(slice_to_vec(p.as_slice())),
            None => None,
        }
    }

    /// The digest of the loaded program, if any.
    pub fn get_program_digest(&self) -> (r: Option<Vec<u8>>)
        ensures
            r is Some <==> self@.digest is Some,
            r matches Some(d) ==> Some(d@) == self@.digest,
    {
        match &self.program_digest {
            Some(d) => Some(slice_to_vec(d.as_slice())),
            None => None,
        }
    }

    /// The result written by the guest, if any.
    pub fn get_result(&self) -> (r: Option<Vec<u8>>)
        ensures
            r is Some <==> self@.result is Some,
            r matches Some(b) ==> Some(b@) == self@.result,
    {
        match &self.result {
            Some(b) => Some(slice_to_vec(b.as_slice())),
            None => None,
        }
    }

    /// Stores the guest's result.  Callers guard against overwriting: a
    /// result is written at most once.
    pub fn set_result(&mut self, bytes: &[u8])
        requires
            old(self)@.wf(),
            old(self)@.result is None,
        ensures
            final(self)@.wf(),
            final(self)@ == (ProvisioningModel { result: Some(bytes@), ..old(self)@ }),
    {
        self.result = Some(slice_to_vec(bytes));
        proof {
            assert(self@ =~~= (ProvisioningModel { result: Some(bytes@), ..old(self)@ }));
        }
    }

    /// Forces the terminal `Error` state.
    pub fn invalidate(&mut self)
        requires
            old(self)@.wf(),
        ensures
            final(self)@.wf(),
            final(self)@ == (ProvisioningModel { state: LifecycleState::Error, ..old(self)@ }),
    {
        self.lifecycle_state = LifecycleState::Error;
        proof {
            assert(self@ =~~= (ProvisioningModel {
                state: LifecycleState::Error,
                ..old(self)@
            }));
        }
    }

    /// Marks the guest as having run to completion.
    pub fn set_finished_executing(&mut self)
        requires
            old(self)@.wf(),
            old(self)@.state == LifecycleState::ReadyToExecute,
        ensures
            final(self)@.wf(),
            final(self)@ == (ProvisioningModel {
                state: LifecycleState::FinishedExecuting,
                ..old(self)@
            }),
    {
        self.lifecycle_state = LifecycleState::FinishedExecuting;
        proof {
            assert(self@ =~~= (ProvisioningModel {
                state: LifecycleState::FinishedExecuting,
                ..old(self)@
            }));
        }
    }

    /// Processes a shutdown request.  Only identifiers present in the
    /// allowlist have any effect: the requesting identifier is discharged
    /// from the list, and shutdown becomes permitted once every allowed
    /// identifier has requested it.
    pub fn request_shutdown(&mut self, client_id: u64)
        requires
            old(self)@.wf(),
        ensures
            final(self)@.wf(),
            final(self)@ == (ProvisioningModel {
                expected_shutdown_sources: old(self)@.expected_shutdown_sources.filter(
                    |x: u64| x != client_id,
                ),
                ..old(self)@
            }),
    {
        let mut remaining: Vec<u64> = Vec::new();
        let mut i: usize = 0;
        let n: usize = self.expected_shutdown_sources.len();
        proof {
            reveal(Seq::filter);
            assert(self.expected_shutdown_sources@.take(0).filter(|x: u64| x != client_id)
                =~= Seq::<u64>::empty());
        }
        while i < n
            invariant
                n == self.expected_shutdown_sources.len(),
                i <= n,
                remaining@ == self.expected_shutdown_sources@.take(i as int).filter(
                    |x: u64| x != client_id,
                ),
            decreases n - i,
        {
            let ghost taken = self.expected_shutdown_sources@.take(i as int);
            let x = self.expected_shutdown_sources[i];
            if x != client_id {
                remaining.push(x);
            }
            proof {
                reveal(Seq::filter);
                assert(self.expected_shutdown_sources@.take(i + 1) =~= taken.push(x));
                assert(taken.push(x).drop_last() =~= taken);
            }
            i = i + 1;
        }
        proof {
            assert(self.expected_shutdown_sources@.take(n as int)
                =~= self.expected_shutdown_sources@);
        }
        self.expected_shutdown_sources = remaining;
        proof {
            assert(self@ =~~= (ProvisioningModel {
                expected_shutdown_sources: old(self)@.expected_shutdown_sources.filter(
                    |x: u64| x != client_id,
                ),
                ..old(self)@
            }));
        }
    }

    /// Whether shutdown is permitted: every identifier on the allowlist
    /// has requested it.
    pub fn is_able_to_shutdown(&self) -> (r: bool)
        ensures
            r == (self@.expected_shutdown_sources.len() == 0),
    {
        self.expected_shutdown_sources.len() == 0
    }
}

/// Creates a provisioning state expecting the given data sources and
/// honouring the given shutdown allowlist.  The state starts in
/// `Initial`.
pub fn initialize(expected_data_sources: &[u64], expected_shutdown_sources: &[u64]) -> (s:
    WasmtimeHostProvisioningState)
    ensures
        s@.wf(),
        s@.state == LifecycleState::Initial,
        s@.program is None,
        s@.result is None,
        s@.sources =~= Seq::<SourceModel>::empty(),
        s@.expected_sources == expected_data_sources@,
        s@.expected_shutdown_sources == expected_shutdown_sources@,
{
    let mut s = WasmtimeHostProvisioningState::new();
    s.set_expected_data_sources(expected_data_sources);
    s.set_expected_shutdown_sources(expected_shutdown_sources);
    s
}

} // verus!
