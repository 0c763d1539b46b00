//! Entry-point invocation: what the host decides before and after the
//! execution engine runs the guest.
//!
//! The engine itself is a black box that executes the loaded program.
//! Everything the host decides around it is here: only imports from the
//! reserved namespace with the five host-call names are bound; the
//! entry point's signature must be one of the two accepted shapes; the
//! lifecycle must be `ReadyToExecute` before any guest code runs; and
//! the outcome of the run moves the lifecycle to `FinishedExecuting` or
//! `Error`.

use vstd::prelude::*;
use vstd::utf8::{encode_utf8, encode_utf8_decode_utf8};
use vstd::string::StringExecFns;
use crate::error::FatalHostError;
use crate::lifecycle::{LifecycleState, ProvisioningModel, WasmtimeHostProvisioningState};

verus! {

/// The reserved import namespace for host calls.
pub const HOST_CALL_NAMESPACE: &'static str = "env";

/// The import name bound to the randomness host call.
pub const HCALL_GETRANDOM_NAME: &'static str = "__veracruz_hcall_getrandom";

/// The import name bound to the data-source-count host call.
pub const HCALL_INPUT_COUNT_NAME: &'static str = "__veracruz_hcall_input_count";

/// The import name bound to the data-source-size host call.
pub const HCALL_INPUT_SIZE_NAME: &'static str = "__veracruz_hcall_input_size";

/// The import name bound to the data-source-read host call.
pub const HCALL_READ_INPUT_NAME: &'static str = "__veracruz_hcall_read_input";

/// The import name bound to the result-write host call.
pub const HCALL_WRITE_OUTPUT_NAME: &'static str = "__veracruz_hcall_write_output";

/// The name of the guest's entry-point export.
pub const ENTRY_POINT_NAME: &'static str = "main";

/// The name of the guest's linear-memory export.
pub const LINEAR_MEMORY_NAME: &'static str = "memory";

/// A value type in the guest's type signatures.
#[derive(Clone, Copy, PartialEq, Eq, Structural, Debug)]
pub enum ValType {
    I32,
    I64,
    F32,
    F64,
}

/// The shape of an export or import, as the engine reports it.
#[derive(Clone, PartialEq, Eq, Debug)]
pub enum ExternType {
    /// A function, with its parameter types.
    Func(Vec<ValType>),
    /// A linear memory region.
    Memory,
    /// A global.
    Global,
    /// A table.
    Table,
}

/// The accepted shapes of the guest's entry point.
#[derive(Clone, Copy, PartialEq, Eq, Structural, Debug)]
pub enum EntrySignature {
    /// Two 32-bit integers, argc/argv style; invoked with (0, 0).
    ArgvAndArgc,
    /// No parameters; invoked with no arguments.
    NoParameters,
    /// Anything else: no usable entry point.
    NoEntryFound,
}

/// The five operations the guest may import.
#[derive(Clone, Copy, PartialEq, Eq, Structural, Debug)]
pub enum HostCall {
    GetRandom,
    InputCount,
    InputSize,
    ReadInput,
    WriteOutput,
}

/// How `check_main` classifies an entry-point export.
pub open spec fn entry_signature_of(tau: ExternType) -> EntrySignature {
    match tau {
        ExternType::Func(params) => if params@ == seq![ValType::I32, ValType::I32] {
            EntrySignature::ArgvAndArgc
        } else if params@.len() == 0 {
            EntrySignature::NoParameters
        } else {
            EntrySignature::NoEntryFound
        },
        _ => EntrySignature::NoEntryFound,
    }
}

/// Classifies the guest's entry-point export: declared with `argc` and
/// `argv`, declared with no parameters, or unusable.
pub fn check_main(tau: &ExternType) -> (r: EntrySignature)
    ensures
        r == entry_signature_of(*tau),
{
    match tau {
        ExternType::Func(params) => {
            if params.len() == 2 {
                let two_i32 = params[0] == ValType::I32 && params[1] == ValType::I32;
                proof {
                    if two_i32 {
                        assert(params@ =~= seq![ValType::I32, ValType::I32]);
                    } else {
                        assert(params@ != seq![ValType::I32, ValType::I32]);
                    }
                }
                if two_i32 {
                    EntrySignature::ArgvAndArgc
                } else {
                    EntrySignature::NoEntryFound
                }
            } else if params.len() == 0 {
                proof {
                    assert(params@ != seq![ValType::I32, ValType::I32]);
                }
                EntrySignature::NoParameters
            } else {
                proof {
                    assert(params@ != seq![ValType::I32, ValType::I32]);
                }
                EntrySignature::NoEntryFound
            }
        },
        _ => EntrySignature::NoEntryFound,
    }
}

/// Byte-for-byte equality of two slices.
fn bytes_eq(a: &[u8], b: &[u8]) -> (r: bool)
    ensures
        r == (a@ == b@),
{
    if a.len() != b.len() {
        proof {
            assert(a@ != b@);
        }
        return false;
    }
    let n = a.len();
    let mut i: usize = 0;
    while i < n
        invariant
            n == a@.len() == b@.len(),
            i <= n,
            forall|j: int| 0 <= j < i ==> a@[j] == b@[j],
        decreases n - i,
    {
        if a[i] != b[i] {
            proof {
                assert(a@ != b@);
            }
            return false;
        }
        i = i + 1;
    }
    proof {
        assert(a@ =~= b@);
    }
    true
}

/// Equality of two strings, compared through their UTF-8 bytes.
fn str_eq(a: &str, b: &str) -> (r: bool)
    ensures
        r == (a@ == b@),
{
    let r = bytes_eq(a.as_bytes(), b.as_bytes());
    proof {
        if encode_utf8(a@) == encode_utf8(b@) {
            encode_utf8_decode_utf8(a@);
            encode_utf8_decode_utf8(b@);
        }
    }
    r
}

/// Which host call, if any, an import resolves to: the module must be
/// the reserved namespace and the name one of the five operations.
pub open spec fn host_call_of(module: Seq<char>, name: Seq<char>) -> Option<HostCall> {
    if module != HOST_CALL_NAMESPACE@ {
        None
    } else if name == HCALL_GETRANDOM_NAME@ {
        Some(HostCall::GetRandom)
    } else if name == HCALL_INPUT_COUNT_NAME@ {
        Some(HostCall::InputCount)
    } else if name == HCALL_INPUT_SIZE_NAME@ {
        Some(HostCall::InputSize)
    } else if name == HCALL_READ_INPUT_NAME@ {
        Some(HostCall::ReadInput)
    } else if name == HCALL_WRITE_OUTPUT_NAME@ {
        Some(HostCall::WriteOutput)
    } else {
        None
    }
}

/// Resolves one import to a host call, or reports the offending
/// module and name: the guest cannot reach anything else.
pub fn lookup_host_call(module: &str, name: &str) -> (r: Result<HostCall, FatalHostError>)
    ensures
        r matches Ok(h) ==> host_call_of(module@, name@) == Some(h),
        r is Err <==> host_call_of(module@, name@) is None,
        r matches Err(e) ==> e matches FatalHostError::UnrecognisedImport { module: m2, name: n2 }
            && m2@ == module@ && n2@ == name@,
{
    if !str_eq(module, HOST_CALL_NAMESPACE) {
        Err(FatalHostError::UnrecognisedImport {
            module: String::from_str(module),
            name: String::from_str(name),
        })
    } else if str_eq(name, HCALL_GETRANDOM_NAME) {
        Ok(HostCall::GetRandom)
    } else if str_eq(name, HCALL_INPUT_COUNT_NAME) {
        Ok(HostCall::InputCount)
    } else if str_eq(name, HCALL_INPUT_SIZE_NAME) {
        Ok(HostCall::InputSize)
    } else if str_eq(name, HCALL_READ_INPUT_NAME) {
        Ok(HostCall::ReadInput)
    } else if str_eq(name, HCALL_WRITE_OUTPUT_NAME) {
        Ok(HostCall::WriteOutput)
    } else {
        Err(FatalHostError::UnrecognisedImport {
            module: String::from_str(module),
            name: String::from_str(name),
        })
    }
}

/// One import a guest module asks for.
#[derive(Clone, Debug)]
pub struct Import {
    /// The module the import is taken from.
    pub module: String,
    /// The imported name.
    pub name: String,
}

/// Resolves every import of a guest module, in order.  A single import
/// outside the host-call interface fails the whole module before any
/// guest code runs.
pub fn validate_imports(imports: &Vec<Import>) -> (r: Result<Vec<HostCall>, FatalHostError>)
    ensures
        r matches Ok(v) ==> v@.len() == imports@.len() && forall|i: int|
            0 <= i < v@.len() ==> host_call_of(imports@[i].module@, imports@[i].name@) == Some(
                #[trigger] v@[i],
            ),
        r is Err <==> exists|i: int|
            0 <= i < imports@.len() && #[trigger] host_call_of(
                imports@[i].module@,
                imports@[i].name@,
            ) is None,
{
    let mut bound: Vec<HostCall> = Vec::new();
    let mut i: usize = 0;
    while i < imports.len()
        invariant
            i <= imports@.len(),
            bound@.len() == i,
            forall|j: int| 0 <= j < i ==> host_call_of(imports@[j].module@, imports@[j].name@)
                == Some(#[trigger] bound@[j]),
            forall|j: int| 0 <= j < i ==> !(#[trigger] host_call_of(
                imports@[j].module@,
                imports@[j].name@,
            ) is None),
        decreases imports@.len() - i,
    {
        let import = &imports[i];
        match lookup_host_call(import.module.as_str(), import.name.as_str()) {
            Ok(h) => {
                bound.push(h);
            },
            Err(e) => {
                return Err(e);
            },
        }
        i = i + 1;
    }
    Ok(bound)
}

/// Checks that invocation is legal and hands out the program to run.
/// Requires `ReadyToExecute`; well-formedness guarantees a program is
/// present there.
pub fn begin_invocation(state: &WasmtimeHostProvisioningState) -> (r: Result<
    Vec<u8>,
    FatalHostError,
>)
    requires
        state@.wf(),
    ensures
        r matches Ok(p) ==> state@.state == LifecycleState::ReadyToExecute && Some(p@)
            == state@.program,
        r is Err <==> state@.state != LifecycleState::ReadyToExecute,
        r matches Err(e) ==> e matches FatalHostError::InvalidLifeCycleState { expected, found }
            && expected == LifecycleState::ReadyToExecute && found == state@.state,
{
    let current = state.get_lifecycle_state();
    if current == LifecycleState::ReadyToExecute {
        match state.get_program() {
            Some(program) => Ok(program),
            None => {
                // Unreachable: well-formedness gives a program in
                // `ReadyToExecute`.
                proof {
                    assert(false);
                }
                Err(FatalHostError::NoProgramRegistered)
            },
        }
    } else {
        Err(FatalHostError::InvalidLifeCycleState {
            expected: LifecycleState::ReadyToExecute,
            found: current,
        })
    }
}

/// Resolves the guest's entry-point export before any guest code
/// runs: a missing export, or one whose signature is neither accepted
/// shape, is a fatal configuration error.
pub fn resolve_entry_point(export: Option<&ExternType>) -> (r: Result<
    EntrySignature,
    FatalHostError,
>)
    ensures
        match export {
            None => r == Err::<EntrySignature, FatalHostError>(FatalHostError::NoEntryPoint),
            Some(tau) => {
                if entry_signature_of(*tau) == EntrySignature::NoEntryFound {
                    r == Err::<EntrySignature, FatalHostError>(
                        FatalHostError::BadEntryPointSignature,
                    )
                } else {
                    r == Ok::<EntrySignature, FatalHostError>(entry_signature_of(*tau))
                }
            },
        },
{
    match export {
        None => Err(FatalHostError::NoEntryPoint),
        Some(tau) => {
            let signature = check_main(tau);
            if signature == EntrySignature::NoEntryFound {
                Err(FatalHostError::BadEntryPointSignature)
            } else {
                Ok(signature)
            }
        },
    }
}

/// What the engine reports after running the guest.
#[derive(Clone, PartialEq, Eq, Debug)]
pub enum EngineOutcome {
    /// The guest ran to completion with this exit code.
    Exited { code: i32 },
    /// The guest trapped; carries the engine's description.
    Trapped { description: String },
}

/// Records the outcome of a guest run: a completed run moves the
/// lifecycle to `FinishedExecuting` and returns the exit code; a trap
/// forces `Error` and surfaces as a fatal execution error.
pub fn finish_invocation(state: &mut WasmtimeHostProvisioningState, outcome: EngineOutcome) -> (r:
    Result<i32, FatalHostError>)
    requires
        old(state)@.wf(),
        old(state)@.state == LifecycleState::ReadyToExecute,
    ensures
        final(state)@.wf(),
        outcome matches EngineOutcome::Exited { code } ==> r == Ok::<i32, FatalHostError>(code)
            && final(state)@ == (ProvisioningModel {
            state: LifecycleState::FinishedExecuting,
            ..old(state)@
        }),
        outcome matches EngineOutcome::Trapped { description } ==> (r matches Err(e)
            && e matches FatalHostError::ExecutionTrap { description: d } && d@ == description@)
            && final(state)@ == (ProvisioningModel { state: LifecycleState::Error, ..old(state)@ }),
{
    match outcome {
        EngineOutcome::Exited { code } => {
            state.set_finished_executing();
            Ok(code)
        },
        EngineOutcome::Trapped { description } => {
            state.invalidate();
            Err(FatalHostError::ExecutionTrap { description })
        },
    }
}

} // verus!
