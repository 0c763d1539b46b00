use veracruz_host::lifecycle::{
    initialize, DataSourceMetadata, LifecycleState, WasmtimeHostProvisioningState,
};
use veracruz_host::error::HostProvisioningError;

fn source(identifier: u64, data: &[u8]) -> DataSourceMetadata {
    DataSourceMetadata { identifier, data: data.to_vec() }
}

#[test]
fn fresh_state_is_initial() {
    let state = WasmtimeHostProvisioningState::new();
    assert_eq!(state.get_lifecycle_state(), LifecycleState::Initial);
    assert!(!state.is_program_registered());
    assert!(!state.is_result_registered());
    assert_eq!(state.get_current_data_source_count(), 0);
}

#[test]
fn initialize_records_expectations() {
    let state = initialize(&[1, 2, 3], &[7]);
    assert_eq!(state.get_lifecycle_state(), LifecycleState::Initial);
    assert_eq!(state.get_expected_data_sources(), vec![1, 2, 3]);
    assert_eq!(state.get_expected_shutdown_sources(), vec![7]);
}

#[test]
fn load_program_with_no_expected_sources_is_ready_immediately() {
    // Expected sources = []: no data-source calls are needed.
    let mut state = initialize(&[], &[]);
    state.load_program(&[0x00, 0x61, 0x73, 0x6d]).unwrap();
    assert_eq!(state.get_lifecycle_state(), LifecycleState::ReadyToExecute);
    assert!(state.is_program_registered());
}

#[test]
fn load_program_with_expected_sources_waits_for_them() {
    let mut state = initialize(&[1, 2], &[]);
    state.load_program(&[1, 2, 3]).unwrap();
    assert_eq!(state.get_lifecycle_state(), LifecycleState::DataSourcesLoading);
}

#[test]
fn load_program_twice_fails_and_forces_error() {
    let mut state = initialize(&[], &[]);
    state.load_program(&[1]).unwrap();
    let again = state.load_program(&[2]);
    match again {
        Err(HostProvisioningError::InvalidLifeCycleState { expected, found }) => {
            assert_eq!(expected, LifecycleState::Initial);
            assert_eq!(found, LifecycleState::ReadyToExecute);
        }
        other => panic!("expected InvalidLifeCycleState, got {:?}", other),
    }
    assert_eq!(state.get_lifecycle_state(), LifecycleState::Error);
}

#[test]
fn sources_reach_ready_exactly_at_expected_count() {
    let mut state = initialize(&[1, 2], &[]);
    state.load_program(&[9]).unwrap();
    state.add_new_data_source(source(1, b"one")).unwrap();
    assert_eq!(state.get_lifecycle_state(), LifecycleState::DataSourcesLoading);
    state.add_new_data_source(source(2, b"two")).unwrap();
    assert_eq!(state.get_lifecycle_state(), LifecycleState::ReadyToExecute);
    assert_eq!(state.get_current_data_source_count(), 2);
}

#[test]
fn sources_arrive_in_any_order() {
    // The other ordering of the same two identifiers also completes.
    let mut state = initialize(&[1, 2], &[]);
    state.load_program(&[9]).unwrap();
    state.add_new_data_source(source(2, b"two")).unwrap();
    assert_eq!(state.get_lifecycle_state(), LifecycleState::DataSourcesLoading);
    state.add_new_data_source(source(1, b"one")).unwrap();
    assert_eq!(state.get_lifecycle_state(), LifecycleState::ReadyToExecute);
}

#[test]
fn source_beyond_expected_count_fails_and_forces_error() {
    let mut state = initialize(&[1], &[]);
    state.load_program(&[9]).unwrap();
    state.add_new_data_source(source(1, b"one")).unwrap();
    assert_eq!(state.get_lifecycle_state(), LifecycleState::ReadyToExecute);
    let extra = state.add_new_data_source(source(9, b"extra"));
    assert!(extra.is_err());
    assert_eq!(state.get_lifecycle_state(), LifecycleState::Error);
}

#[test]
fn source_before_program_fails_and_forces_error() {
    let mut state = initialize(&[1], &[]);
    let r = state.add_new_data_source(source(1, b"early"));
    assert!(r.is_err());
    assert_eq!(state.get_lifecycle_state(), LifecycleState::Error);
}

#[test]
fn error_state_is_absorbing() {
    let mut state = initialize(&[1], &[]);
    state.invalidate();
    assert_eq!(state.get_lifecycle_state(), LifecycleState::Error);
    assert!(state.load_program(&[1]).is_err());
    assert_eq!(state.get_lifecycle_state(), LifecycleState::Error);
    assert!(state.add_new_data_source(source(1, b"x")).is_err());
    assert_eq!(state.get_lifecycle_state(), LifecycleState::Error);
}

#[test]
fn program_digest_is_stored_with_program() {
    let mut state = initialize(&[], &[]);
    assert!(state.get_program_digest().is_none());
    state.load_program(b"program bytes").unwrap();
    let digest = state.get_program_digest().unwrap();
    assert_eq!(digest, veracruz_host::digest::digest(b"program bytes"));
    assert_eq!(digest.len(), 8);
}

#[test]
fn digest_has_fixed_known_value_for_empty_input() {
    // FNV-1a 64 offset basis, little-endian.
    let d = veracruz_host::digest::digest(b"");
    assert_eq!(d, vec![0x25, 0x23, 0x22, 0x84, 0xe4, 0x9c, 0xf2, 0xcb]);
}

#[test]
fn digest_distinguishes_inputs() {
    assert_ne!(
        veracruz_host::digest::digest(b"a"),
        veracruz_host::digest::digest(b"b")
    );
}

#[test]
fn shutdown_allowed_only_after_every_allowlisted_request() {
    let mut state = initialize(&[], &[10, 20]);
    assert!(!state.is_able_to_shutdown());
    state.request_shutdown(99); // not on the allowlist: no effect
    assert!(!state.is_able_to_shutdown());
    state.request_shutdown(10);
    assert!(!state.is_able_to_shutdown());
    state.request_shutdown(20);
    assert!(state.is_able_to_shutdown());
    assert_eq!(state.get_expected_shutdown_sources(), Vec::<u64>::new());
}
