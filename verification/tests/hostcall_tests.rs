use veracruz_host::error::FatalHostError;
use veracruz_host::lifecycle::{initialize, DataSourceMetadata, LifecycleState};
use veracruz_host::engine::{begin_invocation, finish_invocation, EngineOutcome};
use veracruz_host::memory::GuestMemory;
use veracruz_host::status::VeracruzError;

fn source(identifier: u64, data: &[u8]) -> DataSourceMetadata {
    DataSourceMetadata { identifier, data: data.to_vec() }
}

fn read(mem: &Option<GuestMemory>, address: u32, size: u32) -> Vec<u8> {
    mem.as_ref().unwrap().read_bytes(address, size).unwrap()
}

#[test]
fn missing_memory_export_is_fatal_not_a_status() {
    let mut state = initialize(&[], &[]);
    state.load_program(&[1]).unwrap();
    let mut no_mem: Option<GuestMemory> = None;
    assert_eq!(
        state.input_count(&mut no_mem, 0),
        Err(FatalHostError::NoMemoryRegistered)
    );
    assert_eq!(
        state.get_random(&mut no_mem, 0, 4),
        Err(FatalHostError::NoMemoryRegistered)
    );
    assert_eq!(
        state.write_output(&no_mem, 0, 4),
        Err(FatalHostError::NoMemoryRegistered)
    );
}

#[test]
fn input_count_writes_count_little_endian() {
    let mut state = initialize(&[5, 6], &[]);
    state.load_program(&[1]).unwrap();
    state.add_new_data_source(source(5, b"abc")).unwrap();
    state.add_new_data_source(source(6, b"defg")).unwrap();
    let mut mem = Some(GuestMemory::zeroed(16));
    assert_eq!(state.input_count(&mut mem, 8), Ok(VeracruzError::Success));
    assert_eq!(read(&mem, 8, 4), vec![2, 0, 0, 0]);
    // Bytes outside the written range stay zero.
    assert_eq!(read(&mem, 0, 8), vec![0; 8]);
    assert_eq!(read(&mem, 12, 4), vec![0; 4]);
}

#[test]
fn input_count_out_of_bounds_address_is_bad_input() {
    let state = initialize(&[], &[]);
    let mut mem = Some(GuestMemory::zeroed(16));
    assert_eq!(state.input_count(&mut mem, 13), Ok(VeracruzError::BadInput));
    assert_eq!(read(&mem, 0, 16), vec![0; 16]);
}

#[test]
fn input_size_writes_source_length() {
    let mut state = initialize(&[5], &[]);
    state.load_program(&[1]).unwrap();
    state.add_new_data_source(source(5, b"abcde")).unwrap();
    let mut mem = Some(GuestMemory::zeroed(8));
    assert_eq!(state.input_size(&mut mem, 0, 0), Ok(VeracruzError::Success));
    assert_eq!(read(&mem, 0, 4), vec![5, 0, 0, 0]);
}

#[test]
fn input_size_bad_index_is_bad_input_and_memory_untouched() {
    let mut state = initialize(&[5], &[]);
    state.load_program(&[1]).unwrap();
    state.add_new_data_source(source(5, b"abcde")).unwrap();
    let mut mem = Some(GuestMemory::zeroed(8));
    assert_eq!(state.input_size(&mut mem, 1, 0), Ok(VeracruzError::BadInput));
    assert_eq!(read(&mem, 0, 8), vec![0; 8]);
}

#[test]
fn read_input_copies_source_exactly() {
    let mut state = initialize(&[5], &[]);
    state.load_program(&[1]).unwrap();
    state.add_new_data_source(source(5, b"payload")).unwrap();
    let mut mem = Some(GuestMemory::zeroed(16));
    assert_eq!(
        state.read_input(&mut mem, 0, 2, 10),
        Ok(VeracruzError::Success)
    );
    assert_eq!(read(&mem, 2, 7), b"payload".to_vec());
    assert_eq!(read(&mem, 0, 2), vec![0, 0]);
    assert_eq!(read(&mem, 9, 7), vec![0; 7]);
}

#[test]
fn read_input_with_undersized_buffer_writes_nothing() {
    // A buffer smaller than the source: DataSourceSize, no partial write.
    let mut state = initialize(&[5], &[]);
    state.load_program(&[1]).unwrap();
    state.add_new_data_source(source(5, b"payload")).unwrap();
    let mut mem = Some(GuestMemory::zeroed(16));
    assert_eq!(
        state.read_input(&mut mem, 0, 0, 3),
        Ok(VeracruzError::DataSourceSize)
    );
    assert_eq!(read(&mem, 0, 16), vec![0; 16]);
}

#[test]
fn read_input_bad_index_is_bad_input_and_memory_untouched() {
    let mut state = initialize(&[5], &[]);
    state.load_program(&[1]).unwrap();
    state.add_new_data_source(source(5, b"payload")).unwrap();
    let mut mem = Some(GuestMemory::zeroed(16));
    assert_eq!(
        state.read_input(&mut mem, 3, 0, 16),
        Ok(VeracruzError::BadInput)
    );
    assert_eq!(read(&mem, 0, 16), vec![0; 16]);
}

#[test]
fn write_output_stores_result_once() {
    let mut state = initialize(&[], &[]);
    state.load_program(&[1]).unwrap();
    let mem = Some(GuestMemory::from_bytes(vec![9, 8, 7, 6, 5]));
    assert_eq!(state.write_output(&mem, 1, 3), Ok(VeracruzError::Success));
    assert_eq!(state.get_result().unwrap(), vec![8, 7, 6]);
}

#[test]
fn write_output_twice_keeps_first_result() {
    // The second call reports ResultAlreadyWritten; the stored result
    // stays what the first call wrote.
    let mut state = initialize(&[], &[]);
    state.load_program(&[1]).unwrap();
    let mem = Some(GuestMemory::from_bytes(vec![1, 2, 3, 4]));
    assert_eq!(state.write_output(&mem, 0, 2), Ok(VeracruzError::Success));
    assert_eq!(
        state.write_output(&mem, 2, 2),
        Ok(VeracruzError::ResultAlreadyWritten)
    );
    assert_eq!(state.get_result().unwrap(), vec![1, 2]);
}

#[test]
fn write_output_out_of_bounds_is_bad_input() {
    let mut state = initialize(&[], &[]);
    state.load_program(&[1]).unwrap();
    let mem = Some(GuestMemory::from_bytes(vec![1, 2, 3, 4]));
    assert_eq!(state.write_output(&mem, 3, 2), Ok(VeracruzError::BadInput));
    assert!(state.get_result().is_none());
}

#[test]
fn get_random_fills_exactly_the_requested_range() {
    let state = initialize(&[], &[]);
    let mut mem = Some(GuestMemory::zeroed(32));
    assert_eq!(state.get_random(&mut mem, 4, 8), Ok(VeracruzError::Success));
    let region = read(&mem, 4, 8);
    assert_eq!(region.len(), 8);
    assert_eq!(read(&mem, 0, 4), vec![0; 4]);
    assert_eq!(read(&mem, 12, 20), vec![0; 20]);
}

#[test]
fn get_random_out_of_bounds_is_bad_input() {
    let state = initialize(&[], &[]);
    let mut mem = Some(GuestMemory::zeroed(8));
    assert_eq!(
        state.get_random(&mut mem, 4, 8),
        Ok(VeracruzError::BadInput)
    );
    assert_eq!(read(&mem, 0, 8), vec![0; 8]);
}

#[test]
fn guest_run_echoing_count_through_output() {
    // Expected sources = [1, 2]; provisioning walks to ReadyToExecute,
    // then a guest that calls input_count and echoes those bytes back
    // through write_output finishes with that result.
    let mut state = initialize(&[1, 2], &[]);
    state.load_program(b"module bytes").unwrap();
    assert_eq!(state.get_lifecycle_state(), LifecycleState::DataSourcesLoading);
    state.add_new_data_source(source(1, b"first")).unwrap();
    assert_eq!(state.get_lifecycle_state(), LifecycleState::DataSourcesLoading);
    state.add_new_data_source(source(2, b"second")).unwrap();
    assert_eq!(state.get_lifecycle_state(), LifecycleState::ReadyToExecute);

    let program = begin_invocation(&state).unwrap();
    assert_eq!(program, b"module bytes".to_vec());

    // The guest's run: input_count at address 0, then echo those four
    // bytes as the result.
    let mut mem = Some(GuestMemory::zeroed(64));
    assert_eq!(state.input_count(&mut mem, 0), Ok(VeracruzError::Success));
    assert_eq!(state.write_output(&mem, 0, 4), Ok(VeracruzError::Success));

    let exit = finish_invocation(&mut state, EngineOutcome::Exited { code: 0 }).unwrap();
    assert_eq!(exit, 0);
    assert_eq!(state.get_lifecycle_state(), LifecycleState::FinishedExecuting);
    assert_eq!(state.get_result().unwrap(), vec![2, 0, 0, 0]);
}

#[test]
fn status_codes_have_fixed_abi_values() {
    assert_eq!(VeracruzError::Success.code(), 0);
    assert_eq!(VeracruzError::BadInput.code(), 1);
    assert_eq!(VeracruzError::DataSourceSize.code(), 2);
    assert_eq!(VeracruzError::ServiceUnavailable.code(), 3);
    assert_eq!(VeracruzError::ResultAlreadyWritten.code(), 4);
    assert_eq!(VeracruzError::Generic.code(), 5);
    assert_eq!(VeracruzError::from_code(2), Some(VeracruzError::DataSourceSize));
    assert_eq!(VeracruzError::from_code(6), None);
    assert_eq!(VeracruzError::from_code(-1), None);
}
