//! The host-call interface: the five operations a guest can reach.
//!
//! Each operation receives the guest's exported linear memory — resolved
//! afresh for every call, since the region can grow or move between calls
//! — and returns a status code as data.  A missing memory export is the
//! one fatal error here: it is a host-side invariant violation, distinct
//! from any status the guest can observe.  Every address/size pair is
//! validated against the current extent before any byte is copied.

use vstd::prelude::*;
use vstd::bytes::{spec_u32_to_le_bytes, lemma_auto_spec_u32_to_from_le_bytes};
use crate::error::FatalHostError;
use crate::error::HCallError;
use crate::lifecycle::ProvisioningModel;
use crate::lifecycle::WasmtimeHostProvisioningState;
use crate::memory::GuestMemory;
use crate::status::VeracruzError;

verus! {

/// The result of splicing `bytes` into `mem` at offset `address`: the
/// bytes before and after the written range are untouched.
pub open spec fn spliced(mem: Seq<u8>, address: u32, bytes: Seq<u8>) -> Seq<u8> {
    mem.subrange(0, address as int) + bytes + mem.subrange(address + bytes.len(), mem.len() as int)
}

/// Relies on byteorder's `LittleEndian::write_u32`: stores the four
/// little-endian bytes of `n` at the start of the buffer.
#[verifier::external_body]
fn write_u32_le(buf: &mut Vec<u8>, n: u32)
    requires
        old(buf)@.len() == 4,
    ensures
        final(buf)@ == spec_u32_to_le_bytes(n),
{
    <byteorder::LittleEndian as byteorder::ByteOrder>::write_u32(buf.as_mut_slice(), n);
}

/// The four little-endian bytes of `n`.
fn encode_u32_le(n: u32) -> (r: Vec<u8>)
    ensures
        r@ == spec_u32_to_le_bytes(n),
        r@.len() == 4,
{
    let mut buf: Vec<u8> = Vec::new();
    buf.push(0u8);
    buf.push(0u8);
    buf.push(0u8);
    buf.push(0u8);
    write_u32_le(&mut buf, n);
    proof {
        lemma_auto_spec_u32_to_from_le_bytes();
    }
    buf
}

/// Relies on rand's `OsRng::try_fill_bytes`, the operating system's
/// randomness source: on success the returned buffer holds `size` fresh
/// bytes; on failure the source was unavailable.  Nothing is assumed
/// about the byte values themselves.
#[verifier::external_body]
fn os_random_bytes(size: u32) -> (r: Option<Vec<u8>>)
    ensures
        r matches Some(v) ==> v@.len() == size,
{
    let mut buffer = vec![0u8; size as usize];
    match rand::RngCore::try_fill_bytes(&mut rand::rngs::OsRng, &mut buffer) {
        Ok(()) => Some(buffer),
        Err(_) => None,
    }
}

impl WasmtimeHostProvisioningState {
    /// Stores `size` bytes read from guest memory at `address` as the
    /// computation's result.  A second write after a result exists
    /// returns `ResultAlreadyWritten` and leaves the stored result
    /// untouched; an out-of-range read returns `BadInput` and stores
    /// nothing.
    pub fn write_output(&mut self, mem: &Option<GuestMemory>, address: u32, size: u32) -> (r:
        HCallError)
        requires
            old(self)@.wf(),
        ensures
            final(self)@.wf(),
            mem is None ==> r == Err::<VeracruzError, FatalHostError>(FatalHostError::NoMemoryRegistered) && final(self)@ == old(
                self,
            )@,
            mem matches Some(m) ==> {
                if !m.spec_in_bounds(address, size as int) {
                    r == Ok::<VeracruzError, FatalHostError>(VeracruzError::BadInput) && final(self)@ == old(self)@
                } else if old(self)@.result is Some {
                    r == Ok::<VeracruzError, FatalHostError>(VeracruzError::ResultAlreadyWritten) && final(self)@ == old(self)@
                } else {
                    r == Ok::<VeracruzError, FatalHostError>(VeracruzError::Success) && final(self)@ == (ProvisioningModel {
                        result: Some(m@.subrange(address as int, address + size)),
                        ..old(self)@
                    })
                }
            },
    {
        match mem {
            None => Err(FatalHostError::NoMemoryRegistered),
            Some(m) => {
                match m.read_bytes(address, size) {
                    None => Ok(VeracruzError::BadInput),
                    Some(bytes) => {
                        if self.is_result_registered() {
                            Ok(VeracruzError::ResultAlreadyWritten)
                        } else {
                            self.set_result(bytes.as_slice());
                            Ok(VeracruzError::Success)
                        }
                    },
                }
            },
        }
    }

    /// Writes the current data-source count, as four little-endian
    /// bytes, into guest memory at `address`.
    pub fn input_count(&self, mem: &mut Option<GuestMemory>, address: u32) -> (r: HCallError)
        requires
            self@.sources.len() <= u32::MAX,
        ensures
            *old(mem) is None ==> r == Err::<VeracruzError, FatalHostError>(FatalHostError::NoMemoryRegistered) && *final(mem) is None,
            *old(mem) matches Some(m) ==> *final(mem) matches Some(m2) && {
                if m.spec_in_bounds(address, 4) {
                    r == Ok::<VeracruzError, FatalHostError>(VeracruzError::Success) && m2@ == spliced(
                        m@,
                        address,
                        spec_u32_to_le_bytes(self@.sources.len() as u32),
                    )
                } else {
                    r == Ok::<VeracruzError, FatalHostError>(VeracruzError::BadInput) && m2@ == m@
                }
            },
    {
        match mem.take() {
            None => Err(FatalHostError::NoMemoryRegistered),
            Some(mut m) => {
                let count: u32 = self.get_current_data_source_count() as u32;
                let buf = encode_u32_le(count);
                let ok = m.write_bytes(address, buf.as_slice());
                *mem = Some(m);
                if ok {
                    Ok(VeracruzError::Success)
                } else {
                    Ok(VeracruzError::BadInput)
                }
            },
        }
    }

    /// Writes the byte length of data source `index`, as four
    /// little-endian bytes, into guest memory at `address`.  An index
    /// with no source returns `BadInput` and leaves memory untouched.
    pub fn input_size(&self, mem: &mut Option<GuestMemory>, index: u32, address: u32) -> (r:
        HCallError)
        requires
            self@.wf(),
        ensures
            *old(mem) is None ==> r == Err::<VeracruzError, FatalHostError>(FatalHostError::NoMemoryRegistered) && *final(mem) is None,
            *old(mem) matches Some(m) ==> *final(mem) matches Some(m2) && {
                if index >= self@.sources.len() {
                    r == Ok::<VeracruzError, FatalHostError>(VeracruzError::BadInput) && m2@ == m@
                } else if m.spec_in_bounds(address, 4) {
                    r == Ok::<VeracruzError, FatalHostError>(VeracruzError::Success) && m2@ == spliced(
                        m@,
                        address,
                        spec_u32_to_le_bytes(self@.sources[index as int].data.len() as u32),
                    )
                } else {
                    r == Ok::<VeracruzError, FatalHostError>(VeracruzError::BadInput) && m2@ == m@
                }
            },
    {
        match mem.take() {
            None => Err(FatalHostError::NoMemoryRegistered),
            Some(mut m) => {
                match self.get_current_data_source(index as usize) {
                    None => {
                        *mem = Some(m);
                        Ok(VeracruzError::BadInput)
                    },
                    Some(frame) => {
                        let len: u32 = frame.data.len() as u32;
                        let buf = encode_u32_le(len);
                        let ok = m.write_bytes(address, buf.as_slice());
                        *mem = Some(m);
                        if ok {
                            Ok(VeracruzError::Success)
                        } else {
                            Ok(VeracruzError::BadInput)
                        }
                    },
                }
            },
        }
    }

    /// Copies data source `index` into guest memory at `address`, if it
    /// fits in the `size` bytes the guest granted.  A source longer than
    /// `size` returns `DataSourceSize` and writes nothing; an index with
    /// no source, or a copy that would leave the current extent, returns
    /// `BadInput` and writes nothing.
    pub fn read_input(
        &self,
        mem: &mut Option<GuestMemory>,
        index: u32,
        address: u32,
        size: u32,
    ) -> (r: HCallError)
        requires
            self@.wf(),
        ensures
            *old(mem) is None ==> r == Err::<VeracruzError, FatalHostError>(FatalHostError::NoMemoryRegistered) && *final(mem) is None,
            *old(mem) matches Some(m) ==> *final(mem) matches Some(m2) && {
                if index >= self@.sources.len() {
                    r == Ok::<VeracruzError, FatalHostError>(VeracruzError::BadInput) && m2@ == m@
                } else {
                    let data = self@.sources[index as int].data;
                    if data.len() > size {
                        r == Ok::<VeracruzError, FatalHostError>(VeracruzError::DataSourceSize) && m2@ == m@
                    } else if m.spec_in_bounds(address, data.len() as int) {
                        r == Ok::<VeracruzError, FatalHostError>(VeracruzError::Success) && m2@ == spliced(m@, address, data)
                    } else {
                        r == Ok::<VeracruzError, FatalHostError>(VeracruzError::BadInput) && m2@ == m@
                    }
                }
            },
    {
        match mem.take() {
            None => Err(FatalHostError::NoMemoryRegistered),
            Some(mut m) => {
                match self.get_current_data_source(index as usize) {
                    None => {
                        *mem = Some(m);
                        Ok(VeracruzError::BadInput)
                    },
                    Some(frame) => {
                        if frame.data.len() > size as usize {
                            *mem = Some(m);
                            Ok(VeracruzError::DataSourceSize)
                        } else {
                            let ok = m.write_bytes(address, frame.data.as_slice());
                            *mem = Some(m);
                            if ok {
                                Ok(VeracruzError::Success)
                            } else {
                                Ok(VeracruzError::BadInput)
                            }
                        }
                    },
                }
            },
        }
    }

    /// Fills `size` bytes of guest memory at `address` from the
    /// platform's randomness source.  The address range is validated
    /// before anything else happens; bytes outside it are never touched.
    /// An exhausted randomness source returns `ServiceUnavailable` and
    /// writes nothing.
    pub fn get_random(&self, mem: &mut Option<GuestMemory>, address: u32, size: u32) -> (r:
        HCallError)
        ensures
            *old(mem) is None ==> r == Err::<VeracruzError, FatalHostError>(FatalHostError::NoMemoryRegistered) && *final(mem) is None,
            *old(mem) matches Some(m) ==> *final(mem) matches Some(m2) && m2@.len() == m@.len() && {
                if !m.spec_in_bounds(address, size as int) {
                    r == Ok::<VeracruzError, FatalHostError>(VeracruzError::BadInput) && m2@ == m@
                } else {
                    &&& (r == Ok::<VeracruzError, FatalHostError>(VeracruzError::Success) || r == Ok::<
                        VeracruzError,
                        FatalHostError,
                    >(VeracruzError::ServiceUnavailable))
                    &&& (r == Ok::<VeracruzError, FatalHostError>(VeracruzError::ServiceUnavailable) ==> m2@ == m@)
                    &&& (r == Ok::<VeracruzError, FatalHostError>(VeracruzError::Success) ==> forall|j: int|
                        0 <= j < m@.len() && !(address <= j < address + size) ==> m2@[j] == m@[j])
                }
            },
    {
        match mem.take() {
            None => Err(FatalHostError::NoMemoryRegistered),
            Some(mut m) => {
                if !m.in_bounds(address, size) {
                    *mem = Some(m);
                    Ok(VeracruzError::BadInput)
                } else {
                    match os_random_bytes(size) {
                        None => {
                            *mem = Some(m);
                            Ok(VeracruzError::ServiceUnavailable)
                        },
                        Some(buffer) => {
                            let ok = m.write_bytes(address, buffer.as_slice());
                            *mem = Some(m);
                            Ok(VeracruzError::Success)
                        },
                    }
                }
            },
        }
    }
}

} // verus!
