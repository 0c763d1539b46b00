//! The program digest stored alongside loaded program bytes.
//!
//! The digest is a 64-bit Fowler–Noll–Vo (FNV-1a) hash of the program,
//! rendered as its eight little-endian bytes.  It identifies which program
//! was provisioned; it makes no cryptographic claim.

use vstd::prelude::*;
use vstd::bytes::{spec_u64_to_le_bytes, u64_to_le_bytes};

verus! {

/// FNV-1a 64-bit offset basis.
pub const FNV_OFFSET_BASIS: u64 = 0xcbf2_9ce4_8422_2325;

/// FNV-1a 64-bit prime.
pub const FNV_PRIME: u64 = 0x0000_0100_0000_01b3;

/// The FNV-1a hash of a byte sequence: fold each byte into the
/// accumulator by exclusive-or, then multiply by the prime, wrapping.
pub open spec fn fnv1a_64(bytes: Seq<u8>) -> u64
    decreases bytes.len(),
{
    if bytes.len() == 0 {
        FNV_OFFSET_BASIS
    } else {
        (fnv1a_64(bytes.drop_last()) ^ (bytes.last() as u64)).wrapping_mul(FNV_PRIME)
    }
}

/// The digest of a program: the FNV-1a hash as little-endian bytes.
pub open spec fn digest_spec(bytes: Seq<u8>) -> Seq<u8> {
    spec_u64_to_le_bytes(fnv1a_64(bytes))
}

/// Computes the digest of a program's bytes.
pub fn digest(bytes: &[u8]) -> (r: Vec<u8>)
    ensures
        r@ == digest_spec(bytes@),
        r@.len() == 8,
{
    let mut acc: u64 = FNV_OFFSET_BASIS;
    let mut i: usize = 0;
    while i < bytes.len()
        invariant
            i <= bytes@.len(),
            acc == fnv1a_64(bytes@.take(i as int)),
        decreases bytes@.len() - i,
    {
        proof {
            assert(bytes@.take(i + 1).drop_last() =~= bytes@.take(i as int));
            assert(bytes@.take(i + 1).last() == bytes@[i as int]);
        }
        acc = (acc ^ (bytes[i] as u64)).wrapping_mul(FNV_PRIME);
        i = i + 1;
    }
    proof {
        assert(bytes@.take(bytes@.len() as int) =~= bytes@);
        vstd::bytes::lemma_auto_spec_u64_to_from_le_bytes();
    }
    u64_to_le_bytes(acc)
}

} // verus!
