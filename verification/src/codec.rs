//! The wire codec of the enclave session protocol.
//!
//! Every message crosses the channel as a fixed-width little-endian
//! length prefix followed by that many payload bytes.  The payload is a
//! self-describing tagged union: a 32-bit little-endian variant tag, then
//! the variant's fields — integers as fixed-width little-endian bytes,
//! byte strings and text prefixed by a 64-bit length, text in UTF-8,
//! booleans as one byte.  There is no version field: a change to any
//! message shape breaks the whole channel.
//!
//! The encoding and the parser are both specified against spec-level
//! functions, and `lemma_request_round_trip` / `lemma_response_round_trip`
//! prove that parsing an encoded message gives the message back,
//! bit-for-bit.

use vstd::prelude::*;
use vstd::bytes::{
    spec_u32_to_le_bytes, spec_u32_from_le_bytes, spec_u64_to_le_bytes, spec_u64_from_le_bytes,
    lemma_auto_spec_u32_to_from_le_bytes, lemma_auto_spec_u64_to_from_le_bytes, u32_from_le_bytes,
    u32_to_le_bytes, u64_from_le_bytes, u64_to_le_bytes,
};
use vstd::utf8::{encode_utf8, decode_utf8, valid_utf8, encode_utf8_decode_utf8,
    encode_utf8_valid_utf8};
use vstd::slice::{slice_subrange, slice_to_vec};
use crate::messages::{
    RequestModel, ResponseModel, RuntimeManagerRequest, RuntimeManagerResponse, Status,
};

verus! {

// ---------------------------------------------------------------------
// Encoding, at the spec level.
// ---------------------------------------------------------------------
/// A 32-bit integer on the wire: four little-endian bytes.
pub open spec fn enc_u32(n: u32) -> Seq<u8> {
    spec_u32_to_le_bytes(n)
}

/// A 64-bit integer on the wire: eight little-endian bytes.
pub open spec fn enc_u64(n: u64) -> Seq<u8> {
    spec_u64_to_le_bytes(n)
}

/// A boolean on the wire: one byte, 1 for true and 0 for false.
pub open spec fn enc_bool(b: bool) -> Seq<u8> {
    seq![if b { 1u8 } else { 0u8 }]
}

/// A byte string on the wire: a 64-bit length, then the bytes.
pub open spec fn enc_bytes(b: Seq<u8>) -> Seq<u8> {
    enc_u64(b.len() as u64) + b
}

/// Text on the wire: its UTF-8 bytes as a byte string.
pub open spec fn enc_string(s: Seq<char>) -> Seq<u8> {
    enc_bytes(encode_utf8(s))
}

/// The items of a list of byte strings, one after the other.
pub open spec fn enc_list_items(l: Seq<Seq<u8>>) -> Seq<u8>
    decreases l.len(),
{
    if l.len() == 0 {
        Seq::empty()
    } else {
        enc_bytes(l[0]) + enc_list_items(l.drop_first())
    }
}

/// A list of byte strings on the wire: a 64-bit count, then the items.
pub open spec fn enc_bytes_list(l: Seq<Seq<u8>>) -> Seq<u8> {
    enc_u64(l.len() as u64) + enc_list_items(l)
}

/// A status on the wire: its variant tag.
pub open spec fn enc_status(s: Status) -> Seq<u8> {
    match s {
        Status::Success => enc_u32(0),
        Status::Fail => enc_u32(1),
        Status::Unimplemented => enc_u32(2),
    }
}

/// The payload bytes of a request.
pub open spec fn spec_enc_req(m: RequestModel) -> Seq<u8> {
    match m {
        RequestModel::Attestation { challenge, device_id } => enc_u32(0) + enc_bytes(challenge)
            + enc_u32(device_id as u32),
        RequestModel::Initialize { policy, cert_chain } => enc_u32(1) + enc_string(policy)
            + enc_bytes_list(cert_chain),
        RequestModel::NewTlsSession => enc_u32(2),
        RequestModel::CloseTlsSession { session_id } => enc_u32(3) + enc_u32(session_id),
        RequestModel::SendTlsData { session_id, data } => enc_u32(4) + enc_u32(session_id)
            + enc_bytes(data),
        RequestModel::GetTlsDataNeeded { session_id } => enc_u32(5) + enc_u32(session_id),
        RequestModel::GetTlsData { session_id } => enc_u32(6) + enc_u32(session_id),
    }
}

/// The payload bytes of a response.
pub open spec fn spec_enc_resp(m: ResponseModel) -> Seq<u8> {
    match m {
        ResponseModel::Status { status } => enc_u32(0) + enc_status(status),
        ResponseModel::AttestationData { token, csr } => enc_u32(1) + enc_bytes(token) + enc_bytes(
            csr,
        ),
        ResponseModel::TlsSession { session_id } => enc_u32(2) + enc_u32(session_id),
        ResponseModel::TlsDataNeeded { needed } => enc_u32(3) + enc_bool(needed),
        ResponseModel::TlsData { data, active } => enc_u32(4) + enc_bytes(data) + enc_bool(active),
    }
}

/// Field lengths a request can carry in its 64-bit length prefixes.
/// Every value built from live `Vec`s and `String`s satisfies this.
pub open spec fn req_valid(m: RequestModel) -> bool {
    match m {
        RequestModel::Attestation { challenge, .. } => challenge.len() <= u64::MAX,
        RequestModel::Initialize { policy, cert_chain } => {
            &&& encode_utf8(policy).len() <= u64::MAX
            &&& cert_chain.len() <= u64::MAX
            &&& forall|i: int| 0 <= i < cert_chain.len() ==> (#[trigger] cert_chain[i]).len()
                <= u64::MAX
        },
        RequestModel::SendTlsData { data, .. } => data.len() <= u64::MAX,
        _ => true,
    }
}

/// Field lengths a response can carry in its 64-bit length prefixes.
pub open spec fn resp_valid(m: ResponseModel) -> bool {
    match m {
        ResponseModel::AttestationData { token, csr } => token.len() <= u64::MAX && csr.len()
            <= u64::MAX,
        ResponseModel::TlsData { data, .. } => data.len() <= u64::MAX,
        _ => true,
    }
}

// ---------------------------------------------------------------------
// Parsing, at the spec level: each `take_*` consumes a prefix and
// returns the value with the remaining bytes, or nothing.
// ---------------------------------------------------------------------
/// Reads a 32-bit integer.
pub open spec fn take_u32(b: Seq<u8>) -> Option<(u32, Seq<u8>)> {
    if b.len() >= 4 {
        Some((spec_u32_from_le_bytes(b.take(4)), b.skip(4)))
    } else {
        None
    }
}

/// Reads a 64-bit integer.
pub open spec fn take_u64(b: Seq<u8>) -> Option<(u64, Seq<u8>)> {
    if b.len() >= 8 {
        Some((spec_u64_from_le_bytes(b.take(8)), b.skip(8)))
    } else {
        None
    }
}

/// Reads a boolean; any byte other than 0 or 1 is rejected.
pub open spec fn take_bool(b: Seq<u8>) -> Option<(bool, Seq<u8>)> {
    if b.len() >= 1 {
        if b[0] == 1u8 {
            Some((true, b.skip(1)))
        } else if b[0] == 0u8 {
            Some((false, b.skip(1)))
        } else {
            None
        }
    } else {
        None
    }
}

/// Reads a length-prefixed byte string.
pub open spec fn take_bytes(b: Seq<u8>) -> Option<(Seq<u8>, Seq<u8>)> {
    match take_u64(b) {
        None => None,
        Some((n, r)) => if r.len() >= n {
            Some((r.take(n as int), r.skip(n as int)))
        } else {
            None
        },
    }
}

/// Reads a length-prefixed UTF-8 string.
pub open spec fn take_string(b: Seq<u8>) -> Option<(Seq<char>, Seq<u8>)> {
    match take_bytes(b) {
        None => None,
        Some((bytes, r)) => if valid_utf8(bytes) {
            Some((decode_utf8(bytes), r))
        } else {
            None
        },
    }
}

/// Reads `n` byte strings, one after the other.
pub open spec fn take_n_items(b: Seq<u8>, n: nat) -> Option<(Seq<Seq<u8>>, Seq<u8>)>
    decreases n,
{
    if n == 0 {
        Some((Seq::empty(), b))
    } else {
        match take_bytes(b) {
            None => None,
            Some((x, r)) => match take_n_items(r, (n - 1) as nat) {
                None => None,
                Some((xs, r2)) => Some((seq![x] + xs, r2)),
            },
        }
    }
}

/// Reads a count-prefixed list of byte strings.
pub open spec fn take_bytes_list(b: Seq<u8>) -> Option<(Seq<Seq<u8>>, Seq<u8>)> {
    match take_u64(b) {
        None => None,
        Some((n, r)) => take_n_items(r, n as nat),
    }
}

/// Reads a status tag.
pub open spec fn take_status(b: Seq<u8>) -> Option<(Status, Seq<u8>)> {
    match take_u32(b) {
        None => None,
        Some((tag, r)) => if tag == 0 {
            Some((Status::Success, r))
        } else if tag == 1 {
            Some((Status::Fail, r))
        } else if tag == 2 {
            Some((Status::Unimplemented, r))
        } else {
            None
        },
    }
}

/// Parses a whole request payload; trailing bytes are rejected.
pub open spec fn spec_dec_req(b: Seq<u8>) -> Option<RequestModel> {
    match take_u32(b) {
        None => None,
        Some((tag, r)) => if tag == 0 {
            match take_bytes(r) {
                None => None,
                Some((challenge, r2)) => match take_u32(r2) {
                    None => None,
                    Some((id, r3)) => if r3.len() == 0 {
                        Some(RequestModel::Attestation { challenge, device_id: id as i32 })
                    } else {
                        None
                    },
                },
            }
        } else if tag == 1 {
            match take_string(r) {
                None => None,
                Some((policy, r2)) => match take_bytes_list(r2) {
                    None => None,
                    Some((cert_chain, r3)) => if r3.len() == 0 {
                        Some(RequestModel::Initialize { policy, cert_chain })
                    } else {
                        None
                    },
                },
            }
        } else if tag == 2 {
            if r.len() == 0 {
                Some(RequestModel::NewTlsSession)
            } else {
                None
            }
        } else if tag == 3 {
            match take_u32(r) {
                None => None,
                Some((session_id, r2)) => if r2.len() == 0 {
                    Some(RequestModel::CloseTlsSession { session_id })
                } else {
                    None
                },
            }
        } else if tag == 4 {
            match take_u32(r) {
                None => None,
                Some((session_id, r2)) => match take_bytes(r2) {
                    None => None,
                    Some((data, r3)) => if r3.len() == 0 {
                        Some(RequestModel::SendTlsData { session_id, data })
                    } else {
                        None
                    },
                },
            }
        } else if tag == 5 {
            match take_u32(r) {
                None => None,
                Some((session_id, r2)) => if r2.len() == 0 {
                    Some(RequestModel::GetTlsDataNeeded { session_id })
                } else {
                    None
                },
            }
        } else if tag == 6 {
            match take_u32(r) {
                None => None,
                Some((session_id, r2)) => if r2.len() == 0 {
                    Some(RequestModel::GetTlsData { session_id })
                } else {
                    None
                },
            }
        } else {
            None
        },
    }
}

/// Parses a whole response payload; trailing bytes are rejected.
pub open spec fn spec_dec_resp(b: Seq<u8>) -> Option<ResponseModel> {
    match take_u32(b) {
        None => None,
        Some((tag, r)) => if tag == 0 {
            match take_status(r) {
                None => None,
                Some((status, r2)) => if r2.len() == 0 {
                    Some(ResponseModel::Status { status })
                } else {
                    None
                },
            }
        } else if tag == 1 {
            match take_bytes(r) {
                None => None,
                Some((token, r2)) => match take_bytes(r2) {
                    None => None,
                    Some((csr, r3)) => if r3.len() == 0 {
                        Some(ResponseModel::AttestationData { token, csr })
                    } else {
                        None
                    },
                },
            }
        } else if tag == 2 {
            match take_u32(r) {
                None => None,
                Some((session_id, r2)) => if r2.len() == 0 {
                    Some(ResponseModel::TlsSession { session_id })
                } else {
                    None
                },
            }
        } else if tag == 3 {
            match take_bool(r) {
                None => None,
                Some((needed, r2)) => if r2.len() == 0 {
                    Some(ResponseModel::TlsDataNeeded { needed })
                } else {
                    None
                },
            }
        } else if tag == 4 {
            match take_bytes(r) {
                None => None,
                Some((data, r2)) => match take_bool(r2) {
                    None => None,
                    Some((active, r3)) => if r3.len() == 0 {
                        Some(ResponseModel::TlsData { data, active })
                    } else {
                        None
                    },
                },
            }
        } else {
            None
        },
    }
}

// ---------------------------------------------------------------------
// Round-trip lemmas: parsing what was encoded gives the value back.
// ---------------------------------------------------------------------
proof fn lemma_take_u32(n: u32, rest: Seq<u8>)
    ensures
        take_u32(enc_u32(n) + rest) == Some((n, rest)),
{
    lemma_auto_spec_u32_to_from_le_bytes();
    assert((enc_u32(n) + rest).take(4) =~= enc_u32(n));
    assert((enc_u32(n) + rest).skip(4) =~= rest);
}

proof fn lemma_take_u64(n: u64, rest: Seq<u8>)
    ensures
        take_u64(enc_u64(n) + rest) == Some((n, rest)),
{
    lemma_auto_spec_u64_to_from_le_bytes();
    assert((enc_u64(n) + rest).take(8) =~= enc_u64(n));
    assert((enc_u64(n) + rest).skip(8) =~= rest);
}

proof fn lemma_take_bool(v: bool, rest: Seq<u8>)
    ensures
        take_bool(enc_bool(v) + rest) == Some((v, rest)),
{
    assert((enc_bool(v) + rest)[0] == (if v { 1u8 } else { 0u8 }));
    assert((enc_bool(v) + rest).skip(1) =~= rest);
}

proof fn lemma_take_bytes(data: Seq<u8>, rest: Seq<u8>)
    requires
        data.len() <= u64::MAX,
    ensures
        take_bytes(enc_bytes(data) + rest) == Some((data, rest)),
{
    lemma_take_u64(data.len() as u64, data + rest);
    assert(enc_bytes(data) + rest =~= enc_u64(data.len() as u64) + (data + rest));
    assert((data + rest).take(data.len() as int) =~= data);
    assert((data + rest).skip(data.len() as int) =~= rest);
}

proof fn lemma_take_string(s: Seq<char>, rest: Seq<u8>)
    requires
        encode_utf8(s).len() <= u64::MAX,
    ensures
        take_string(enc_string(s) + rest) == Some((s, rest)),
{
    broadcast use encode_utf8_valid_utf8, encode_utf8_decode_utf8;

    lemma_take_bytes(encode_utf8(s), rest);
}

proof fn lemma_take_n_items(l: Seq<Seq<u8>>, rest: Seq<u8>)
    requires
        forall|i: int| 0 <= i < l.len() ==> (#[trigger] l[i]).len() <= u64::MAX,
    ensures
        take_n_items(enc_list_items(l) + rest, l.len()) == Some((l, rest)),
    decreases l.len(),
{
    if l.len() == 0 {
        assert(enc_list_items(l) + rest =~= rest);
        assert(take_n_items(rest, 0) == Some((Seq::<Seq<u8>>::empty(), rest)));
        assert(l =~= Seq::<Seq<u8>>::empty());
    } else {
        let tail = l.drop_first();
        assert(enc_list_items(l) + rest =~= enc_bytes(l[0]) + (enc_list_items(tail) + rest));
        lemma_take_bytes(l[0], enc_list_items(tail) + rest);
        lemma_take_n_items(tail, rest);
        assert(seq![l[0]] + tail =~= l);
    }
}

proof fn lemma_take_bytes_list(l: Seq<Seq<u8>>, rest: Seq<u8>)
    requires
        l.len() <= u64::MAX,
        forall|i: int| 0 <= i < l.len() ==> (#[trigger] l[i]).len() <= u64::MAX,
    ensures
        take_bytes_list(enc_bytes_list(l) + rest) == Some((l, rest)),
{
    lemma_take_u64(l.len() as u64, enc_list_items(l) + rest);
    assert(enc_bytes_list(l) + rest =~= enc_u64(l.len() as u64) + (enc_list_items(l) + rest));
    lemma_take_n_items(l, rest);
}

proof fn lemma_take_status(s: Status, rest: Seq<u8>)
    ensures
        take_status(enc_status(s) + rest) == Some((s, rest)),
{
    match s {
        Status::Success => lemma_take_u32(0, rest),
        Status::Fail => lemma_take_u32(1, rest),
        Status::Unimplemented => lemma_take_u32(2, rest),
    }
}

/// Parsing an encoded request gives the request back, bit-for-bit.
pub proof fn lemma_request_round_trip(m: RequestModel)
    requires
        req_valid(m),
    ensures
        spec_dec_req(spec_enc_req(m)) == Some(m),
{
    let empty = Seq::<u8>::empty();
    match m {
        RequestModel::Attestation { challenge, device_id } => {
            let f2 = enc_u32(device_id as u32);
            assert(spec_enc_req(m) =~= enc_u32(0) + (enc_bytes(challenge) + f2));
            lemma_take_u32(0, enc_bytes(challenge) + f2);
            lemma_take_bytes(challenge, f2);
            assert(f2 =~= enc_u32(device_id as u32) + empty);
            lemma_take_u32(device_id as u32, empty);
            assert(((device_id as u32) as i32) == device_id) by (bit_vector);
        },
        RequestModel::Initialize { policy, cert_chain } => {
            let f2 = enc_bytes_list(cert_chain);
            assert(spec_enc_req(m) =~= enc_u32(1) + (enc_string(policy) + f2));
            lemma_take_u32(1, enc_string(policy) + f2);
            lemma_take_string(policy, f2);
            assert(f2 =~= enc_bytes_list(cert_chain) + empty);
            lemma_take_bytes_list(cert_chain, empty);
        },
        RequestModel::NewTlsSession => {
            assert(spec_enc_req(m) =~= enc_u32(2) + empty);
            lemma_take_u32(2, empty);
        },
        RequestModel::CloseTlsSession { session_id } => {
            assert(spec_enc_req(m) =~= enc_u32(3) + (enc_u32(session_id) + empty));
            lemma_take_u32(3, enc_u32(session_id) + empty);
            lemma_take_u32(session_id, empty);
        },
        RequestModel::SendTlsData { session_id, data } => {
            let f2 = enc_bytes(data);
            assert(spec_enc_req(m) =~= enc_u32(4) + (enc_u32(session_id) + f2));
            lemma_take_u32(4, enc_u32(session_id) + f2);
            lemma_take_u32(session_id, f2);
            assert(f2 =~= enc_bytes(data) + empty);
            lemma_take_bytes(data, empty);
        },
        RequestModel::GetTlsDataNeeded { session_id } => {
            assert(spec_enc_req(m) =~= enc_u32(5) + (enc_u32(session_id) + empty));
            lemma_take_u32(5, enc_u32(session_id) + empty);
            lemma_take_u32(session_id, empty);
        },
        RequestModel::GetTlsData { session_id } => {
            assert(spec_enc_req(m) =~= enc_u32(6) + (enc_u32(session_id) + empty));
            lemma_take_u32(6, enc_u32(session_id) + empty);
            lemma_take_u32(session_id, empty);
        },
    }
}

/// Parsing an encoded response gives the response back, bit-for-bit.
pub proof fn lemma_response_round_trip(m: ResponseModel)
    requires
        resp_valid(m),
    ensures
        spec_dec_resp(spec_enc_resp(m)) == Some(m),
{
    let empty = Seq::<u8>::empty();
    match m {
        ResponseModel::Status { status } => {
            assert(spec_enc_resp(m) =~= enc_u32(0) + (enc_status(status) + empty));
            lemma_take_u32(0, enc_status(status) + empty);
            lemma_take_status(status, empty);
        },
        ResponseModel::AttestationData { token, csr } => {
            let f2 = enc_bytes(csr);
            assert(spec_enc_resp(m) =~= enc_u32(1) + (enc_bytes(token) + f2));
            lemma_take_u32(1, enc_bytes(token) + f2);
            lemma_take_bytes(token, f2);
            assert(f2 =~= enc_bytes(csr) + empty);
            lemma_take_bytes(csr, empty);
        },
        ResponseModel::TlsSession { session_id } => {
            assert(spec_enc_resp(m) =~= enc_u32(2) + (enc_u32(session_id) + empty));
            lemma_take_u32(2, enc_u32(session_id) + empty);
            lemma_take_u32(session_id, empty);
        },
        ResponseModel::TlsDataNeeded { needed } => {
            assert(spec_enc_resp(m) =~= enc_u32(3) + (enc_bool(needed) + empty));
            lemma_take_u32(3, enc_bool(needed) + empty);
            lemma_take_bool(needed, empty);
        },
        ResponseModel::TlsData { data, active } => {
            let f2 = enc_bool(active);
            assert(spec_enc_resp(m) =~= enc_u32(4) + (enc_bytes(data) + f2));
            lemma_take_u32(4, enc_bytes(data) + f2);
            lemma_take_bytes(data, f2);
            assert(f2 =~= enc_bool(active) + empty);
            lemma_take_bool(active, empty);
        },
    }
}

// ---------------------------------------------------------------------
// Encoding, executable.
// ---------------------------------------------------------------------
fn push_slice(out: &mut Vec<u8>, b: &[u8])
    ensures
        final(out)@ == old(out)@ + b@,
{
    let mut i: usize = 0;
    while i < b.len()
        invariant
            i <= b@.len(),
            out@ =~= old(out)@ + b@.take(i as int),
        decreases b@.len() - i,
    {
        out.push(b[i]);
        proof {
            assert(old(out)@ + b@.take(i + 1) =~= (old(out)@ + b@.take(i as int)).push(b@[i as int]));
        }
        i = i + 1;
    }
    proof {
        assert(b@.take(b@.len() as int) =~= b@);
        assert(out@ =~= old(out)@ + b@);
    }
}

fn push_u32(out: &mut Vec<u8>, n: u32)
    ensures
        final(out)@ == old(out)@ + enc_u32(n),
{
    let bytes = u32_to_le_bytes(n);
    push_slice(out, bytes.as_slice());
}

fn push_u64(out: &mut Vec<u8>, n: u64)
    ensures
        final(out)@ == old(out)@ + enc_u64(n),
{
    let bytes = u64_to_le_bytes(n);
    push_slice(out, bytes.as_slice());
}

fn push_bool(out: &mut Vec<u8>, v: bool)
    ensures
        final(out)@ == old(out)@ + enc_bool(v),
{
    out.push(if v { 1u8 } else { 0u8 });
    proof {
        assert(out@ =~= old(out)@ + enc_bool(v));
    }
}

fn push_bytes(out: &mut Vec<u8>, b: &[u8])
    ensures
        final(out)@ == old(out)@ + enc_bytes(b@),
{
    push_u64(out, b.len() as u64);
    push_slice(out, b);
    proof {
        assert(out@ =~= old(out)@ + enc_bytes(b@));
    }
}

fn push_string(out: &mut Vec<u8>, s: &str)
    ensures
        final(out)@ == old(out)@ + enc_string(s@),
{
    push_bytes(out, s.as_bytes());
}

fn push_status(out: &mut Vec<u8>, s: Status)
    ensures
        final(out)@ == old(out)@ + enc_status(s),
{
    match s {
        Status::Success => push_u32(out, 0),
        Status::Fail => push_u32(out, 1),
        Status::Unimplemented => push_u32(out, 2),
    }
}

proof fn lemma_enc_list_items_snoc(l: Seq<Seq<u8>>, x: Seq<u8>)
    ensures
        enc_list_items(l + seq![x]) == enc_list_items(l) + enc_bytes(x),
    decreases l.len(),
{
    if l.len() == 0 {
        assert(l + seq![x] =~= seq![x]);
        assert((l + seq![x]).drop_first() =~= Seq::<Seq<u8>>::empty());
        assert(enc_list_items(l) + enc_bytes(x) =~= enc_bytes(x));
        assert(enc_bytes(x) + enc_list_items(Seq::<Seq<u8>>::empty()) =~= enc_bytes(x));
    } else {
        assert((l + seq![x]).drop_first() =~= l.drop_first() + seq![x]);
        lemma_enc_list_items_snoc(l.drop_first(), x);
        assert(enc_list_items(l + seq![x]) =~= enc_list_items(l) + enc_bytes(x));
    }
}

fn push_bytes_list(out: &mut Vec<u8>, l: &Vec<Vec<u8>>)
    ensures
        final(out)@ == old(out)@ + enc_bytes_list(l@.map_values(|v: Vec<u8>| v@)),
{
    let ghost lv = l@.map_values(|v: Vec<u8>| v@);
    push_u64(out, l.len() as u64);
    let ghost base = out@;
    let mut i: usize = 0;
    while i < l.len()
        invariant
            i <= l@.len(),
            lv == l@.map_values(|v: Vec<u8>| v@),
            out@ =~= base + enc_list_items(lv.take(i as int)),
        decreases l@.len() - i,
    {
        push_bytes(out, l[i].as_slice());
        proof {
            assert(lv.take(i + 1) =~= lv.take(i as int) + seq![lv[i as int]]);
            lemma_enc_list_items_snoc(lv.take(i as int), lv[i as int]);
            assert(lv[i as int] == l@[i as int]@);
        }
        i = i + 1;
    }
    proof {
        assert(lv.take(l@.len() as int) =~= lv);
        assert(out@ =~= old(out)@ + enc_bytes_list(lv));
    }
}

/// Encodes a request as its payload bytes.
pub fn serialize_request(m: &RuntimeManagerRequest) -> (r: Vec<u8>)
    ensures
        r@ == spec_enc_req(m@),
{
    let mut out: Vec<u8> = Vec::new();
    match m {
        RuntimeManagerRequest::Attestation(challenge, device_id) => {
            push_u32(&mut out, 0);
            push_bytes(&mut out, challenge.as_slice());
            push_u32(&mut out, *device_id as u32);
        },
        RuntimeManagerRequest::Initialize(policy, cert_chain) => {
            push_u32(&mut out, 1);
            push_string(&mut out, policy.as_str());
            push_bytes_list(&mut out, cert_chain);
        },
        RuntimeManagerRequest::NewTlsSession => {
            push_u32(&mut out, 2);
        },
        RuntimeManagerRequest::CloseTlsSession(session_id) => {
            push_u32(&mut out, 3);
            push_u32(&mut out, *session_id);
        },
        RuntimeManagerRequest::SendTlsData(session_id, data) => {
            push_u32(&mut out, 4);
            push_u32(&mut out, *session_id);
            push_bytes(&mut out, data.as_slice());
        },
        RuntimeManagerRequest::GetTlsDataNeeded(session_id) => {
            push_u32(&mut out, 5);
            push_u32(&mut out, *session_id);
        },
        RuntimeManagerRequest::GetTlsData(session_id) => {
            push_u32(&mut out, 6);
            push_u32(&mut out, *session_id);
        },
    }
    proof {
        assert(out@ =~= spec_enc_req(m@));
    }
    out
}

/// Encodes a response as its payload bytes.
pub fn serialize_response(m: &RuntimeManagerResponse) -> (r: Vec<u8>)
    ensures
        r@ == spec_enc_resp(m@),
{
    let mut out: Vec<u8> = Vec::new();
    match m {
        RuntimeManagerResponse::Status(status) => {
            push_u32(&mut out, 0);
            push_status(&mut out, *status);
        },
        RuntimeManagerResponse::AttestationData(token, csr) => {
            push_u32(&mut out, 1);
            push_bytes(&mut out, token.as_slice());
            push_bytes(&mut out, csr.as_slice());
        },
        RuntimeManagerResponse::TlsSession(session_id) => {
            push_u32(&mut out, 2);
            push_u32(&mut out, *session_id);
        },
        RuntimeManagerResponse::TlsDataNeeded(needed) => {
            push_u32(&mut out, 3);
            push_bool(&mut out, *needed);
        },
        RuntimeManagerResponse::TlsData(data, active) => {
            push_u32(&mut out, 4);
            push_bytes(&mut out, data.as_slice());
            push_bool(&mut out, *active);
        },
    }
    proof {
        assert(out@ =~= spec_enc_resp(m@));
    }
    out
}

// ---------------------------------------------------------------------
// Parsing, executable: a cursor into a byte slice, each reader tied to
// its spec-level `take_*`.
// ---------------------------------------------------------------------
fn read_u32(b: &[u8], pos: usize) -> (r: Option<(u32, usize)>)
    requires
        pos <= b@.len(),
    ensures
        r is Some <==> take_u32(b@.skip(pos as int)) is Some,
        r matches Some((n, p2)) ==> p2 == pos + 4 && p2 <= b@.len() && take_u32(
            b@.skip(pos as int),
        ) == Some((n, b@.skip(p2 as int))),
{
    if b.len() - pos >= 4 {
        let s = slice_subrange(b, pos, pos + 4);
        let n = u32_from_le_bytes(s);
        proof {
            assert(b@.skip(pos as int).take(4) =~= b@.subrange(pos as int, pos + 4));
            assert(b@.skip(pos as int).skip(4) =~= b@.skip(pos + 4));
        }
        Some((n, pos + 4))
    } else {
        None
    }
}

fn read_u64(b: &[u8], pos: usize) -> (r: Option<(u64, usize)>)
    requires
        pos <= b@.len(),
    ensures
        r is Some <==> take_u64(b@.skip(pos as int)) is Some,
        r matches Some((n, p2)) ==> p2 == pos + 8 && p2 <= b@.len() && take_u64(
            b@.skip(pos as int),
        ) == Some((n, b@.skip(p2 as int))),
{
    if b.len() - pos >= 8 {
        let s = slice_subrange(b, pos, pos + 8);
        let n = u64_from_le_bytes(s);
        proof {
            assert(b@.skip(pos as int).take(8) =~= b@.subrange(pos as int, pos + 8));
            assert(b@.skip(pos as int).skip(8) =~= b@.skip(pos + 8));
        }
        Some((n, pos + 8))
    } else {
        None
    }
}

fn read_bool(b: &[u8], pos: usize) -> (r: Option<(bool, usize)>)
    requires
        pos <= b@.len(),
    ensures
        r is Some <==> take_bool(b@.skip(pos as int)) is Some,
        r matches Some((v, p2)) ==> p2 == pos + 1 && p2 <= b@.len() && take_bool(
            b@.skip(pos as int),
        ) == Some((v, b@.skip(p2 as int))),
{
    if b.len() - pos >= 1 {
        let byte = b[pos];
        proof {
            assert(b@.skip(pos as int)[0] == b@[pos as int]);
            assert(b@.skip(pos as int).skip(1) =~= b@.skip(pos + 1));
        }
        if byte == 1u8 {
            Some((true, pos + 1))
        } else if byte == 0u8 {
            Some((false, pos + 1))
        } else {
            None
        }
    } else {
        None
    }
}

fn read_bytes_field(b: &[u8], pos: usize) -> (r: Option<(Vec<u8>, usize)>)
    requires
        pos <= b@.len(),
    ensures
        r is Some <==> take_bytes(b@.skip(pos as int)) is Some,
        r matches Some((v, p2)) ==> p2 <= b@.len() && take_bytes(b@.skip(pos as int)) == Some(
            (v@, b@.skip(p2 as int)),
        ),
{
    match read_u64(b, pos) {
        None => None,
        Some((n, p1)) => {
            if n <= (b.len() - p1) as u64 {
                let count: usize = n as usize;
                let v = slice_to_vec(slice_subrange(b, p1, p1 + count));
                proof {
                    assert(b@.skip(p1 as int).take(n as int) =~= b@.subrange(
                        p1 as int,
                        p1 + count,
                    ));
                    assert(b@.skip(p1 as int).skip(n as int) =~= b@.skip(p1 + count));
                }
                Some((v, p1 + count))
            } else {
                None
            }
        },
    }
}

/// Relies on std's `String::from_utf8`: it succeeds exactly on valid
/// UTF-8 input, and then returns the string those bytes encode.
#[verifier::external_body]
fn string_from_utf8(bytes: Vec<u8>) -> (r: Option<String>)
    ensures
        r is Some <==> valid_utf8(bytes@),
        r matches Some(s) ==> s@ == decode_utf8(bytes@),
{
    String::from_utf8(bytes).ok()
}

fn read_string_field(b: &[u8], pos: usize) -> (r: Option<(String, usize)>)
    requires
        pos <= b@.len(),
    ensures
        r is Some <==> take_string(b@.skip(pos as int)) is Some,
        r matches Some((s, p2)) ==> p2 <= b@.len() && take_string(b@.skip(pos as int)) == Some(
            (s@, b@.skip(p2 as int)),
        ),
{
    match read_bytes_field(b, pos) {
        None => None,
        Some((bytes, p2)) => match string_from_utf8(bytes) {
            None => None,
            Some(s) => Some((s, p2)),
        },
    }
}

fn read_n_items(b: &[u8], pos: usize, n: u64) -> (r: Option<(Vec<Vec<u8>>, usize)>)
    requires
        pos <= b@.len(),
    ensures
        r is Some <==> take_n_items(b@.skip(pos as int), n as nat) is Some,
        r matches Some((v, p2)) ==> p2 <= b@.len() && take_n_items(b@.skip(pos as int), n as nat)
            == Some((v@.map_values(|x: Vec<u8>| x@), b@.skip(p2 as int))),
    decreases n,
{
    if n == 0 {
        let v: Vec<Vec<u8>> = Vec::new();
        proof {
            assert(v@.map_values(|x: Vec<u8>| x@) =~= Seq::<Seq<u8>>::empty());
        }
        Some((v, pos))
    } else {
        match read_bytes_field(b, pos) {
            None => None,
            Some((x, p1)) => match read_n_items(b, p1, n - 1) {
                None => None,
                Some((mut xs, p2)) => {
                    let ghost tail = xs@.map_values(|y: Vec<u8>| y@);
                    xs.insert(0, x);
                    proof {
                        assert(xs@.map_values(|y: Vec<u8>| y@) =~= seq![x@] + tail);
                    }
                    Some((xs, p2))
                },
            },
        }
    }
}

fn read_bytes_list_field(b: &[u8], pos: usize) -> (r: Option<(Vec<Vec<u8>>, usize)>)
    requires
        pos <= b@.len(),
    ensures
        r is Some <==> take_bytes_list(b@.skip(pos as int)) is Some,
        r matches Some((v, p2)) ==> p2 <= b@.len() && take_bytes_list(b@.skip(pos as int))
            == Some((v@.map_values(|x: Vec<u8>| x@), b@.skip(p2 as int))),
{
    match read_u64(b, pos) {
        None => None,
        Some((n, p1)) => read_n_items(b, p1, n),
    }
}

fn read_status(b: &[u8], pos: usize) -> (r: Option<(Status, usize)>)
    requires
        pos <= b@.len(),
    ensures
        r is Some <==> take_status(b@.skip(pos as int)) is Some,
        r matches Some((s, p2)) ==> p2 <= b@.len() && take_status(b@.skip(pos as int)) == Some(
            (s, b@.skip(p2 as int)),
        ),
{
    match read_u32(b, pos) {
        None => None,
        Some((tag, p2)) => {
            if tag == 0 {
                Some((Status::Success, p2))
            } else if tag == 1 {
                Some((Status::Fail, p2))
            } else if tag == 2 {
                Some((Status::Unimplemented, p2))
            } else {
                None
            }
        },
    }
}

/// Parses a request payload; trailing bytes are rejected.
pub fn deserialize_request(b: &[u8]) -> (r: Option<RuntimeManagerRequest>)
    ensures
        r is Some <==> spec_dec_req(b@) is Some,
        r matches Some(m) ==> spec_dec_req(b@) == Some(m@),
{
    let n = b.len();
    proof {
        assert(b@.skip(0) =~= b@);
    }
    match read_u32(b, 0) {
        None => None,
        Some((tag, p)) => {
            if tag == 0 {
                match read_bytes_field(b, p) {
                    None => None,
                    Some((challenge, p2)) => match read_u32(b, p2) {
                        None => None,
                        Some((id, p3)) => if p3 == n {
                            Some(RuntimeManagerRequest::Attestation(challenge, id as i32))
                        } else {
                            None
                        },
                    },
                }
            } else if tag == 1 {
                match read_string_field(b, p) {
                    None => None,
                    Some((policy, p2)) => match read_bytes_list_field(b, p2) {
                        None => None,
                        Some((certs, p3)) => if p3 == n {
                            Some(RuntimeManagerRequest::Initialize(policy, certs))
                        } else {
                            None
                        },
                    },
                }
            } else if tag == 2 {
                if p == n {
                    Some(RuntimeManagerRequest::NewTlsSession)
                } else {
                    None
                }
            } else if tag == 3 {
                match read_u32(b, p) {
                    None => None,
                    Some((session_id, p2)) => if p2 == n {
                        Some(RuntimeManagerRequest::CloseTlsSession(session_id))
                    } else {
                        None
                    },
                }
            } else if tag == 4 {
                match read_u32(b, p) {
                    None => None,
                    Some((session_id, p2)) => match read_bytes_field(b, p2) {
                        None => None,
                        Some((data, p3)) => if p3 == n {
                            Some(RuntimeManagerRequest::SendTlsData(session_id, data))
                        } else {
                            None
                        },
                    },
                }
            } else if tag == 5 {
                match read_u32(b, p) {
                    None => None,
                    Some((session_id, p2)) => if p2 == n {
                        Some(RuntimeManagerRequest::GetTlsDataNeeded(session_id))
                    } else {
                        None
                    },
                }
            } else if tag == 6 {
                match read_u32(b, p) {
                    None => None,
                    Some((session_id, p2)) => if p2 == n {
                        Some(RuntimeManagerRequest::GetTlsData(session_id))
                    } else {
                        None
                    },
                }
            } else {
                None
            }
        },
    }
}

/// Parses a response payload; trailing bytes are rejected.
pub fn deserialize_response(b: &[u8]) -> (r: Option<RuntimeManagerResponse>)
    ensures
        r is Some <==> spec_dec_resp(b@) is Some,
        r matches Some(m) ==> spec_dec_resp(b@) == Some(m@),
{
    let n = b.len();
    proof {
        assert(b@.skip(0) =~= b@);
    }
    match read_u32(b, 0) {
        None => None,
        Some((tag, p)) => {
            if tag == 0 {
                match read_status(b, p) {
                    None => None,
                    Some((status, p2)) => if p2 == n {
                        Some(RuntimeManagerResponse::Status(status))
                    } else {
                        None
                    },
                }
            } else if tag == 1 {
                match read_bytes_field(b, p) {
                    None => None,
                    Some((token, p2)) => match read_bytes_field(b, p2) {
                        None => None,
                        Some((csr, p3)) => if p3 == n {
                            Some(RuntimeManagerResponse::AttestationData(token, csr))
                        } else {
                            None
                        },
                    },
                }
            } else if tag == 2 {
                match read_u32(b, p) {
                    None => None,
                    Some((session_id, p2)) => if p2 == n {
                        Some(RuntimeManagerResponse::TlsSession(session_id))
                    } else {
                        None
                    },
                }
            } else if tag == 3 {
                match read_bool(b, p) {
                    None => None,
                    Some((needed, p2)) => if p2 == n {
                        Some(RuntimeManagerResponse::TlsDataNeeded(needed))
                    } else {
                        None
                    },
                }
            } else if tag == 4 {
                match read_bytes_field(b, p) {
                    None => None,
                    Some((data, p2)) => match read_bool(b, p2) {
                        None => None,
                        Some((active, p3)) => if p3 == n {
                            Some(RuntimeManagerResponse::TlsData(data, active))
                        } else {
                            None
                        },
                    },
                }
            } else {
                None
            }
        },
    }
}

// ---------------------------------------------------------------------
// Framing: a fixed-width little-endian length prefix before the payload.
// ---------------------------------------------------------------------
/// A framed payload: its length in a 32-bit little-endian prefix, then
/// the payload bytes.
pub open spec fn spec_frame(p: Seq<u8>) -> Seq<u8> {
    enc_u32(p.len() as u32) + p
}

/// Strips a frame: the prefix must match the number of bytes that
/// follow it exactly.
pub open spec fn spec_unframe(b: Seq<u8>) -> Option<Seq<u8>> {
    match take_u32(b) {
        None => None,
        Some((n, r)) => if r.len() == n {
            Some(r)
        } else {
            None
        },
    }
}

/// Unframing a framed payload gives the payload back.
pub proof fn lemma_frame_round_trip(p: Seq<u8>)
    requires
        p.len() <= u32::MAX,
    ensures
        spec_unframe(spec_frame(p)) == Some(p),
{
    lemma_take_u32(p.len() as u32, p);
}

/// Relies on bincode's `serialize` of a `u32`: the crate's default
/// configuration uses fixed-width little-endian integers and an
/// unlimited size, so the result is exactly the four little-endian
/// bytes, and writing them into a vector cannot fail.
#[verifier::external_body]
fn length_header_bytes(n: u32) -> (r: Vec<u8>)
    ensures
        r@ == enc_u32(n),
{
    bincode::serialize(&n).expect("serializing a u32 into a vector cannot fail")
}

/// Relies on bincode's `deserialize` of a `u32`: with the crate's
/// default configuration it reads exactly four little-endian bytes,
/// fails when fewer are available, and ignores trailing bytes.
#[verifier::external_body]
fn length_header_value(b: &[u8]) -> (r: Option<u32>)
    ensures
        r is Some <==> b@.len() >= 4,
        r matches Some(n) ==> n == spec_u32_from_le_bytes(b@.take(4)),
{
    bincode::deserialize::<u32>(b).ok()
}

/// Frames a payload for the wire.  Fails only when the payload cannot
/// be measured by the 32-bit length field.
pub fn frame_message(payload: &[u8]) -> (r: Option<Vec<u8>>)
    ensures
        r is Some <==> payload@.len() <= u32::MAX,
        r matches Some(f) ==> f@ == spec_frame(payload@),
{
    if payload.len() as u64 <= u32::MAX as u64 {
        let mut out = length_header_bytes(payload.len() as u32);
        push_slice(&mut out, payload);
        Some(out)
    } else {
        None
    }
}

/// Reads the payload length out of a frame's four-byte header.
pub fn parse_frame_header(header: &[u8]) -> (r: Option<u32>)
    ensures
        r is Some <==> header@.len() >= 4,
        r matches Some(n) ==> n == spec_u32_from_le_bytes(header@.take(4)),
{
    length_header_value(header)
}

/// Strips the frame from a complete wire message.
pub fn unframe_message(b: &[u8]) -> (r: Option<Vec<u8>>)
    ensures
        r is Some <==> spec_unframe(b@) is Some,
        r matches Some(v) ==> spec_unframe(b@) == Some(v@),
{
    match length_header_value(b) {
        None => None,
        Some(n) => {
            proof {
                assert(b@.skip(4).len() == b@.len() - 4);
            }
            if (b.len() - 4) as u64 == n as u64 {
                let v = slice_to_vec(slice_subrange(b, 4, b.len()));
                proof {
                    assert(b@.subrange(4, b@.len() as int) =~= b@.skip(4));
                }
                Some(v)
            } else {
                None
            }
        },
    }
}

/// Framing, encoding, parsing and decoding a request round-trips,
/// bit-for-bit, whenever the encoded payload fits one frame.
pub proof fn lemma_request_wire_round_trip(m: RequestModel)
    requires
        req_valid(m),
        spec_enc_req(m).len() <= u32::MAX,
    ensures
        spec_unframe(spec_frame(spec_enc_req(m))) == Some(spec_enc_req(m)),
        spec_dec_req(spec_enc_req(m)) == Some(m),
{
    lemma_frame_round_trip(spec_enc_req(m));
    lemma_request_round_trip(m);
}

/// Framing, encoding, parsing and decoding a response round-trips,
/// bit-for-bit, whenever the encoded payload fits one frame.
pub proof fn lemma_response_wire_round_trip(m: ResponseModel)
    requires
        resp_valid(m),
        spec_enc_resp(m).len() <= u32::MAX,
    ensures
        spec_unframe(spec_frame(spec_enc_resp(m))) == Some(spec_enc_resp(m)),
        spec_dec_resp(spec_enc_resp(m)) == Some(m),
{
    lemma_frame_round_trip(spec_enc_resp(m));
    lemma_response_round_trip(m);
}

} // verus!
