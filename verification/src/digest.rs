//! The slot-leadership pre-digest and its codec.
//!
//! A block author attaches one pre-digest to each block header: the VRF
//! output (a 32-byte compressed curve point), the VRF proof (two 32-byte
//! scalars), the author's index in the authority set, and the slot number.
//! The encoding is a fixed-layout concatenation with little-endian integers
//! and no length prefixes; decoding is strict and rejects byte strings whose
//! VRF fields are not well-formed curve elements.

use vstd::prelude::*;
use crate::bytes::{
    copy_range, lemma_u32_le_round_trip, lemma_u64_le_round_trip, push_u32_le, push_u64_le,
    read_u32_le, read_u64_le, u32_from_le, u32_le_bytes, u64_from_le, u64_le_bytes,
};

verus! {

/// Byte length of the VRF output field.
pub const VRF_OUTPUT_LENGTH: usize = 32;

/// Byte length of the VRF proof field.
pub const VRF_PROOF_LENGTH: usize = 64;

/// Byte length of a whole encoded pre-digest.
pub const PRE_DIGEST_LENGTH: usize = 108;

/// Whether 32 bytes are a well-formed compressed point of the VRF's curve
/// group; decided by the VRF library, named here so that contracts can speak
/// of it.
pub uninterp spec fn vrf_output_is_valid(bytes: Seq<u8>) -> bool;

/// Whether 64 bytes are a well-formed VRF proof, two canonical scalars;
/// decided by the VRF library, named here so that contracts can speak of it.
pub uninterp spec fn vrf_proof_is_valid(bytes: Seq<u8>) -> bool;

/// Relies on schnorrkel's `points::RistrettoBoth::from_bytes`, which returns
/// `Ok` exactly when the input is 32 bytes long and decompresses as a
/// Ristretto point; the result depends on the bytes alone.
#[verifier::external_body]
fn check_vrf_output_bytes(bytes: &Vec<u8>) -> (r: bool)
    ensures
        r == vrf_output_is_valid(bytes@),
        bytes@.len() != 32 ==> !r,
{
    schnorrkel::points::RistrettoBoth::from_bytes(bytes.as_slice()).is_ok()
}

/// Relies on schnorrkel's `vrf::VRFProof::from_bytes`, which returns `Ok`
/// exactly when the input is 64 bytes long and both halves are canonical
/// scalars; the result depends on the bytes alone.
#[verifier::external_body]
fn check_vrf_proof_bytes(bytes: &Vec<u8>) -> (r: bool)
    ensures
        r == vrf_proof_is_valid(bytes@),
        bytes@.len() != 64 ==> !r,
{
    schnorrkel::vrf::VRFProof::from_bytes(bytes.as_slice()).is_ok()
}

/// A slot-leadership pre-digest, as carried in a block header.
#[derive(Clone, Debug, PartialEq, Eq)]
pub struct BabePreDigest {
    /// The VRF output, 32 bytes.
    pub vrf_output: Vec<u8>,
    /// The VRF proof, 64 bytes.
    pub vrf_proof: Vec<u8>,
    /// The author's position in the current authority set.
    pub author_index: u32,
    /// The slot the author claims.
    pub slot_number: u64,
}

/// The mathematical content of a pre-digest.
#[verifier::ext_equal]
pub ghost struct PreDigestView {
    pub vrf_output: Seq<u8>,
    pub vrf_proof: Seq<u8>,
    pub author_index: u32,
    pub slot_number: u64,
}

impl View for BabePreDigest {
    type V = PreDigestView;

    open spec fn view(&self) -> PreDigestView {
        PreDigestView {
            vrf_output: self.vrf_output@,
            vrf_proof: self.vrf_proof@,
            author_index: self.author_index,
            slot_number: self.slot_number,
        }
    }
}

impl PreDigestView {
    /// The fields have their fixed widths.
    pub open spec fn wf(self) -> bool {
        self.vrf_output.len() == 32 && self.vrf_proof.len() == 64
    }

    /// The VRF fields are well-formed elements of the curve group.
    pub open spec fn vrf_fields_valid(self) -> bool {
        vrf_output_is_valid(self.vrf_output) && vrf_proof_is_valid(self.vrf_proof)
    }
}

/// The encoding of a pre-digest: VRF output, VRF proof, author index and
/// slot number concatenated, integers little-endian, no prefixes.
pub open spec fn encode_spec(d: PreDigestView) -> Seq<u8> {
    d.vrf_output + d.vrf_proof + u32_le_bytes(d.author_index) + u64_le_bytes(d.slot_number)
}

/// The strict decoding of a byte string: exactly 108 bytes, and the VRF
/// fields must be well-formed curve elements; integers are read with no
/// range validation.
pub open spec fn decode_spec(s: Seq<u8>) -> Option<PreDigestView> {
    if s.len() != 108 {
        None
    } else {
        let out = s.subrange(0, 32);
        let proof = s.subrange(32, 96);
        if vrf_output_is_valid(out) && vrf_proof_is_valid(proof) {
            Some(PreDigestView {
                vrf_output: out,
                vrf_proof: proof,
                author_index: u32_from_le(s.subrange(96, 100)),
                slot_number: u64_from_le(s.subrange(100, 108)),
            })
        } else {
            None
        }
    }
}

impl BabePreDigest {
    /// Encodes the pre-digest into its fixed 108-byte layout.
    pub fn encode(&self) -> (r: Vec<u8>)
        requires
            self@.wf(),
        ensures
            r@ == encode_spec(self@),
            r@.len() == 108,
    {
        let mut out: Vec<u8> = Vec::new();
        let mut i: usize = 0;
        while i < self.vrf_output.len()
            invariant
                self@.wf(),
                i <= self.vrf_output@.len(),
                out@ == self.vrf_output@.subrange(0, i as int),
            decreases self.vrf_output@.len() - i,
        {
            out.push(self.vrf_output[i]);
            i = i + 1;
            assert(out@ =~= self.vrf_output@.subrange(0, i as int));
        }
        assert(out@ =~= self.vrf_output@);
        let mut j: usize = 0;
        while j < self.vrf_proof.len()
            invariant
                self@.wf(),
                j <= self.vrf_proof@.len(),
                out@ == self.vrf_output@ + self.vrf_proof@.subrange(0, j as int),
            decreases self.vrf_proof@.len() - j,
        {
            out.push(self.vrf_proof[j]);
            j = j + 1;
            assert(out@ =~= self.vrf_output@ + self.vrf_proof@.subrange(0, j as int));
        }
        assert(out@ =~= self.vrf_output@ + self.vrf_proof@);
        push_u32_le(&mut out, self.author_index);
        push_u64_le(&mut out, self.slot_number);
        assert(out@ =~= encode_spec(self@));
        out
    }

    /// Decodes a byte string, strictly: wrong length or ill-formed VRF
    /// fields yield `None`, never a structurally broken digest.
    pub fn decode(bytes: &Vec<u8>) -> (r: Option<BabePreDigest>)
        ensures
            match r {
                Some(d) => {
                    &&& decode_spec(bytes@) == Some(d@)
                    &&& d@.wf()
                    &&& d@.vrf_fields_valid()
                },
                None => decode_spec(bytes@) is None,
            },
    {
        if bytes.len() != PRE_DIGEST_LENGTH {
            return None;
        }
        let vrf_output = copy_range(bytes, 0, VRF_OUTPUT_LENGTH);
        let vrf_proof = copy_range(bytes, VRF_OUTPUT_LENGTH, VRF_PROOF_LENGTH);
        if !check_vrf_output_bytes(&vrf_output) {
            return None;
        }
        if !check_vrf_proof_bytes(&vrf_proof) {
            return None;
        }
        let author_index = read_u32_le(bytes, 96);
        let slot_number = read_u64_le(bytes, 100);
        Some(BabePreDigest { vrf_output, vrf_proof, author_index, slot_number })
    }
}

/// Round trip: every pre-digest whose VRF fields are well-formed curve
/// elements decodes from its own encoding, exactly.
pub proof fn lemma_encode_decode_round_trip(d: PreDigestView)
    requires
        d.wf(),
        d.vrf_fields_valid(),
    ensures
        decode_spec(encode_spec(d)) == Some(d),
{
    let e = encode_spec(d);
    assert(e.len() == 108);
    assert(e.subrange(0, 32) =~= d.vrf_output);
    assert(e.subrange(32, 96) =~= d.vrf_proof);
    assert(e.subrange(96, 100) =~= u32_le_bytes(d.author_index));
    assert(e.subrange(100, 108) =~= u64_le_bytes(d.slot_number));
    lemma_u32_le_round_trip(d.author_index);
    lemma_u64_le_round_trip(d.slot_number);
    assert(decode_spec(e)->Some_0 =~= d);
}

/// The encoding is injective: two pre-digests with the same encoding are the
/// same pre-digest, whether or not their VRF fields are valid.
pub proof fn lemma_encode_injective(d1: PreDigestView, d2: PreDigestView)
    requires
        d1.wf(),
        d2.wf(),
        encode_spec(d1) == encode_spec(d2),
    ensures
        d1 == d2,
{
    let e = encode_spec(d1);
    assert(e.subrange(0, 32) =~= d1.vrf_output);
    assert(e.subrange(0, 32) =~= d2.vrf_output);
    assert(e.subrange(32, 96) =~= d1.vrf_proof);
    assert(e.subrange(32, 96) =~= d2.vrf_proof);
    assert(e.subrange(96, 100) =~= u32_le_bytes(d1.author_index));
    assert(e.subrange(96, 100) =~= u32_le_bytes(d2.author_index));
    assert(e.subrange(100, 108) =~= u64_le_bytes(d1.slot_number));
    assert(e.subrange(100, 108) =~= u64_le_bytes(d2.slot_number));
    lemma_u32_le_round_trip(d1.author_index);
    lemma_u32_le_round_trip(d2.author_index);
    lemma_u64_le_round_trip(d1.slot_number);
    lemma_u64_le_round_trip(d2.slot_number);
    assert(d1 =~= d2);
}

/// Corruption: a byte string that differs from the encoding of `d` anywhere
/// in the VRF output or proof bytes never decodes back to `d`; it either
/// fails to decode or yields a digest with a different VRF field.
pub proof fn lemma_corrupted_vrf_bytes_detected(d: PreDigestView, s: Seq<u8>, i: int)
    requires
        d.wf(),
        0 <= i < 96,
        s[i] != encode_spec(d)[i],
    ensures
        decode_spec(s) != Some(d),
{
    if decode_spec(s) is Some {
        let v = decode_spec(s)->Some_0;
        assert(s.len() == 108);
        if i < 32 {
            assert(v.vrf_output[i] == s[i]);
            assert(encode_spec(d)[i] == d.vrf_output[i]);
        } else {
            assert(v.vrf_proof[i - 32] == s[i]);
            assert(encode_spec(d)[i] == d.vrf_proof[i - 32]);
        }
    }
}

} // verus!
