//! The equivocation-proof verifier for finality votes.
//!
//! An equivocation proof claims that one authority signed two conflicting
//! votes in the same round of the same authority set. Verification is pure:
//! both signatures must verify over their own vote's payload under the
//! reporter's claimed identity, and the two votes must be structurally
//! distinct — the same vote signed twice is not double-voting. A valid
//! report becomes a transaction-validity record with fixed priority, maximal
//! longevity and no tags; every failure yields a typed `Invalid` verdict,
//! never a panic.

use vstd::prelude::*;
use crate::bytes::{bytes_equal, push_u64_le, u64_le_bytes};

verus! {

/// Which phase of a finality round the two votes belong to.
#[derive(Clone, Copy, Debug, PartialEq, Eq)]
pub enum VoteKind {
    /// The round's first vote.
    Prevote,
    /// The round's second vote.
    Precommit,
}

/// The tag byte a vote kind contributes to the signed payload.
pub open spec fn kind_byte(kind: VoteKind) -> u8 {
    match kind {
        VoteKind::Prevote => 0,
        VoteKind::Precommit => 1,
    }
}

/// What a finality-round participant claims is the best block.
#[derive(Clone, Debug, PartialEq, Eq)]
pub struct Vote {
    /// The hash of the target block, 32 bytes.
    pub target_hash: Vec<u8>,
    /// The height of the target block.
    pub target_number: u64,
}

/// The mathematical content of a vote.
#[verifier::ext_equal]
pub ghost struct VoteView {
    pub target_hash: Seq<u8>,
    pub target_number: u64,
}

impl View for Vote {
    type V = VoteView;

    open spec fn view(&self) -> VoteView {
        VoteView { target_hash: self.target_hash@, target_number: self.target_number }
    }
}

/// A claim that `identity` signed both `first` and `second` in round
/// `round_number` of authority set `set_id`.
#[derive(Clone, Debug, PartialEq, Eq)]
pub struct EquivocationProof {
    /// The authority set the round belongs to.
    pub set_id: u64,
    /// The finality round both votes were cast in.
    pub round_number: u64,
    /// The phase both votes belong to.
    pub kind: VoteKind,
    /// The public key of the accused authority, 32 bytes.
    pub identity: Vec<u8>,
    /// The first vote.
    pub first_vote: Vote,
    /// The signature over the first vote's payload, 64 bytes.
    pub first_signature: Vec<u8>,
    /// The second vote.
    pub second_vote: Vote,
    /// The signature over the second vote's payload, 64 bytes.
    pub second_signature: Vec<u8>,
}

/// The mathematical content of an equivocation proof.
#[verifier::ext_equal]
pub ghost struct ProofView {
    pub set_id: u64,
    pub round_number: u64,
    pub kind: VoteKind,
    pub identity: Seq<u8>,
    pub first_vote: VoteView,
    pub first_signature: Seq<u8>,
    pub second_vote: VoteView,
    pub second_signature: Seq<u8>,
}

impl View for EquivocationProof {
    type V = ProofView;

    open spec fn view(&self) -> ProofView {
        ProofView {
            set_id: self.set_id,
            round_number: self.round_number,
            kind: self.kind,
            identity: self.identity@,
            first_vote: self.first_vote@,
            first_signature: self.first_signature@,
            second_vote: self.second_vote@,
            second_signature: self.second_signature@,
        }
    }
}

/// The payload a round participant signs for one vote: the kind tag, the
/// target hash, then target number, round number and set id, little-endian.
pub open spec fn vote_payload(kind: VoteKind, vote: VoteView, round_number: u64, set_id: u64) -> Seq<
    u8,
> {
    seq![kind_byte(kind)] + vote.target_hash + u64_le_bytes(vote.target_number)
        + u64_le_bytes(round_number) + u64_le_bytes(set_id)
}

/// Builds the signed payload of one vote.
pub fn encode_vote_payload(kind: VoteKind, vote: &Vote, round_number: u64, set_id: u64) -> (r: Vec<
    u8,
>)
    ensures
        r@ == vote_payload(kind, vote@, round_number, set_id),
{
    let mut out: Vec<u8> = Vec::new();
    match kind {
        VoteKind::Prevote => out.push(0),
        VoteKind::Precommit => out.push(1),
    }
    assert(out@ =~= seq![kind_byte(kind)]);
    crate::bytes::append_bytes(&mut out, &vote.target_hash);
    push_u64_le(&mut out, vote.target_number);
    push_u64_le(&mut out, round_number);
    push_u64_le(&mut out, set_id);
    assert(out@ =~= vote_payload(kind, vote@, round_number, set_id));
    out
}

/// Whether `signature` is a valid Ed25519 signature by `public_key` over
/// `message`; decided by the signature library, named here so that contracts
/// can speak of it.
pub uninterp spec fn ed25519_verifies(public_key: Seq<u8>, message: Seq<u8>, signature: Seq<u8>) -> bool;

/// Relies on ed25519-dalek's `VerifyingKey::from_bytes` and
/// `Verifier::verify`: the outcome depends on the key, message and signature
/// bytes alone, and a key that is no curve point verifies nothing.
#[verifier::external_body]
fn ed25519_verify(public_key: &Vec<u8>, message: &Vec<u8>, signature: &Vec<u8>) -> (r: bool)
    requires
        public_key@.len() == 32,
        signature@.len() == 64,
    ensures
        r == ed25519_verifies(public_key@, message@, signature@),
{
    let mut pk = [0u8; 32];
    pk.copy_from_slice(public_key.as_slice());
    let mut sg = [0u8; 64];
    sg.copy_from_slice(signature.as_slice());
    match ed25519_dalek::VerifyingKey::from_bytes(&pk) {
        Ok(key) => {
            let sig = ed25519_dalek::Signature::from_bytes(&sg);
            ed25519_dalek::Verifier::verify(&key, message.as_slice(), &sig).is_ok()
        },
        Err(_) => false,
    }
}

/// Whether the first signature verifies over the first vote's payload under
/// the claimed identity (a malformed key or signature never verifies).
pub open spec fn first_signature_ok(p: ProofView) -> bool {
    &&& p.identity.len() == 32
    &&& p.first_signature.len() == 64
    &&& ed25519_verifies(
        p.identity,
        vote_payload(p.kind, p.first_vote, p.round_number, p.set_id),
        p.first_signature,
    )
}

/// Whether the second signature verifies over the second vote's payload
/// under the claimed identity.
pub open spec fn second_signature_ok(p: ProofView) -> bool {
    &&& p.identity.len() == 32
    &&& p.second_signature.len() == 64
    &&& ed25519_verifies(
        p.identity,
        vote_payload(p.kind, p.second_vote, p.round_number, p.set_id),
        p.second_signature,
    )
}

/// A proof is valid when both signatures verify over their own vote's
/// payload and the two votes are structurally distinct.
pub open spec fn proof_is_valid(p: ProofView) -> bool {
    first_signature_ok(p) && second_signature_ok(p) && p.first_vote != p.second_vote
}

/// Why a proof was rejected.
#[derive(Clone, Copy, Debug, PartialEq, Eq)]
pub enum InvalidReason {
    /// The first signature does not verify over the first vote's payload.
    BadFirstSignature,
    /// The second signature does not verify over the second vote's payload.
    BadSecondSignature,
    /// Both signatures verify but the votes are identical: not double-voting.
    EqualVotes,
}

/// The first step at which an invalid proof fails.
pub open spec fn invalid_reason(p: ProofView) -> InvalidReason
    recommends
        !proof_is_valid(p),
{
    if !first_signature_ok(p) {
        InvalidReason::BadFirstSignature
    } else if !second_signature_ok(p) {
        InvalidReason::BadSecondSignature
    } else {
        InvalidReason::EqualVotes
    }
}

/// The record a valid report hands to the transaction pool.
#[derive(Clone, Debug, PartialEq, Eq)]
pub struct ValidTransaction {
    /// Fixed report priority.
    pub priority: u64,
    /// Tags this transaction depends on; always empty for a report.
    pub requires_tags: Vec<Vec<u8>>,
    /// Tags this transaction provides; always empty for a report.
    pub provides_tags: Vec<Vec<u8>>,
    /// How many blocks the report stays valid; maximal, it never expires.
    pub longevity: u64,
    /// Whether to gossip the report across the network.
    pub propagate: bool,
}

/// The verdict handed to the transaction pool.
#[derive(Clone, Debug, PartialEq, Eq)]
pub enum TransactionValidity {
    /// The report checked out.
    Valid(ValidTransaction),
    /// The report failed, at the recorded step.
    Invalid(InvalidReason),
}

/// The fixed record of an accepted report: priority 10, no tags, maximal
/// longevity, gossiped.
pub open spec fn accepted_report(v: ValidTransaction) -> bool {
    &&& v.priority == 10
    &&& v.requires_tags@.len() == 0
    &&& v.provides_tags@.len() == 0
    &&& v.longevity == u64::MAX
    &&& v.propagate
}

/// Compares two votes by content.
pub fn votes_equal(a: &Vote, b: &Vote) -> (r: bool)
    ensures
        r == (a@ == b@),
{
    if bytes_equal(&a.target_hash, &b.target_hash) && a.target_number == b.target_number {
        assert(a@ =~= b@);
        true
    } else {
        false
    }
}

/// The verdict for a report whose two signatures have already been examined:
/// accepted exactly when both signatures are good and the votes differ, and
/// a rejection records the first failed step.
pub fn build_verdict(
    first_ok: bool,
    second_ok: bool,
    first_vote: &Vote,
    second_vote: &Vote,
) -> (r: TransactionValidity)
    ensures
        first_ok && second_ok && first_vote@ != second_vote@ ==> (match r {
            TransactionValidity::Valid(v) => accepted_report(v),
            TransactionValidity::Invalid(_) => false,
        }),
        !first_ok ==> r == TransactionValidity::Invalid(InvalidReason::BadFirstSignature),
        first_ok && !second_ok ==> r == TransactionValidity::Invalid(
            InvalidReason::BadSecondSignature,
        ),
        first_ok && second_ok && first_vote@ == second_vote@ ==> r == TransactionValidity::Invalid(
            InvalidReason::EqualVotes,
        ),
    {
    if !first_ok {
        TransactionValidity::Invalid(InvalidReason::BadFirstSignature)
    } else if !second_ok {
        TransactionValidity::Invalid(InvalidReason::BadSecondSignature)
    } else if votes_equal(first_vote, second_vote) {
        TransactionValidity::Invalid(InvalidReason::EqualVotes)
    } else {
        TransactionValidity::Valid(
            ValidTransaction {
                priority: 10,
                requires_tags: Vec::new(),
                provides_tags: Vec::new(),
                longevity: u64::MAX,
                propagate: true,
            },
        )
    }
}

/// Verifies an equivocation report and produces the pool verdict.
///
/// Both signatures are checked over their own vote's payload under the
/// claimed identity, then the votes must differ; the verdict records the
/// first failed step, and a valid report gets the fixed accepted record.
pub fn validate_unsigned(proof: &EquivocationProof) -> (r: TransactionValidity)
    ensures
        proof_is_valid(proof@) ==> (match r {
            TransactionValidity::Valid(v) => accepted_report(v),
            TransactionValidity::Invalid(_) => false,
        }),
        !proof_is_valid(proof@) ==> r == TransactionValidity::Invalid(invalid_reason(proof@)),
{
    let payload1 = encode_vote_payload(proof.kind, &proof.first_vote, proof.round_number, proof.set_id);
    let payload2 = encode_vote_payload(proof.kind, &proof.second_vote, proof.round_number, proof.set_id);
    let first_ok = proof.identity.len() == 32 && proof.first_signature.len() == 64
        && ed25519_verify(&proof.identity, &payload1, &proof.first_signature);
    let second_ok = proof.identity.len() == 32 && proof.second_signature.len() == 64
        && ed25519_verify(&proof.identity, &payload2, &proof.second_signature);
    build_verdict(first_ok, second_ok, &proof.first_vote, &proof.second_vote)
}

/// Two distinct votes, each correctly signed by the same identity in the
/// same round and set, form a valid report.
pub proof fn lemma_equivocation_accepted(p: ProofView)
    requires
        p.identity.len() == 32,
        p.first_signature.len() == 64,
        p.second_signature.len() == 64,
        ed25519_verifies(
            p.identity,
            vote_payload(p.kind, p.first_vote, p.round_number, p.set_id),
            p.first_signature,
        ),
        ed25519_verifies(
            p.identity,
            vote_payload(p.kind, p.second_vote, p.round_number, p.set_id),
            p.second_signature,
        ),
        p.first_vote != p.second_vote,
    ensures
        proof_is_valid(p),
{
}

/// The same vote signed twice is never an equivocation, whatever the
/// signatures: such a proof is always rejected.
pub proof fn lemma_identical_votes_rejected(p: ProofView)
    requires
        p.first_vote == p.second_vote,
    ensures
        !proof_is_valid(p),
{
}

/// A proof whose second signature does not verify over the second vote's
/// payload is rejected, whatever the rest of the proof claims, and the
/// rejection names that signature.
pub proof fn lemma_mismatched_signature_rejected(p: ProofView)
    requires
        first_signature_ok(p),
        !second_signature_ok(p),
    ensures
        !proof_is_valid(p),
        invalid_reason(p) == InvalidReason::BadSecondSignature,
{
}

} // verus!
