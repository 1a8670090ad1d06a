use consensus_core::equivocation::{
    encode_vote_payload, validate_unsigned, EquivocationProof, InvalidReason,
    TransactionValidity, ValidTransaction, Vote, VoteKind,
};
use ed25519_dalek::{Signer, SigningKey};

fn signed_payload(key: &SigningKey, kind: VoteKind, vote: &Vote, round: u64, set_id: u64) -> Vec<u8> {
    let payload = encode_vote_payload(kind, vote, round, set_id);
    key.sign(&payload).to_bytes().to_vec()
}

#[test]
fn validate_unsigned_works() {
    let pair = SigningKey::from_bytes(&[7u8; 32]);
    let public = pair.verifying_key().to_bytes().to_vec();

    let hash1 = vec![0xaau8; 32];
    let hash2 = vec![0xbbu8; 32];

    let prevote1 = Vote { target_hash: hash1, target_number: 1 };
    let sig1 = signed_payload(&pair, VoteKind::Prevote, &prevote1, 0, 0);

    let prevote2 = Vote { target_hash: hash2, target_number: 2 };
    let sig2 = signed_payload(&pair, VoteKind::Prevote, &prevote2, 0, 0);

    let proof1 = EquivocationProof {
        set_id: 0,
        round_number: 0,
        kind: VoteKind::Prevote,
        identity: public.clone(),
        first_vote: prevote1.clone(),
        first_signature: sig1.clone(),
        second_vote: prevote2.clone(),
        second_signature: sig2.clone(),
    };

    let proof2 = EquivocationProof {
        set_id: 0,
        round_number: 0,
        kind: VoteKind::Prevote,
        identity: public.clone(),
        first_vote: prevote1.clone(),
        first_signature: sig1.clone(),
        second_vote: prevote1.clone(),
        second_signature: sig1.clone(),
    };

    let proof3 = EquivocationProof {
        set_id: 0,
        round_number: 0,
        kind: VoteKind::Prevote,
        identity: public.clone(),
        first_vote: prevote1.clone(),
        first_signature: sig1.clone(),
        second_vote: prevote2.clone(),
        second_signature: sig1.clone(),
    };

    assert_eq!(
        validate_unsigned(&proof1),
        TransactionValidity::Valid(ValidTransaction {
            priority: 10,
            requires_tags: vec![],
            provides_tags: vec![],
            longevity: 18446744073709551615,
            propagate: true,
        })
    );
    assert_eq!(
        validate_unsigned(&proof2),
        TransactionValidity::Invalid(InvalidReason::EqualVotes)
    );
    assert_eq!(
        validate_unsigned(&proof3),
        TransactionValidity::Invalid(InvalidReason::BadSecondSignature)
    );
}

#[test]
fn wrong_identity_rejected() {
    let pair = SigningKey::from_bytes(&[9u8; 32]);
    let other = SigningKey::from_bytes(&[13u8; 32]);

    let vote1 = Vote { target_hash: vec![1u8; 32], target_number: 4 };
    let vote2 = Vote { target_hash: vec![2u8; 32], target_number: 5 };
    let sig1 = signed_payload(&pair, VoteKind::Precommit, &vote1, 3, 2);
    let sig2 = signed_payload(&pair, VoteKind::Precommit, &vote2, 3, 2);

    // both signatures are honest, but attributed to the wrong identity.
    let proof = EquivocationProof {
        set_id: 2,
        round_number: 3,
        kind: VoteKind::Precommit,
        identity: other.verifying_key().to_bytes().to_vec(),
        first_vote: vote1,
        first_signature: sig1,
        second_vote: vote2,
        second_signature: sig2,
    };
    assert_eq!(
        validate_unsigned(&proof),
        TransactionValidity::Invalid(InvalidReason::BadFirstSignature)
    );
}

#[test]
fn malformed_identity_rejected() {
    let pair = SigningKey::from_bytes(&[21u8; 32]);
    let vote1 = Vote { target_hash: vec![3u8; 32], target_number: 1 };
    let vote2 = Vote { target_hash: vec![4u8; 32], target_number: 2 };
    let sig1 = signed_payload(&pair, VoteKind::Prevote, &vote1, 0, 0);
    let sig2 = signed_payload(&pair, VoteKind::Prevote, &vote2, 0, 0);

    // a 31-byte identity cannot be a public key.
    let proof = EquivocationProof {
        set_id: 0,
        round_number: 0,
        kind: VoteKind::Prevote,
        identity: vec![0u8; 31],
        first_vote: vote1,
        first_signature: sig1,
        second_vote: vote2,
        second_signature: sig2,
    };
    assert_eq!(
        validate_unsigned(&proof),
        TransactionValidity::Invalid(InvalidReason::BadFirstSignature)
    );
}

#[test]
fn payload_layout_is_exact() {
    let vote = Vote { target_hash: (0u8..32).collect(), target_number: 0x0102030405060708 };
    let payload = encode_vote_payload(VoteKind::Precommit, &vote, 0x1122334455667788, 0x99);

    let mut expected = vec![1u8];
    expected.extend((0u8..32).collect::<Vec<u8>>());
    expected.extend(0x0102030405060708u64.to_le_bytes());
    expected.extend(0x1122334455667788u64.to_le_bytes());
    expected.extend(0x99u64.to_le_bytes());
    assert_eq!(payload, expected);
}
