use consensus_core::digest::BabePreDigest;
use consensus_core::randomness::{PreDigestError, PreRuntimeLog, RandomnessBeacon};
use schnorrkel::{signing_context, ExpansionMode, MiniSecretKey};

fn vrf_material(seed: u8) -> (Vec<u8>, Vec<u8>) {
    let keypair = MiniSecretKey::from_bytes(&[seed; 32])
        .unwrap()
        .expand_to_keypair(ExpansionMode::Ed25519);
    let ctx = signing_context(b"test-slot");
    let (io, proof, _) = keypair.vrf_sign(ctx.bytes(b"slot-claim"));
    (io.to_preout().to_bytes().to_vec(), proof.to_bytes().to_vec())
}

fn babe_log(seed: u8, slot_number: u64) -> (PreRuntimeLog, BabePreDigest) {
    let (vrf_output, vrf_proof) = vrf_material(seed);
    let digest = BabePreDigest { vrf_output, vrf_proof, author_index: 0, slot_number };
    let log = PreRuntimeLog { engine: b"BABE".to_vec(), data: digest.encode() };
    (log, digest)
}

#[test]
fn deposit_folds_with_the_fixed_hash() {
    let seed = vec![0u8; 32];
    let mut beacon = RandomnessBeacon::new(seed.clone());
    let (vrf_output, _) = vrf_material(1);

    beacon.deposit_vrf_output(&vrf_output);

    let mut input = seed.clone();
    input.extend(vrf_output);
    let expected = blake2_rfc::blake2b::blake2b(32, &[], &input);
    assert_eq!(beacon.random().as_slice(), expected.as_bytes());
    assert_ne!(beacon.random(), &seed);
    assert_eq!(beacon.random().len(), 32);
}

#[test]
fn exactly_one_pre_digest_is_accepted() {
    let mut beacon = RandomnessBeacon::new(vec![0u8; 32]);
    let (log, digest) = babe_log(2, 10);
    // entries of other engines and undecodable tagged payloads are skipped.
    let other_engine = PreRuntimeLog { engine: b"SEAL".to_vec(), data: digest.encode() };
    let undecodable = PreRuntimeLog { engine: b"BABE".to_vec(), data: vec![1, 2, 3] };

    let logs = vec![other_engine, undecodable, log];
    let found = beacon.process_inherent_digests(&logs).unwrap();
    assert_eq!(found, digest);

    let mut input = vec![0u8; 32];
    input.extend(found.vrf_output.clone());
    let expected = blake2_rfc::blake2b::blake2b(32, &[], &input);
    assert_eq!(beacon.random().as_slice(), expected.as_bytes());
}

#[test]
fn zero_pre_digests_are_fatal() {
    let mut beacon = RandomnessBeacon::new(vec![7u8; 32]);
    let (log, digest) = babe_log(3, 11);
    let other_engine = PreRuntimeLog { engine: b"SEAL".to_vec(), data: digest.encode() };
    let _ = log;

    let before = beacon.clone();
    assert_eq!(
        beacon.process_inherent_digests(&vec![other_engine]),
        Err(PreDigestError::MissingPreDigest)
    );
    assert_eq!(
        beacon.process_inherent_digests(&Vec::new()),
        Err(PreDigestError::MissingPreDigest)
    );
    assert_eq!(beacon, before);
}

#[test]
fn multiple_pre_digests_are_fatal() {
    let mut beacon = RandomnessBeacon::new(vec![7u8; 32]);
    let (log1, _) = babe_log(4, 12);
    let (log2, _) = babe_log(5, 13);

    let before = beacon.clone();
    assert_eq!(
        beacon.process_inherent_digests(&vec![log1, log2]),
        Err(PreDigestError::MultiplePreDigests)
    );
    assert_eq!(beacon, before);
}
