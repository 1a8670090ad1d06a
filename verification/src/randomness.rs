//! The rolling randomness beacon and the per-block pre-digest scan.
//!
//! Each block carries exactly one slot-leadership pre-digest among its
//! header logs. The scan finds it, rejects blocks with zero or several, and
//! folds its VRF output into the beacon: the new beacon value is the 256-bit
//! hash of the old value concatenated with the VRF output. The beacon is
//! public randomness — a malicious validator can bias it in the short term,
//! so it must never be used where such bias is unacceptable.

use vstd::prelude::*;
use crate::bytes::{append_bytes, copy_range};
use crate::digest::{decode_spec, BabePreDigest, PreDigestView};

verus! {

/// The engine tag that marks a header log as a slot-leadership pre-digest:
/// the four bytes `BABE`.
pub open spec fn babe_engine_id() -> Seq<u8> {
    seq![0x42u8, 0x41u8, 0x42u8, 0x45u8]
}

/// The 32-byte digest of `input` under the beacon's fixed 256-bit hash;
/// computed by the hash library, named here so that contracts can speak of
/// it.
pub uninterp spec fn beacon_hash(input: Seq<u8>) -> Seq<u8>;

/// Relies on blake2-rfc's `blake2b::blake2b` with a 32-byte digest length
/// and an empty key: the result is 32 bytes and depends on the input bytes
/// alone.
#[verifier::external_body]
fn beacon_hash_digest(input: &Vec<u8>) -> (r: Vec<u8>)
    ensures
        r@ == beacon_hash(input@),
        r@.len() == 32,
{
    let hash = blake2_rfc::blake2b::blake2b(32, &[], input.as_slice());
    hash.as_bytes().to_vec()
}

/// One folding step of the beacon: hash the old value concatenated with the
/// block's VRF output.
pub open spec fn fold_spec(beacon: Seq<u8>, vrf_output: Seq<u8>) -> Seq<u8> {
    beacon_hash(beacon + vrf_output)
}

/// An engine-tagged pre-runtime entry of a block header.
#[derive(Clone, Debug, PartialEq, Eq)]
pub struct PreRuntimeLog {
    /// The four-byte engine tag.
    pub engine: Vec<u8>,
    /// The engine-specific payload.
    pub data: Vec<u8>,
}

/// The mathematical content of a pre-runtime log entry.
#[verifier::ext_equal]
pub ghost struct LogView {
    pub engine: Seq<u8>,
    pub data: Seq<u8>,
}

impl View for PreRuntimeLog {
    type V = LogView;

    open spec fn view(&self) -> LogView {
        LogView { engine: self.engine@, data: self.data@ }
    }
}

/// The mathematical content of a log list.
pub open spec fn log_views(s: Seq<PreRuntimeLog>) -> Seq<LogView> {
    s.map_values(|l: PreRuntimeLog| l@)
}

/// The pre-digests a block's logs carry: the decodings of the payloads of
/// the `BABE`-tagged entries, in order, skipping payloads that do not
/// decode.
pub open spec fn babe_pre_digests(logs: Seq<LogView>) -> Seq<PreDigestView>
    decreases logs.len(),
{
    if logs.len() == 0 {
        Seq::empty()
    } else {
        let prefix = babe_pre_digests(logs.drop_last());
        let l = logs.last();
        if l.engine == babe_engine_id() && decode_spec(l.data) is Some {
            prefix.push(decode_spec(l.data)->0)
        } else {
            prefix
        }
    }
}

/// Why a block's logs were rejected.
#[derive(Clone, Copy, Debug, PartialEq, Eq)]
pub enum PreDigestError {
    /// No log entry decoded as a pre-digest; every block must carry one.
    MissingPreDigest,
    /// More than one log entry decoded as a pre-digest.
    MultiplePreDigests,
}

/// Whether a log entry carries the pre-digest engine tag.
pub fn is_babe_engine(e: &Vec<u8>) -> (r: bool)
    ensures
        r == (e@ == babe_engine_id()),
{
    if e.len() != 4 {
        return false;
    }
    if e[0] == 0x42 && e[1] == 0x41 && e[2] == 0x42 && e[3] == 0x45 {
        assert(e@ =~= babe_engine_id());
        true
    } else {
        false
    }
}

/// The beacon: a single 32-byte value, initialized at genesis and folded
/// exactly once per block.
#[derive(Clone, Debug, PartialEq, Eq)]
pub struct RandomnessBeacon {
    /// The current beacon value, 32 bytes.
    pub randomness: Vec<u8>,
}

impl View for RandomnessBeacon {
    type V = Seq<u8>;

    open spec fn view(&self) -> Seq<u8> {
        self.randomness@
    }
}

impl RandomnessBeacon {
    /// A beacon over the given 32-byte genesis seed.
    pub fn new(seed: Vec<u8>) -> (r: RandomnessBeacon)
        requires
            seed@.len() == 32,
        ensures
            r@ == seed@,
    {
        RandomnessBeacon { randomness: seed }
    }

    /// The randomness we have right now. Public, and short-term biasable by
    /// a malicious validator: never use it for selections that must be
    /// immune to validator influence.
    pub fn random(&self) -> (r: &Vec<u8>)
        ensures
            r@ == self@,
    {
        &self.randomness
    }

    /// Folds one block's VRF output into the beacon.
    pub fn deposit_vrf_output(&mut self, vrf_output: &Vec<u8>)
        requires
            old(self)@.len() == 32,
            vrf_output@.len() == 32,
        ensures
            final(self)@ == fold_spec(old(self)@, vrf_output@),
            final(self)@.len() == 32,
    {
        let mut buf = copy_range(&self.randomness, 0, self.randomness.len());
        assert(buf@ =~= self@);
        append_bytes(&mut buf, vrf_output);
        self.randomness = beacon_hash_digest(&buf);
    }

    /// Scans a block's header logs for its mandatory pre-digest and folds
    /// the VRF output into the beacon.
    ///
    /// Exactly one `BABE`-tagged entry must decode as a pre-digest: with
    /// zero or several the block is rejected and the beacon is untouched.
    pub fn process_inherent_digests(&mut self, logs: &Vec<PreRuntimeLog>) -> (r: Result<
        BabePreDigest,
        PreDigestError,
    >)
        requires
            old(self)@.len() == 32,
        ensures
            final(self)@.len() == 32,
            match r {
                Ok(d) => {
                    &&& babe_pre_digests(log_views(logs@)) == seq![d@]
                    &&& d@.wf()
                    &&& d@.vrf_fields_valid()
                    &&& final(self)@ == fold_spec(old(self)@, d@.vrf_output)
                },
                Err(PreDigestError::MissingPreDigest) => {
                    &&& babe_pre_digests(log_views(logs@)).len() == 0
                    &&& final(self)@ == old(self)@
                },
                Err(PreDigestError::MultiplePreDigests) => {
                    &&& babe_pre_digests(log_views(logs@)).len() >= 2
                    &&& final(self)@ == old(self)@
                },
            },
    {
        let mut found: Option<BabePreDigest> = None;
        let mut duplicate: bool = false;
        let mut i: usize = 0;
        while i < logs.len()
            invariant
                i <= logs@.len(),
                ({
                    let pd = babe_pre_digests(log_views(logs@).subrange(0, i as int));
                    match found {
                        None => !duplicate && pd.len() == 0,
                        Some(d) => {
                            if duplicate {
                                pd.len() >= 2
                            } else {
                                pd =~= seq![d@] && d@.wf() && d@.vrf_fields_valid()
                            }
                        },
                    }
                }),
            decreases logs@.len() - i,
        {
            let log = &logs[i];
            let mut this_digest: Option<BabePreDigest> = None;
            if is_babe_engine(&log.engine) {
                this_digest = BabePreDigest::decode(&log.data);
            }
            proof {
                let cur = log_views(logs@).subrange(0, i as int + 1);
                assert(cur.drop_last() =~= log_views(logs@).subrange(0, i as int));
                assert(cur.last() == logs@[i as int]@);
            }
            match this_digest {
                Some(d) => {
                    if found.is_some() {
                        duplicate = true;
                    } else {
                        found = Some(d);
                    }
                },
                None => {},
            }
            i = i + 1;
        }
        assert(log_views(logs@).subrange(0, logs@.len() as int) =~= log_views(logs@));
        match found {
            None => Err(PreDigestError::MissingPreDigest),
            Some(d) => {
                if duplicate {
                    Err(PreDigestError::MultiplePreDigests)
                } else {
                    self.deposit_vrf_output(&d.vrf_output);
                    Ok(d)
                }
            },
        }
    }
}

} // verus!
