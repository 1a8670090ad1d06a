//! The authority-set change scheduler.
//!
//! The scheduler owns the active authority set and keeps at most one pending
//! change at a time. A change is scheduled at some block `C` with a `delay`
//! and takes effect at block `C + delay`; a forced change additionally arms a
//! cooldown, so the next forced change cannot even be scheduled before block
//! `C + 2 * delay`. Session rotation may replace the authority set instantly,
//! without touching the pending change or the cooldown.

use vstd::prelude::*;
use crate::bytes::{bytes_equal, copy_range};

verus! {

/// One member of an authority set: a public-key identity and its voting
/// weight.
#[derive(Clone, Debug, PartialEq, Eq)]
pub struct Authority {
    /// The raw public key bytes of the identity.
    pub id: Vec<u8>,
    /// The voting weight; immutable once part of a set.
    pub weight: u64,
}

/// The mathematical content of an authority.
#[verifier::ext_equal]
pub ghost struct AuthorityView {
    pub id: Seq<u8>,
    pub weight: u64,
}

impl View for Authority {
    type V = AuthorityView;

    open spec fn view(&self) -> AuthorityView {
        AuthorityView { id: self.id@, weight: self.weight }
    }
}

/// The mathematical content of an authority list.
pub open spec fn authority_views(s: Seq<Authority>) -> Seq<AuthorityView> {
    s.map_values(|a: Authority| a@)
}

/// A scheduled but not yet effective authority-set change.
#[derive(Clone, Debug, PartialEq, Eq)]
pub struct StoredPendingChange {
    /// The block at which the change was scheduled.
    pub scheduled_at: u64,
    /// How many blocks after `scheduled_at` the change takes effect.
    pub delay: u64,
    /// The authority set that will replace the current one.
    pub next_authorities: Vec<Authority>,
    /// For a forced change, the block height justifying the forcing;
    /// `None` for a normal change.
    pub forced: Option<u64>,
}

/// The mathematical content of a pending change.
#[verifier::ext_equal]
pub ghost struct PendingChangeView {
    pub scheduled_at: u64,
    pub delay: u64,
    pub next_authorities: Seq<AuthorityView>,
    pub forced: Option<u64>,
}

impl View for StoredPendingChange {
    type V = PendingChangeView;

    open spec fn view(&self) -> PendingChangeView {
        PendingChangeView {
            scheduled_at: self.scheduled_at,
            delay: self.delay,
            next_authorities: authority_views(self.next_authorities@),
            forced: self.forced,
        }
    }
}

impl PendingChangeView {
    /// The block at which the change takes effect.
    pub open spec fn effective_at(self) -> int {
        self.scheduled_at + self.delay
    }
}

/// Why a schedule request was rejected.
#[derive(Clone, Copy, Debug, PartialEq, Eq)]
pub enum SchedulerError {
    /// A change is already in flight; only one may be pending.
    ChangeAlreadyPending,
    /// The forced-change cooldown has not elapsed yet.
    TooSoon,
}

/// The change scheduler's persisted state.
#[derive(Clone, Debug, PartialEq, Eq)]
pub struct ChangeScheduler {
    /// The active authority set.
    pub authorities: Vec<Authority>,
    /// The at most one change in flight.
    pub pending_change: Option<StoredPendingChange>,
    /// The earliest block at which a new forced change may be scheduled.
    pub next_forced: Option<u64>,
}

/// The mathematical content of the scheduler state.
#[verifier::ext_equal]
pub ghost struct SchedulerView {
    pub authorities: Seq<AuthorityView>,
    pub pending_change: Option<PendingChangeView>,
    pub next_forced: Option<u64>,
}

impl View for ChangeScheduler {
    type V = SchedulerView;

    open spec fn view(&self) -> SchedulerView {
        SchedulerView {
            authorities: authority_views(self.authorities@),
            pending_change: match self.pending_change {
                Some(pc) => Some(pc@),
                None => None,
            },
            next_forced: self.next_forced,
        }
    }
}

impl SchedulerView {
    /// The effective block of a pending change fits the block-number type.
    pub open spec fn wf(self) -> bool {
        match self.pending_change {
            Some(pc) => pc.scheduled_at + pc.delay <= u64::MAX,
            None => true,
        }
    }
}

/// The verdict of a schedule request against a given state: a pending change
/// blocks every request, and the cooldown blocks forced requests scheduled
/// before `next_forced`.
pub open spec fn schedule_change_result(
    s: SchedulerView,
    current_block: u64,
    forced: Option<u64>,
) -> Result<(), SchedulerError> {
    if s.pending_change is Some {
        Err(SchedulerError::ChangeAlreadyPending)
    } else if forced is Some && s.next_forced is Some && current_block < s.next_forced->0 {
        Err(SchedulerError::TooSoon)
    } else {
        Ok(())
    }
}

/// The state after a schedule request: on success the change is recorded as
/// pending and, if forced, the cooldown is re-armed to `effective_at + delay`;
/// on failure the state is untouched.
pub open spec fn schedule_change_state(
    s: SchedulerView,
    current_block: u64,
    next: Seq<AuthorityView>,
    delay: u64,
    forced: Option<u64>,
) -> SchedulerView {
    if schedule_change_result(s, current_block, forced) is Ok {
        SchedulerView {
            authorities: s.authorities,
            pending_change: Some(
                PendingChangeView { scheduled_at: current_block, delay, next_authorities: next, forced },
            ),
            next_forced: if forced is Some {
                Some((current_block + delay + delay) as u64)
            } else {
                s.next_forced
            },
        }
    } else {
        s
    }
}

/// Whether finalizing block `b` announces the pending change in the header.
pub open spec fn finalize_emits_signal(s: SchedulerView, b: u64) -> bool {
    match s.pending_change {
        Some(pc) => pc.scheduled_at == b,
        None => false,
    }
}

/// Whether finalizing block `b` applies the pending change.
pub open spec fn finalize_applies(s: SchedulerView, b: u64) -> bool {
    match s.pending_change {
        Some(pc) => pc.effective_at() == b,
        None => false,
    }
}

/// The state after finalizing block `b`: at the effective block the authority
/// set is replaced and the pending change cleared; at any other block the
/// state is untouched.
pub open spec fn finalize_state(s: SchedulerView, b: u64) -> SchedulerView {
    if finalize_applies(s, b) {
        SchedulerView {
            authorities: s.pending_change->0.next_authorities,
            pending_change: None,
            next_forced: s.next_forced,
        }
    } else {
        s
    }
}

/// Whether a session rotation replaces the authority set: only when the
/// session changed and the incoming list differs from the active one as a
/// set of weighted identities — the order of an authority list matters for
/// author-index lookups, not for this comparison.
pub open spec fn session_rotation_changes(s: SchedulerView, changed: bool, new: Seq<AuthorityView>) -> bool {
    changed && new.to_multiset() != s.authorities.to_multiset()
}

/// The header announcement of a scheduled change: its delay and the incoming
/// authority set.
#[derive(Clone, Debug, PartialEq, Eq)]
pub struct ScheduledChangeSignal {
    /// How many blocks after the announcing block the change takes effect.
    pub delay: u64,
    /// The authority set that will replace the current one.
    pub next_authorities: Vec<Authority>,
}

/// What finalizing one block emitted.
#[derive(Clone, Debug, PartialEq, Eq)]
pub struct FinalizeOutcome {
    /// The header announcement, present exactly at the scheduling block.
    pub signal: Option<ScheduledChangeSignal>,
    /// The newly effective authority set, present exactly at the effective
    /// block; doubles as the `NewAuthorities` notification event.
    pub new_authorities: Option<Vec<Authority>>,
}

/// Compares two authorities by content.
pub fn authority_eq(a: &Authority, b: &Authority) -> (r: bool)
    ensures
        r == (a@ == b@),
{
    if bytes_equal(&a.id, &b.id) && a.weight == b.weight {
        assert(a@ =~= b@);
        true
    } else {
        false
    }
}

/// How often an authority occurs in a list.
pub fn count_authority(v: &Vec<Authority>, x: &Authority) -> (n: usize)
    ensures
        n == authority_views(v@).to_multiset().count(x@),
{
    proof {
        broadcast use vstd::seq_lib::group_to_multiset_ensures;

    }
    let mut n: usize = 0;
    let mut i: usize = 0;
    while i < v.len()
        invariant
            i <= v@.len(),
            n <= i,
            n == authority_views(v@.subrange(0, i as int)).to_multiset().count(x@),
        decreases v@.len() - i,
    {
        proof {
            broadcast use vstd::seq_lib::group_to_multiset_ensures;

            assert(authority_views(v@.subrange(0, i as int + 1)) =~= authority_views(
                v@.subrange(0, i as int),
            ).push(v@[i as int]@));
        }
        if authority_eq(&v[i], x) {
            n = n + 1;
        }
        i = i + 1;
    }
    proof {
        assert(v@.subrange(0, v@.len() as int) =~= v@);
    }
    n
}

/// Compares two authority lists as sets of weighted identities, regardless
/// of order.
pub fn authority_sets_equal(a: &Vec<Authority>, b: &Vec<Authority>) -> (r: bool)
    ensures
        r == (authority_views(a@).to_multiset() == authority_views(b@).to_multiset()),
{
    let mut i: usize = 0;
    while i < a.len()
        invariant
            i <= a@.len(),
            forall|j: int|
                0 <= j < i ==> authority_views(a@).to_multiset().count(#[trigger] a@[j]@)
                    == authority_views(b@).to_multiset().count(a@[j]@),
        decreases a@.len() - i,
    {
        if count_authority(a, &a[i]) != count_authority(b, &a[i]) {
            return false;
        }
        i = i + 1;
    }
    let mut k: usize = 0;
    while k < b.len()
        invariant
            k <= b@.len(),
            forall|j: int|
                0 <= j < a@.len() ==> authority_views(a@).to_multiset().count(#[trigger] a@[j]@)
                    == authority_views(b@).to_multiset().count(a@[j]@),
            forall|j: int|
                0 <= j < k ==> authority_views(a@).to_multiset().count(#[trigger] b@[j]@)
                    == authority_views(b@).to_multiset().count(b@[j]@),
        decreases b@.len() - k,
    {
        if count_authority(a, &b[k]) != count_authority(b, &b[k]) {
            return false;
        }
        k = k + 1;
    }
    proof {
        broadcast use vstd::seq_lib::group_to_multiset_ensures;

        let ma = authority_views(a@).to_multiset();
        let mb = authority_views(b@).to_multiset();
        assert forall|x: AuthorityView| #[trigger] ma.count(x) == mb.count(x) by {
            if ma.count(x) > 0 {
                assert(authority_views(a@).contains(x));
                let j = choose|j: int|
                    0 <= j < authority_views(a@).len() && authority_views(a@)[j] == x;
                assert(a@[j]@ == x);
            } else if mb.count(x) > 0 {
                assert(authority_views(b@).contains(x));
                let j = choose|j: int|
                    0 <= j < authority_views(b@).len() && authority_views(b@)[j] == x;
                assert(b@[j]@ == x);
            }
        }
        assert(ma =~= mb);
    }
    true
}

/// Copies an authority by content.
pub fn duplicate_authority(a: &Authority) -> (r: Authority)
    ensures
        r@ == a@,
{
    let id = copy_range(&a.id, 0, a.id.len());
    assert(id@ =~= a.id@);
    Authority { id, weight: a.weight }
}

/// Copies an authority list by content.
pub fn duplicate_authorities(v: &Vec<Authority>) -> (r: Vec<Authority>)
    ensures
        authority_views(r@) == authority_views(v@),
{
    let mut r: Vec<Authority> = Vec::new();
    let mut i: usize = 0;
    while i < v.len()
        invariant
            i <= v@.len(),
            r@.len() == i,
            forall|j: int| 0 <= j < i ==> r@[j]@ == v@[j]@,
        decreases v@.len() - i,
    {
        r.push(duplicate_authority(&v[i]));
        i = i + 1;
    }
    assert forall|j: int| 0 <= j < v@.len() implies authority_views(r@)[j] == authority_views(v@)[j] by {
        assert(r@[j]@ == v@[j]@);
    }
    assert(authority_views(r@) =~= authority_views(v@));
    r
}

impl ChangeScheduler {
    /// A scheduler over the given genesis authority set, with no change
    /// pending and no cooldown armed.
    pub fn new(initial_authorities: Vec<Authority>) -> (r: ChangeScheduler)
        ensures
            r@.authorities == authority_views(initial_authorities@),
            r@.pending_change is None,
            r@.next_forced is None,
            r@.wf(),
    {
        ChangeScheduler { authorities: initial_authorities, pending_change: None, next_forced: None }
    }

    /// The active authority set.
    pub fn grandpa_authorities(&self) -> (r: &Vec<Authority>)
        ensures
            authority_views(r@) == self@.authorities,
    {
        &self.authorities
    }

    /// The change currently in flight, if any.
    pub fn pending_change(&self) -> (r: &Option<StoredPendingChange>)
        ensures
            match r {
                Some(pc) => self@.pending_change == Some(pc@),
                None => self@.pending_change is None,
            },
    {
        &self.pending_change
    }

    /// The earliest block at which a new forced change may be scheduled.
    pub fn next_forced(&self) -> (r: Option<u64>)
        ensures
            r == self@.next_forced,
    {
        self.next_forced
    }

    /// Schedules an authority-set change at the current block.
    ///
    /// Fails with `ChangeAlreadyPending` while a change is in flight, and a
    /// forced request fails with `TooSoon` before the cooldown block. On
    /// success the change becomes pending, effective at
    /// `current_block + delay`, and a forced request re-arms the cooldown to
    /// `current_block + 2 * delay`. On failure the state is untouched.
    pub fn schedule_change(
        &mut self,
        current_block: u64,
        next_authorities: Vec<Authority>,
        delay: u64,
        forced: Option<u64>,
    ) -> (r: Result<(), SchedulerError>)
        requires
            current_block + delay <= u64::MAX,
            forced is Some ==> current_block + delay + delay <= u64::MAX,
        ensures
            r == schedule_change_result(old(self)@, current_block, forced),
            final(self)@ == schedule_change_state(
                old(self)@,
                current_block,
                authority_views(next_authorities@),
                delay,
                forced,
            ),
            old(self)@.wf() ==> final(self)@.wf(),
    {
        if self.pending_change.is_some() {
            return Err(SchedulerError::ChangeAlreadyPending);
        }
        if forced.is_some() {
            match self.next_forced {
                Some(n) => {
                    if current_block < n {
                        return Err(SchedulerError::TooSoon);
                    }
                },
                None => {},
            }
            self.next_forced = Some(current_block + delay + delay);
        }
        self.pending_change = Some(
            StoredPendingChange { scheduled_at: current_block, delay, next_authorities, forced },
        );
        assert(self@ =~= schedule_change_state(
            old(self)@,
            current_block,
            authority_views(next_authorities@),
            delay,
            forced,
        ));
        Ok(())
    }

    /// Finalizes a block: announces the pending change in the header at its
    /// scheduling block, and applies it — replacing the authority set and
    /// clearing the pending change — exactly at its effective block.
    pub fn on_finalize(&mut self, block_number: u64) -> (r: FinalizeOutcome)
        requires
            old(self)@.wf(),
        ensures
            final(self)@ == finalize_state(old(self)@, block_number),
            final(self)@.wf(),
            match r.signal {
                Some(sig) => finalize_emits_signal(old(self)@, block_number)
                    && sig.delay == old(self)@.pending_change->0.delay
                    && authority_views(sig.next_authorities@)
                        == old(self)@.pending_change->0.next_authorities,
                None => !finalize_emits_signal(old(self)@, block_number),
            },
            match r.new_authorities {
                Some(a) => finalize_applies(old(self)@, block_number)
                    && authority_views(a@) == old(self)@.pending_change->0.next_authorities,
                None => !finalize_applies(old(self)@, block_number),
            },
    {
        let mut signal: Option<ScheduledChangeSignal> = None;
        let mut apply: bool = false;
        match &self.pending_change {
            Some(pc) => {
                if pc.scheduled_at == block_number {
                    signal = Some(
                        ScheduledChangeSignal {
                            delay: pc.delay,
                            next_authorities: duplicate_authorities(&pc.next_authorities),
                        },
                    );
                }
                if pc.scheduled_at + pc.delay == block_number {
                    apply = true;
                }
            },
            None => {},
        }
        let mut new_authorities: Option<Vec<Authority>> = None;
        if apply {
            let taken = self.pending_change.take();
            match taken {
                Some(pc) => {
                    new_authorities = Some(duplicate_authorities(&pc.next_authorities));
                    self.authorities = pc.next_authorities;
                },
                None => {},
            }
            assert(self@ =~= finalize_state(old(self)@, block_number));
        }
        FinalizeOutcome { signal, new_authorities }
    }

    /// Rotates the session: when the session changed and the incoming
    /// validator list differs from the active set, the set is replaced
    /// instantly and the new list returned as the notification event. The
    /// pending change and the cooldown are never touched.
    pub fn on_session_rotation(&mut self, changed: bool, new_validators: Vec<Authority>) -> (r: Option<
        Vec<Authority>,
    >)
        ensures
            final(self)@.authorities == if session_rotation_changes(
                old(self)@,
                changed,
                authority_views(new_validators@),
            ) {
                authority_views(new_validators@)
            } else {
                old(self)@.authorities
            },
            final(self)@.pending_change == old(self)@.pending_change,
            final(self)@.next_forced == old(self)@.next_forced,
            match r {
                Some(a) => session_rotation_changes(old(self)@, changed, authority_views(new_validators@))
                    && authority_views(a@) == authority_views(new_validators@),
                None => !session_rotation_changes(old(self)@, changed, authority_views(new_validators@)),
            },
            old(self)@.wf() ==> final(self)@.wf(),
    {
        if changed && !authority_sets_equal(&new_validators, &self.authorities) {
            let out = duplicate_authorities(&new_validators);
            self.authorities = new_validators;
            Some(out)
        } else {
            None
        }
    }
}

/// While a change is pending, every further schedule request — forced or
/// normal — fails with `ChangeAlreadyPending` and leaves the state unchanged;
/// since the state holds at most one pending change by construction, at most
/// one change is ever in flight after any sequence of schedule requests.
pub proof fn lemma_single_pending_change(
    s: SchedulerView,
    current_block: u64,
    next: Seq<AuthorityView>,
    delay: u64,
    forced: Option<u64>,
)
    requires
        s.pending_change is Some,
    ensures
        schedule_change_result(s, current_block, forced) == Err::<(), SchedulerError>(
            SchedulerError::ChangeAlreadyPending,
        ),
        schedule_change_state(s, current_block, next, delay, forced) == s,
{
}

/// A successful forced schedule at block `C` with delay `D` arms the cooldown
/// at `C + 2 * D`, one full delay window past the change's effective block.
pub proof fn lemma_forced_schedule_sets_cooldown(
    s: SchedulerView,
    current_block: u64,
    next: Seq<AuthorityView>,
    delay: u64,
    forcing: u64,
)
    requires
        current_block + delay + delay <= u64::MAX,
        schedule_change_result(s, current_block, Some(forcing)) is Ok,
    ensures
        schedule_change_state(s, current_block, next, delay, Some(forcing)).next_forced == Some(
            (current_block + 2 * delay) as u64,
        ),
{
}

/// While the cooldown is armed at block `n` and no change is pending, a
/// forced schedule request fails with `TooSoon` exactly at the blocks before
/// `n`, and succeeds from `n` on.
pub proof fn lemma_cooldown_gates_forced(s: SchedulerView, b: u64, forcing: u64, n: u64)
    requires
        s.pending_change is None,
        s.next_forced == Some(n),
    ensures
        b < n ==> schedule_change_result(s, b, Some(forcing)) == Err::<(), SchedulerError>(
            SchedulerError::TooSoon,
        ),
        b >= n ==> schedule_change_result(s, b, Some(forcing)) is Ok,
{
}

/// A pending change scheduled at `C` with delay `D` is applied exactly at
/// block `C + D`: finalizing any other block leaves the state unchanged, and
/// once applied the pending change is cleared, so no later finalization can
/// apply it again.
pub proof fn lemma_application_timing(s: SchedulerView, pc: PendingChangeView, b: u64)
    requires
        s.wf(),
        s.pending_change == Some(pc),
    ensures
        b == pc.effective_at() ==> finalize_state(s, b).authorities == pc.next_authorities
            && finalize_state(s, b).pending_change is None,
        b != pc.effective_at() ==> finalize_state(s, b) == s,
        forall|b2: u64|
            #[trigger] finalize_state(finalize_state(s, (pc.scheduled_at + pc.delay) as u64), b2)
                == finalize_state(s, (pc.scheduled_at + pc.delay) as u64),
{
}

} // verus!
