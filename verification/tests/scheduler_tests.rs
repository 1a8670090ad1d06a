use consensus_core::scheduler::{
    Authority, ChangeScheduler, FinalizeOutcome, ScheduledChangeSignal, SchedulerError,
};

fn to_authorities(v: Vec<(u64, u64)>) -> Vec<Authority> {
    v.into_iter()
        .map(|(id, weight)| Authority { id: id.to_le_bytes().to_vec(), weight })
        .collect()
}

#[test]
fn authorities_change_logged() {
    let mut grandpa = ChangeScheduler::new(to_authorities(vec![(1, 1), (2, 1), (3, 1)]));
    grandpa
        .schedule_change(1, to_authorities(vec![(4, 1), (5, 1), (6, 1)]), 0, None)
        .unwrap();

    let outcome = grandpa.on_finalize(1);

    assert_eq!(
        outcome.signal,
        Some(ScheduledChangeSignal {
            delay: 0,
            next_authorities: to_authorities(vec![(4, 1), (5, 1), (6, 1)]),
        })
    );
    assert_eq!(
        outcome.new_authorities,
        Some(to_authorities(vec![(4, 1), (5, 1), (6, 1)]))
    );
}

#[test]
fn authorities_change_logged_after_delay() {
    let mut grandpa = ChangeScheduler::new(to_authorities(vec![(1, 1), (2, 1), (3, 1)]));
    grandpa
        .schedule_change(1, to_authorities(vec![(4, 1), (5, 1), (6, 1)]), 1, None)
        .unwrap();
    let outcome = grandpa.on_finalize(1);
    assert_eq!(
        outcome.signal,
        Some(ScheduledChangeSignal {
            delay: 1,
            next_authorities: to_authorities(vec![(4, 1), (5, 1), (6, 1)]),
        })
    );

    // no change at this height.
    assert_eq!(outcome.new_authorities, None);

    let outcome = grandpa.on_finalize(2);
    assert_eq!(outcome.signal, None);
    assert_eq!(
        outcome.new_authorities,
        Some(to_authorities(vec![(4, 1), (5, 1), (6, 1)]))
    );
}

#[test]
fn cannot_schedule_change_when_one_pending() {
    let mut grandpa = ChangeScheduler::new(to_authorities(vec![(1, 1), (2, 1), (3, 1)]));
    grandpa
        .schedule_change(1, to_authorities(vec![(4, 1), (5, 1), (6, 1)]), 1, None)
        .unwrap();
    assert!(grandpa.pending_change().is_some());
    assert!(grandpa
        .schedule_change(1, to_authorities(vec![(5, 1)]), 1, None)
        .is_err());

    grandpa.on_finalize(1);

    assert!(grandpa.pending_change().is_some());
    assert!(grandpa
        .schedule_change(2, to_authorities(vec![(5, 1)]), 1, None)
        .is_err());

    grandpa.on_finalize(2);

    assert!(grandpa.pending_change().is_none());
    assert!(grandpa
        .schedule_change(3, to_authorities(vec![(5, 1)]), 1, None)
        .is_ok());

    grandpa.on_finalize(3);
}

#[test]
fn dispatch_forced_change() {
    let mut grandpa = ChangeScheduler::new(to_authorities(vec![(1, 1), (2, 1), (3, 1)]));
    grandpa
        .schedule_change(1, to_authorities(vec![(4, 1), (5, 1), (6, 1)]), 5, Some(0))
        .unwrap();

    assert!(grandpa.pending_change().is_some());
    assert!(grandpa
        .schedule_change(1, to_authorities(vec![(5, 1)]), 1, Some(0))
        .is_err());

    grandpa.on_finalize(1);

    for i in 2..7 {
        assert!(grandpa.pending_change().as_ref().unwrap().forced.is_some());
        assert_eq!(grandpa.next_forced(), Some(11));
        assert!(grandpa
            .schedule_change(i, to_authorities(vec![(5, 1)]), 1, None)
            .is_err());
        assert!(grandpa
            .schedule_change(i, to_authorities(vec![(5, 1)]), 1, Some(0))
            .is_err());

        grandpa.on_finalize(i);
    }

    // change has been applied at the end of block 6.
    // add a normal change.
    {
        assert!(grandpa.pending_change().is_none());
        assert_eq!(
            grandpa.grandpa_authorities(),
            &to_authorities(vec![(4, 1), (5, 1), (6, 1)])
        );
        assert!(grandpa
            .schedule_change(7, to_authorities(vec![(5, 1)]), 1, None)
            .is_ok());
        grandpa.on_finalize(7);
    }

    // run the normal change.
    {
        assert!(grandpa.pending_change().is_some());
        assert_eq!(
            grandpa.grandpa_authorities(),
            &to_authorities(vec![(4, 1), (5, 1), (6, 1)])
        );
        assert!(grandpa
            .schedule_change(8, to_authorities(vec![(5, 1)]), 1, None)
            .is_err());
        grandpa.on_finalize(8);
    }

    // normal change applied. but we can't apply a new forced change for some
    // time.
    for i in 9..11 {
        assert!(grandpa.pending_change().is_none());
        assert_eq!(grandpa.grandpa_authorities(), &to_authorities(vec![(5, 1)]));
        assert_eq!(grandpa.next_forced(), Some(11));
        assert_eq!(
            grandpa.schedule_change(i, to_authorities(vec![(5, 1), (6, 1)]), 5, Some(0)),
            Err(SchedulerError::TooSoon)
        );
        grandpa.on_finalize(i);
    }

    {
        assert!(grandpa.pending_change().is_none());
        assert!(grandpa
            .schedule_change(11, to_authorities(vec![(5, 1), (6, 1), (7, 1)]), 5, Some(0))
            .is_ok());
        assert_eq!(grandpa.next_forced(), Some(21));
        grandpa.on_finalize(11);
    }
}

#[test]
fn session_rotation_replaces_authorities_instantly() {
    let mut grandpa = ChangeScheduler::new(to_authorities(vec![(1, 1), (2, 1)]));
    grandpa
        .schedule_change(1, to_authorities(vec![(9, 1)]), 4, Some(0))
        .unwrap();
    let pending_before = grandpa.pending_change().clone();
    let next_forced_before = grandpa.next_forced();

    // an unchanged session never rotates.
    assert_eq!(
        grandpa.on_session_rotation(false, to_authorities(vec![(3, 1)])),
        None
    );
    assert_eq!(grandpa.grandpa_authorities(), &to_authorities(vec![(1, 1), (2, 1)]));

    // a changed session with the same validator list does not rotate either,
    // not even when the list arrives in another order.
    assert_eq!(
        grandpa.on_session_rotation(true, to_authorities(vec![(1, 1), (2, 1)])),
        None
    );
    assert_eq!(
        grandpa.on_session_rotation(true, to_authorities(vec![(2, 1), (1, 1)])),
        None
    );

    // a repeated identity is a different set, even over the same identities.
    assert_eq!(
        grandpa.on_session_rotation(true, to_authorities(vec![(1, 1), (2, 1), (2, 1)])),
        Some(to_authorities(vec![(1, 1), (2, 1), (2, 1)]))
    );

    // a changed session with a new list rotates instantly and leaves the
    // pending change and the cooldown untouched.
    assert_eq!(
        grandpa.on_session_rotation(true, to_authorities(vec![(3, 1), (4, 2)])),
        Some(to_authorities(vec![(3, 1), (4, 2)]))
    );
    assert_eq!(grandpa.grandpa_authorities(), &to_authorities(vec![(3, 1), (4, 2)]));
    assert_eq!(grandpa.pending_change(), &pending_before);
    assert_eq!(grandpa.next_forced(), next_forced_before);
}

#[test]
fn failed_schedule_leaves_state_unchanged() {
    let mut grandpa = ChangeScheduler::new(to_authorities(vec![(1, 1)]));
    assert_eq!(
        grandpa.schedule_change(2, to_authorities(vec![(2, 1)]), 3, None),
        Ok(())
    );
    let snapshot = grandpa.clone();

    assert_eq!(
        grandpa.schedule_change(2, to_authorities(vec![(3, 1)]), 1, None),
        Err(SchedulerError::ChangeAlreadyPending)
    );
    assert_eq!(grandpa, snapshot);

    // finalizing any block other than the effective one is a no-op.
    let outcome = grandpa.on_finalize(4);
    assert_eq!(
        outcome,
        FinalizeOutcome { signal: None, new_authorities: None }
    );
    assert_eq!(grandpa, snapshot);

    // applied exactly at scheduled_at + delay.
    let outcome = grandpa.on_finalize(5);
    assert_eq!(outcome.new_authorities, Some(to_authorities(vec![(2, 1)])));
    assert!(grandpa.pending_change().is_none());
    assert_eq!(grandpa.grandpa_authorities(), &to_authorities(vec![(2, 1)]));
}
