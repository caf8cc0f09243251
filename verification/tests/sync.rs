use mrsbfh::sync::{
    step, BackoffState, JoinAction, JoinEvent, JoinState, DELAY_CEILING, INITIAL_DELAY,
};

fn attempting(delay: u64) -> JoinState {
    JoinState::Attempting(BackoffState {
        current_delay: delay,
        ceiling: 3600,
    })
}

#[test]
fn backoff_starts_at_two_seconds_under_an_hour() {
    assert_eq!(INITIAL_DELAY, 2);
    assert_eq!(DELAY_CEILING, 3600);
    assert_eq!(
        BackoffState::new(),
        BackoffState {
            current_delay: 2,
            ceiling: 3600
        }
    );
}

#[test]
fn backoff_doubles_until_the_ceiling() {
    let mut backoff = BackoffState::new();
    let mut delays = vec![backoff.current_delay];
    while let Some(next) = backoff.doubled() {
        assert_eq!(next.ceiling, 3600);
        delays.push(next.current_delay);
        backoff = next;
    }
    assert_eq!(delays, [2, 4, 8, 16, 32, 64, 128, 256, 512, 1024, 2048]);
}

#[test]
fn doubling_beyond_the_ceiling_yields_nothing() {
    let at = |current_delay, ceiling| BackoffState {
        current_delay,
        ceiling,
    };
    assert_eq!(at(1800, 3600).doubled(), Some(at(3600, 3600)));
    assert_eq!(at(1801, 3600).doubled(), None);
    assert_eq!(at(2048, 3600).doubled(), None);
    assert_eq!(at(u64::MAX, u64::MAX).doubled(), None);
    assert_eq!(at(u64::MAX / 2 + 1, u64::MAX).doubled(), None);
    assert_eq!(at(0, 0).doubled(), Some(at(0, 0)));
}

#[test]
fn invitation_for_us_starts_the_attempts() {
    assert_eq!(
        step(JoinState::Idle, JoinEvent::Invitation { for_us: true }),
        (attempting(2), JoinAction::Attempt)
    );
}

#[test]
fn invitation_for_someone_else_is_ignored() {
    assert_eq!(
        step(JoinState::Idle, JoinEvent::Invitation { for_us: false }),
        (JoinState::Idle, JoinAction::Ignore)
    );
}

#[test]
fn success_halts_the_retries() {
    for delay in [2, 4, 64, 2048] {
        assert_eq!(
            step(attempting(delay), JoinEvent::Succeeded),
            (JoinState::Joined, JoinAction::Finish)
        );
    }
}

#[test]
fn eleven_failures_in_a_row_give_up() {
    let (mut state, action) = step(JoinState::Idle, JoinEvent::Invitation { for_us: true });
    assert_eq!(action, JoinAction::Attempt);
    let mut waits = Vec::new();
    let mut failures = 0;
    loop {
        let (next, action) = step(state, JoinEvent::Failed);
        failures += 1;
        state = next;
        match action {
            JoinAction::Retry { wait } => waits.push(wait),
            JoinAction::GiveUp { wait } => {
                waits.push(wait);
                break;
            }
            other => panic!("unexpected action {:?}", other),
        }
    }
    assert_eq!(failures, 11);
    assert_eq!(state, JoinState::GivingUp);
    assert_eq!(
        waits,
        [2, 4, 8, 16, 32, 64, 128, 256, 512, 1024, 2048]
    );
}

#[test]
fn success_after_some_failures() {
    let mut state = attempting(2);
    for wait in [2, 4, 8] {
        let (next, action) = step(state, JoinEvent::Failed);
        assert_eq!(action, JoinAction::Retry { wait });
        state = next;
    }
    assert_eq!(state, attempting(16));
    assert_eq!(
        step(state, JoinEvent::Succeeded),
        (JoinState::Joined, JoinAction::Finish)
    );
}

#[test]
fn finished_sequences_ignore_every_event() {
    let events = [
        JoinEvent::Invitation { for_us: true },
        JoinEvent::Invitation { for_us: false },
        JoinEvent::Succeeded,
        JoinEvent::Failed,
    ];
    for event in events {
        assert_eq!(
            step(JoinState::Joined, event),
            (JoinState::Joined, JoinAction::Ignore)
        );
        assert_eq!(
            step(JoinState::GivingUp, event),
            (JoinState::GivingUp, JoinAction::Ignore)
        );
    }
}

#[test]
fn out_of_place_events_are_ignored() {
    assert_eq!(
        step(JoinState::Idle, JoinEvent::Succeeded),
        (JoinState::Idle, JoinAction::Ignore)
    );
    assert_eq!(
        step(JoinState::Idle, JoinEvent::Failed),
        (JoinState::Idle, JoinAction::Ignore)
    );
    assert_eq!(
        step(attempting(8), JoinEvent::Invitation { for_us: true }),
        (attempting(8), JoinAction::Ignore)
    );
}
