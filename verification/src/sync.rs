//! Joining a room on invitation, with retries under exponential backoff.
//!
//! The decisions are a state machine. Its driver performs each action, waits
//! where the action says so, and hands back what happened as the next event.

use vstd::arithmetic::power2::{lemma2_to64, pow2};
use vstd::prelude::*;

verus! {

/// The delay before the first retry, in seconds.
pub const INITIAL_DELAY: u64 = 2;

/// The delay beyond which retrying is abandoned, in seconds.
pub const DELAY_CEILING: u64 = 3600;

/// The backoff of one sequence of join attempts.
#[derive(Debug, Clone, Copy, PartialEq, Eq, Structural)]
pub struct BackoffState {
    /// How long to wait after the next failed attempt.
    pub current_delay: u64,
    /// The delay beyond which retrying is abandoned.
    pub ceiling: u64,
}

/// Where the handling of one invitation stands.
#[derive(Debug, Clone, Copy, PartialEq, Eq, Structural)]
pub enum JoinState {
    /// No invitation for this bot was seen yet.
    Idle,
    /// A join attempt is under way.
    Attempting(BackoffState),
    /// The room was joined.
    Joined,
    /// Joining was abandoned.
    GivingUp,
}

/// What the driver reports to the state machine.
#[derive(Debug, Clone, Copy, PartialEq, Eq, Structural)]
pub enum JoinEvent {
    /// An invitation arrived; `for_us` tells whether it names this bot.
    Invitation { for_us: bool },
    /// The last join attempt succeeded.
    Succeeded,
    /// The last join attempt failed.
    Failed,
}

/// What the state machine asks of the driver.
#[derive(Debug, Clone, Copy, PartialEq, Eq, Structural)]
pub enum JoinAction {
    /// Do nothing.
    Ignore,
    /// Attempt to join now.
    Attempt,
    /// Wait for `wait` seconds, then attempt to join again.
    Retry { wait: u64 },
    /// Wait for `wait` seconds, then report the failure and stop.
    GiveUp { wait: u64 },
    /// Report the success and stop.
    Finish,
}

impl BackoffState {
    /// The backoff at the start of a sequence of attempts.
    pub open spec fn initial() -> BackoffState {
        BackoffState { current_delay: INITIAL_DELAY, ceiling: DELAY_CEILING }
    }

    /// Whether doubling the delay takes it beyond the ceiling.
    pub open spec fn exhausted(&self) -> bool {
        2 * self.current_delay > self.ceiling
    }

    /// The backoff at the start of a sequence of attempts: a delay of two
    /// seconds under a ceiling of an hour.
    pub fn new() -> (backoff: BackoffState)
        ensures
            backoff == BackoffState::initial(),
    {
        BackoffState { current_delay: INITIAL_DELAY, ceiling: DELAY_CEILING }
    }

    /// The backoff after one more failed attempt: the delay doubled, or
    /// nothing if that takes the delay beyond the ceiling.
    pub fn doubled(&self) -> (next: Option<BackoffState>)
        ensures
            match next {
                Some(next) => {
                    &&& !self.exhausted()
                    &&& next.current_delay == 2 * self.current_delay
                    &&& next.ceiling == self.ceiling
                },
                None => self.exhausted(),
            },
    {
        match self.current_delay.checked_mul(2) {
            Some(delay) => {
                if delay > self.ceiling {
                    None
                } else {
                    Some(BackoffState { current_delay: delay, ceiling: self.ceiling })
                }
            },
            None => None,
        }
    }
}

/// The state that follows `state` on `event`, and what the driver is to do.
///
/// An invitation for this bot starts the attempts. A success ends them. A
/// failure is followed by a wait of the current delay; the delay is then
/// doubled, and if it exceeds the ceiling the attempts end, otherwise the
/// next one begins. Every other event is ignored.
pub open spec fn transition(state: JoinState, event: JoinEvent) -> (JoinState, JoinAction) {
    match (state, event) {
        (JoinState::Idle, JoinEvent::Invitation { for_us: true }) => (
            JoinState::Attempting(BackoffState::initial()),
            JoinAction::Attempt,
        ),
        (JoinState::Attempting(_), JoinEvent::Succeeded) => (JoinState::Joined, JoinAction::Finish),
        (JoinState::Attempting(backoff), JoinEvent::Failed) => {
            if backoff.exhausted() {
                (JoinState::GivingUp, JoinAction::GiveUp { wait: backoff.current_delay })
            } else {
                (
                    JoinState::Attempting(
                        BackoffState {
                            current_delay: (2 * backoff.current_delay) as u64,
                            ceiling: backoff.ceiling,
                        },
                    ),
                    JoinAction::Retry { wait: backoff.current_delay },
                )
            }
        },
        _ => (state, JoinAction::Ignore),
    }
}

/// Advances the state machine by one event.
pub fn step(state: JoinState, event: JoinEvent) -> (next: (JoinState, JoinAction))
    ensures
        next == transition(state, event),
{
    match state {
        JoinState::Idle => match event {
            JoinEvent::Invitation { for_us } => {
                if for_us {
                    (JoinState::Attempting(BackoffState::new()), JoinAction::Attempt)
                } else {
                    (state, JoinAction::Ignore)
                }
            },
            _ => (state, JoinAction::Ignore),
        },
        JoinState::Attempting(backoff) => match event {
            JoinEvent::Succeeded => (JoinState::Joined, JoinAction::Finish),
            JoinEvent::Failed => match backoff.doubled() {
                Some(next) => (
                    JoinState::Attempting(next),
                    JoinAction::Retry { wait: backoff.current_delay },
                ),
                None => (JoinState::GivingUp, JoinAction::GiveUp { wait: backoff.current_delay }),
            },
            _ => (state, JoinAction::Ignore),
        },
        _ => (state, JoinAction::Ignore),
    }
}

/// The state after `n` failed attempts in a row, starting from `state`.
pub open spec fn after_failures(state: JoinState, n: nat) -> JoinState
    decreases n,
{
    if n == 0 {
        state
    } else {
        transition(after_failures(state, (n - 1) as nat), JoinEvent::Failed).0
    }
}

/// The state in which the first attempt of a sequence is under way.
pub open spec fn first_attempt() -> JoinState {
    JoinState::Attempting(BackoffState::initial())
}

/// The delays double from two seconds on: after `n` failed attempts in a row,
/// with `n` at most ten, the next attempt is under way and a failure of it
/// would be followed by a wait of two to the power of `n + 1` seconds.
pub proof fn lemma_delay_doubles(n: nat)
    requires
        n <= 10,
    ensures
        after_failures(first_attempt(), n) == JoinState::Attempting(
            BackoffState { current_delay: pow2(n + 1) as u64, ceiling: DELAY_CEILING },
        ),
        pow2(n + 1) <= 2048,
    decreases n,
{
    lemma2_to64();
    if n > 0 {
        lemma_delay_doubles((n - 1) as nat);
        vstd::arithmetic::power2::lemma_pow2_unfold(n + 1);
    }
}

/// The eleventh failed attempt in a row ends the sequence: the delay of
/// 2048 seconds is waited for once more, its double of 4096 seconds exceeds
/// the ceiling, and the state machine gives up. No earlier failure does so.
pub proof fn lemma_gives_up_after_eleven_failures()
    ensures
        after_failures(first_attempt(), 11) == JoinState::GivingUp,
        transition(after_failures(first_attempt(), 10), JoinEvent::Failed).1 == (
            JoinAction::GiveUp { wait: 2048 }
        ),
        forall|n: nat| n <= 10 ==> #[trigger] after_failures(first_attempt(), n) is Attempting,
{
    lemma2_to64();
    lemma_delay_doubles(10);
    assert forall|n: nat| n <= 10 implies #[trigger] after_failures(
        first_attempt(),
        n,
    ) is Attempting by {
        lemma_delay_doubles(n);
    }
}

/// After `n` failed attempts in a row the state machine has given up, or the
/// next attempt is under way with the first delay doubled `n` times.
proof fn lemma_delay_after_failures(backoff: BackoffState, n: nat)
    ensures
        after_failures(JoinState::Attempting(backoff), n) == JoinState::GivingUp || (
        after_failures(JoinState::Attempting(backoff), n) matches JoinState::Attempting(now)
            && now.current_delay == backoff.current_delay * pow2(n)),
    decreases n,
{
    lemma2_to64();
    if n > 0 {
        lemma_delay_after_failures(backoff, (n - 1) as nat);
        vstd::arithmetic::power2::lemma_pow2_unfold(n);
        let before = after_failures(JoinState::Attempting(backoff), (n - 1) as nat);
        if before is Attempting {
            assert(backoff.current_delay * (2 * pow2((n - 1) as nat)) == 2 * (backoff.current_delay
                * pow2((n - 1) as nat))) by (nonlinear_arith);
        }
    }
}

/// However the backoff is set, a positive delay cannot be doubled for ever:
/// sixty-four failed attempts in a row end every sequence.
pub proof fn lemma_gives_up_eventually(backoff: BackoffState)
    requires
        backoff.current_delay >= 1,
    ensures
        after_failures(JoinState::Attempting(backoff), 64) == JoinState::GivingUp,
{
    lemma2_to64();
    vstd::arithmetic::power2::lemma2_to64_rest();
    lemma_delay_after_failures(backoff, 64);
    if after_failures(JoinState::Attempting(backoff), 64) is Attempting {
        assert(backoff.current_delay * pow2(64) >= pow2(64)) by (nonlinear_arith)
            requires
                backoff.current_delay >= 1,
        ;
    }
}

/// A success halts the retries at once, whatever the backoff has come to,
/// and nothing that is reported afterwards starts them again.
pub proof fn lemma_success_halts(backoff: BackoffState, later: JoinEvent)
    ensures
        transition(JoinState::Attempting(backoff), JoinEvent::Succeeded) == (
            JoinState::Joined,
            JoinAction::Finish,
        ),
        transition(JoinState::Joined, later) == (JoinState::Joined, JoinAction::Ignore),
{
}

/// Once the state machine has given up it stays so and asks for nothing.
pub proof fn lemma_giving_up_is_final(later: JoinEvent)
    ensures
        transition(JoinState::GivingUp, later) == (JoinState::GivingUp, JoinAction::Ignore),
{
}

} // verus!
