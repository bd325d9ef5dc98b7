//! The retry loop's decisions: poll until one attempt succeeds.
//!
//! The loop itself runs in the caller, which makes an attempt, hands its outcome
//! to `RetryLoop::record` and does what the returned action says.

use crate::attempt::LookupConfig;
use crate::failure::{AttemptOutcome, OutcomeView};
use vstd::prelude::*;

verus! {

/// Where the loop stands.
#[derive(Clone, Copy, Debug, PartialEq, Eq, Structural)]
pub enum LoopState {
    /// No attempt has succeeded yet.
    Polling,
    /// One attempt has succeeded; the loop is over.
    Succeeded,
}

/// What the caller does after an attempt.
#[derive(Clone, Debug, PartialEq, Eq)]
pub enum Action {
    /// Stop: the daemon is ready.
    Finish,
    /// Emit `message`, pause for `delay_ms` milliseconds, and try again.
    Retry { message: String, delay_ms: u64 },
}

/// An `Action` with its message as a sequence of characters.
pub enum ActionView {
    Finish,
    Retry { message: Seq<char>, delay_ms: u64 },
}

impl View for Action {
    type V = ActionView;

    open spec fn view(&self) -> ActionView {
        match self {
            Action::Finish => ActionView::Finish,
            Action::Retry { message, delay_ms } => ActionView::Retry {
                message: message@,
                delay_ms: *delay_ms,
            },
        }
    }
}

/// The state after an attempt with the given outcome.
pub open spec fn next_state(state: LoopState, outcome: OutcomeView) -> LoopState {
    match (state, outcome) {
        (LoopState::Polling, OutcomeView::Failed(_)) => LoopState::Polling,
        _ => LoopState::Succeeded,
    }
}

/// The action after an attempt with the given outcome.
pub open spec fn next_action(state: LoopState, outcome: OutcomeView, delay_ms: u64) -> ActionView {
    match (state, outcome) {
        (LoopState::Polling, OutcomeView::Failed(failure)) => ActionView::Retry {
            message: failure.message(),
            delay_ms,
        },
        _ => ActionView::Finish,
    }
}

/// The state after a run of attempts with the given outcomes, in their order.
pub open spec fn state_after(state: LoopState, outcomes: Seq<OutcomeView>) -> LoopState
    decreases outcomes.len(),
{
    if outcomes.len() == 0 {
        state
    } else {
        next_state(state_after(state, outcomes.drop_last()), outcomes.last())
    }
}

/// The loop: its state, and the pause between two attempts.
#[derive(Clone, Copy, Debug, PartialEq, Eq, Structural)]
pub struct RetryLoop {
    pub state: LoopState,
    pub delay_ms: u64,
}

impl RetryLoop {
    /// The loop before its first attempt.
    pub fn new(config: &LookupConfig) -> (retry: RetryLoop)
        ensures
            retry.state == LoopState::Polling,
            retry.delay_ms == config.delay_ms,
    {
        RetryLoop { state: LoopState::Polling, delay_ms: config.delay_ms }
    }

    /// Whether the loop is over.
    pub fn is_finished(&self) -> (finished: bool)
        ensures
            finished == (self.state == LoopState::Succeeded),
    {
        match self.state {
            LoopState::Polling => false,
            LoopState::Succeeded => true,
        }
    }

    /// Takes note of an attempt's outcome and says what to do next. A failure
    /// leaves the loop polling and is reported with its message, however many
    /// failures came before it; a success ends the loop.
    pub fn record(&mut self, outcome: &AttemptOutcome) -> (action: Action)
        ensures
            final(self).state == next_state(old(self).state, outcome@),
            final(self).delay_ms == old(self).delay_ms,
            action@ == next_action(old(self).state, outcome@, old(self).delay_ms),
    {
        match (self.state, outcome) {
            (LoopState::Polling, AttemptOutcome::Failed(failure)) => {
                Action::Retry { message: failure.message(), delay_ms: self.delay_ms }
            },
            _ => {
                self.state = LoopState::Succeeded;
                Action::Finish
            },
        }
    }
}

/// The loop stops exactly when it has succeeded: it asks for another attempt
/// as long as it polls after the last one.
pub proof fn lemma_retry_while_polling(state: LoopState, outcome: OutcomeView, delay_ms: u64)
    ensures
        next_action(state, outcome, delay_ms) is Finish <==> next_state(state, outcome)
            == LoopState::Succeeded,
        next_action(state, outcome, delay_ms) matches ActionView::Retry { delay_ms: pause, .. }
            ==> pause == delay_ms,
{
}

/// Once the loop has succeeded it stays so, whatever is recorded after that.
pub proof fn lemma_succeeded_is_final(outcomes: Seq<OutcomeView>)
    ensures
        state_after(LoopState::Succeeded, outcomes) == LoopState::Succeeded,
    decreases outcomes.len(),
{
    if outcomes.len() > 0 {
        lemma_succeeded_is_final(outcomes.drop_last());
    }
}

/// A polling loop has succeeded after a run of attempts exactly when one of
/// them succeeded. So no number of failures ends the loop, of whatever kind
/// they are.
pub proof fn lemma_polls_until_success(outcomes: Seq<OutcomeView>)
    ensures
        state_after(LoopState::Polling, outcomes) == LoopState::Succeeded <==> exists|i: int|
            0 <= i < outcomes.len() && outcomes[i] is Success,
    decreases outcomes.len(),
{
    if outcomes.len() > 0 {
        let earlier = outcomes.drop_last();
        lemma_polls_until_success(earlier);
        if state_after(LoopState::Polling, outcomes) == LoopState::Succeeded {
            if outcomes.last() is Success {
                assert(outcomes[outcomes.len() - 1] is Success);
            } else {
                let i = choose|i: int| 0 <= i < earlier.len() && earlier[i] is Success;
                assert(outcomes[i] is Success);
            }
        } else {
            assert forall|i: int| 0 <= i < outcomes.len() implies !(outcomes[i] is Success) by {
                if i < earlier.len() {
                    assert(earlier[i] == outcomes[i]);
                }
            }
        }
    }
}

} // verus!
