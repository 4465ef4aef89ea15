//! The background delivery task: outcome classification and lifecycle.
//!
//! The task issues a single POST and terminates after exactly one attempt —
//! no retry, no backoff, no re-queue. Its outcome is classified from the
//! status code the host's HTTP client hands back (or from its absence, when
//! transport failed), and is only ever logged, never propagated.

use vstd::prelude::*;

verus! {

/// How the single delivery attempt ended.
#[derive(Debug, Clone, Copy, PartialEq, Eq, Structural)]
pub enum DeliveryOutcome {
    /// The webhook answered with a success status.
    Succeeded(u16),
    /// The webhook answered, but with a non-success status.
    RefusedStatus(u16),
    /// No response arrived: DNS, connect, timeout or TLS failure.
    TransportFailed,
}

/// A status code that counts as HTTP success.
pub open spec fn is_success_status(code: u16) -> bool {
    200 <= code < 300
}

/// The outcome a response status (or its absence) classifies to.
pub open spec fn classify_spec(status: Option<u16>) -> DeliveryOutcome {
    match status {
        Option::Some(code) => if is_success_status(code) {
            DeliveryOutcome::Succeeded(code)
        } else {
            DeliveryOutcome::RefusedStatus(code)
        },
        Option::None => DeliveryOutcome::TransportFailed,
    }
}

/// Classify the result of the one POST attempt: the status the webhook
/// answered with, or no status when transport failed.
pub fn classify_response(status: Option<u16>) -> (o: DeliveryOutcome)
    ensures
        o == classify_spec(status),
        o is Succeeded <==> (status matches Some(code) && is_success_status(code)),
{
    match status {
        Some(code) => {
            if 200 <= code && code < 300 {
                DeliveryOutcome::Succeeded(code)
            } else {
                DeliveryOutcome::RefusedStatus(code)
            }
        },
        None => DeliveryOutcome::TransportFailed,
    }
}

/// Whether the delivery attempt is recorded as a success.
pub fn outcome_is_success(o: &DeliveryOutcome) -> (r: bool)
    ensures
        r == (*o is Succeeded),
{
    match o {
        DeliveryOutcome::Succeeded(_) => true,
        DeliveryOutcome::RefusedStatus(_) => false,
        DeliveryOutcome::TransportFailed => false,
    }
}

/// Where the background task stands.
#[derive(Debug, Clone, Copy, PartialEq, Eq, Structural)]
pub enum TaskState {
    /// Dispatch accepted, not yet running.
    Scheduled,
    /// The POST is on the wire.
    InFlight,
    /// The attempt ended in HTTP success.
    Succeeded,
    /// The attempt ended in a refusal or a transport failure.
    Failed,
}

/// A state the task never leaves.
pub open spec fn is_terminal(s: TaskState) -> bool {
    s is Succeeded || s is Failed
}

/// The task's only moves: scheduled work takes flight, and one attempt ends
/// it, one way or the other.
pub open spec fn allowed_transition(from: TaskState, to: TaskState) -> bool {
    match (from, to) {
        (TaskState::Scheduled, TaskState::InFlight) => true,
        (TaskState::InFlight, TaskState::Succeeded) => true,
        (TaskState::InFlight, TaskState::Failed) => true,
        _ => false,
    }
}

/// The terminal state one attempt reaches for a classified outcome.
pub fn completion_state(o: &DeliveryOutcome) -> (s: TaskState)
    ensures
        is_terminal(s),
        allowed_transition(TaskState::InFlight, s),
        (s is Succeeded) <==> (*o is Succeeded),
{
    match o {
        DeliveryOutcome::Succeeded(_) => TaskState::Succeeded,
        DeliveryOutcome::RefusedStatus(_) => TaskState::Failed,
        DeliveryOutcome::TransportFailed => TaskState::Failed,
    }
}

/// A terminal task never moves again: the attempt is made exactly once.
pub proof fn lemma_terminal_is_final(s: TaskState, t: TaskState)
    requires
        is_terminal(s),
    ensures
        !allowed_transition(s, t),
{
}

/// Every run of the task is Scheduled, then InFlight, then one terminal
/// state: three states at most, in that order, with no way back.
pub proof fn lemma_task_run(states: Seq<TaskState>)
    requires
        states.len() >= 1,
        states[0] == TaskState::Scheduled,
        forall|i: int| 0 <= i < states.len() - 1 ==> allowed_transition(
            #[trigger] states[i],
            states[i + 1],
        ),
    ensures
        states.len() <= 3,
        states.len() >= 2 ==> states[1] == TaskState::InFlight,
        states.len() == 3 ==> is_terminal(states[2]),
{
    if states.len() >= 2 {
        assert(allowed_transition(states[0], states[1]));
    }
    if states.len() >= 3 {
        assert(allowed_transition(states[1], states[2]));
    }
    if states.len() >= 4 {
        assert(allowed_transition(states[2], states[3]));
        assert(false);
    }
}

} // verus!
