//! The decisions of the newsletter delivery worker. One run of the worker takes one
//! task from the delivery queue and tries to send the issue to the subscriber; the
//! database, the e-mail client and the clock stay with the caller, which performs the
//! actions that `step` hands out and reports back how each went.

use rand::Rng;
use vstd::arithmetic::power2::{lemma2_to64, lemma_pow2_adds, lemma_pow2_pos, lemma_pow2_unfold, pow2};
use vstd::prelude::*;

verus! {

/// How a run of the worker ended when it did not fail.
#[derive(Debug, Clone, Copy, PartialEq, Eq)]
pub enum ExecutionOutcome {
    TaskCompleted,
    EmptyQueue,
}

/// Why a run of the worker failed.
#[derive(Debug, Clone, Copy, PartialEq, Eq)]
pub enum DeliveryError {
    /// No task could be taken from the queue.
    Dequeue,
    /// The newsletter issue could not be read.
    FetchIssue,
    /// The failed delivery could not be scheduled again.
    Reschedule,
    /// The task could not be removed from the queue.
    Delete,
    /// Delivery failed and the task had been retried as often as allowed; it was removed.
    MaxRetriesReached,
}

/// The retry policy for failed deliveries.
#[derive(Debug, Clone, Copy, PartialEq, Eq)]
pub struct RetrySettings {
    /// How many times a failed delivery is scheduled again.
    pub max_retries: u16,
    /// The delay, in seconds, of the first retry before jitter; it doubles with each attempt.
    pub base_sec: u64,
    /// The longest delay, in seconds, before jitter.
    pub cap_sec: u64,
}

/// The exponential delay for an attempt, capped: `min(cap, base * 2^attempt)`.
pub open spec fn capped_delay(cap: u64, base: u64, attempt: u16) -> int {
    let exponential = base * pow2(attempt as nat);
    if cap <= exponential {
        cap as int
    } else {
        exponential
    }
}

/// An equal-jitter delay for an attempt: half of the capped delay, plus a jitter of at
/// most that half.
pub open spec fn is_equal_jitter_delay(cap: u64, base: u64, attempt: u16, delay: int) -> bool {
    let half = capped_delay(cap, base, attempt) / 2;
    half <= delay <= half + half
}

/// `base * 2^i` grows with `i`.
proof fn lemma_exponential_grows(base: u64, i: nat, j: nat)
    requires
        i <= j,
    ensures
        base * pow2(i) <= base * pow2(j),
{
    lemma_pow2_adds(i, (j - i) as nat);
    lemma_pow2_pos((j - i) as nat);
    let a = pow2(i);
    let b = pow2((j - i) as nat);
    assert(pow2(j) == a * b);
    assert(base * a <= base * (a * b)) by (nonlinear_arith)
        requires
            b >= 1,
            a >= 0,
    ;
}

/// The exponential delay for an attempt, capped at `cap`: `min(cap, base * 2^attempt)`.
/// It is computed for every attempt, also where `base * 2^attempt` would not fit in 64
/// bits (the cap is the answer there).
pub fn capped_exponential_delay(cap: u64, base: u64, attempt: u16) -> (r: u64)
    ensures
        r == capped_delay(cap, base, attempt),
{
    let mut value: u64 = base;
    let mut i: u16 = 0;
    proof {
        assert(pow2(0) == 1) by {
            lemma2_to64();
        }
    }
    while i < attempt
        invariant
            i <= attempt,
            value == base * pow2(i as nat),
        decreases attempt - i,
    {
        if value >= cap || value > u64::MAX / 2 {
            proof {
                lemma_exponential_grows(base, i as nat, attempt as nat);
                if value > u64::MAX / 2 {
                    lemma_exponential_grows(base, (i + 1) as nat, attempt as nat);
                    lemma_pow2_unfold((i + 1) as nat);
                    assert(base * pow2((i + 1) as nat) == 2 * value) by (nonlinear_arith)
                        requires
                            pow2((i + 1) as nat) == 2 * pow2(i as nat),
                            value == base * pow2(i as nat),
                    ;
                }
            }
            return cap;
        }
        proof {
            lemma_pow2_unfold((i + 1) as nat);
            assert(base * pow2((i + 1) as nat) == 2 * value) by (nonlinear_arith)
                requires
                    pow2((i + 1) as nat) == 2 * pow2(i as nat),
                    value == base * pow2(i as nat),
            ;
        }
        value = value * 2;
        i = i + 1;
    }
    if cap <= value {
        cap
    } else {
        value
    }
}

/// The equal-jitter delay for a given jitter: half of the capped delay plus `jitter`.
pub fn equal_jitter_delay(cap: u64, base: u64, attempt: u16, jitter: u64) -> (r: u64)
    requires
        jitter <= capped_delay(cap, base, attempt) / 2,
    ensures
        r == capped_delay(cap, base, attempt) / 2 + jitter,
{
    let half = capped_exponential_delay(cap, base, attempt) / 2;
    half + jitter
}

/// `rand::thread_rng().gen_range(0..=upper)`: a number drawn uniformly from `0..=upper`.
/// The range always holds `0`, so the call does not panic; which number comes is chance.
#[verifier::external_body]
fn random_up_to(upper: u64) -> (r: u64)
    ensures
        r <= upper,
{
    rand::thread_rng().gen_range(0..=upper)
}

/// Exponential backoff with "equal jitter", in seconds: half of
/// `min(cap, base * 2^attempt)`, plus a random amount of up to that half.
pub fn exponential_backoff_equal_jitter(cap: u64, base: u64, attempt: u16) -> (r: u64)
    ensures
        is_equal_jitter_delay(cap, base, attempt, r as int),
        r <= cap,
{
    let half = capped_exponential_delay(cap, base, attempt) / 2;
    let jitter = random_up_to(half);
    equal_jitter_delay(cap, base, attempt, jitter)
}

/// What happens once the task has been removed from the queue.
#[derive(Debug, Clone, Copy, PartialEq, Eq)]
pub enum AfterDelete {
    /// The run is complete.
    Completed,
    /// The run fails: delivery failed and no retry is left.
    RetriesExhausted,
}

/// Where a run of the delivery worker stands.
#[derive(Debug, Clone, Copy, PartialEq, Eq)]
pub enum DeliveryState {
    /// Waiting for a task from the queue.
    Dequeuing,
    /// A task was taken; its stored e-mail address is being checked.
    CheckingEmail { n_retries: u16 },
    /// The address is valid; the newsletter issue is being read.
    FetchingIssue { n_retries: u16 },
    /// The issue is being sent to the subscriber.
    Sending { n_retries: u16 },
    /// Delivery failed; the task is being scheduled again with this retry count.
    Rescheduling { n_retries: u16 },
    /// The task is being removed from the queue.
    Deleting { after: AfterDelete },
    /// The run is over.
    Finished { outcome: Result<ExecutionOutcome, DeliveryError> },
}

/// How the action that the worker last handed out went.
#[derive(Debug, Clone, Copy, PartialEq, Eq)]
pub enum DeliveryEvent {
    QueueEmpty,
    TaskDequeued { n_retries: u16 },
    DequeueFailed,
    EmailValid,
    EmailInvalid,
    IssueFetched,
    IssueFetchFailed,
    EmailSent,
    SendFailed,
    Rescheduled,
    RescheduleFailed,
    Deleted,
    DeleteFailed,
}

/// What the caller does next.
#[derive(Debug, Clone, Copy, PartialEq, Eq)]
pub enum DeliveryAction {
    /// Take one task from the queue, in a transaction.
    Dequeue,
    /// Check the subscriber's stored e-mail address.
    ParseEmail,
    /// Read the newsletter issue of the task.
    FetchIssue,
    /// Send the issue to the subscriber.
    SendEmail,
    /// Store the new retry count and make the task wait `delay_seconds` before its next run.
    Reschedule { n_retries: u16, delay_seconds: u64 },
    /// Remove the task from the queue and commit.
    DeleteTask,
    /// Nothing: the run is over and its outcome is in the state.
    Finish,
}

/// The events that each state expects.
pub open spec fn accepts(state: DeliveryState, event: DeliveryEvent) -> bool {
    match state {
        DeliveryState::Dequeuing => event is QueueEmpty || event is TaskDequeued || event is DequeueFailed,
        DeliveryState::CheckingEmail { .. } => event is EmailValid || event is EmailInvalid,
        DeliveryState::FetchingIssue { .. } => event is IssueFetched || event is IssueFetchFailed,
        DeliveryState::Sending { .. } => event is EmailSent || event is SendFailed,
        DeliveryState::Rescheduling { .. } => event is Rescheduled || event is RescheduleFailed,
        DeliveryState::Deleting { .. } => event is Deleted || event is DeleteFailed,
        DeliveryState::Finished { .. } => false,
    }
}

/// The state that follows `state` on `event`.
pub open spec fn next_state(state: DeliveryState, event: DeliveryEvent, retry: RetrySettings) -> DeliveryState {
    match (state, event) {
        (DeliveryState::Dequeuing, DeliveryEvent::QueueEmpty) =>
            DeliveryState::Finished { outcome: Ok(ExecutionOutcome::EmptyQueue) },
        (DeliveryState::Dequeuing, DeliveryEvent::TaskDequeued { n_retries }) =>
            DeliveryState::CheckingEmail { n_retries },
        (DeliveryState::Dequeuing, DeliveryEvent::DequeueFailed) =>
            DeliveryState::Finished { outcome: Err(DeliveryError::Dequeue) },
        (DeliveryState::CheckingEmail { n_retries }, DeliveryEvent::EmailValid) =>
            DeliveryState::FetchingIssue { n_retries },
        (DeliveryState::CheckingEmail { .. }, DeliveryEvent::EmailInvalid) =>
            DeliveryState::Deleting { after: AfterDelete::Completed },
        (DeliveryState::FetchingIssue { n_retries }, DeliveryEvent::IssueFetched) =>
            DeliveryState::Sending { n_retries },
        (DeliveryState::FetchingIssue { .. }, DeliveryEvent::IssueFetchFailed) =>
            DeliveryState::Finished { outcome: Err(DeliveryError::FetchIssue) },
        (DeliveryState::Sending { .. }, DeliveryEvent::EmailSent) =>
            DeliveryState::Deleting { after: AfterDelete::Completed },
        (DeliveryState::Sending { n_retries }, DeliveryEvent::SendFailed) =>
            if n_retries < retry.max_retries {
                DeliveryState::Rescheduling { n_retries: (n_retries + 1) as u16 }
            } else {
                DeliveryState::Deleting { after: AfterDelete::RetriesExhausted }
            },
        (DeliveryState::Rescheduling { .. }, DeliveryEvent::Rescheduled) =>
            DeliveryState::Finished { outcome: Ok(ExecutionOutcome::TaskCompleted) },
        (DeliveryState::Rescheduling { .. }, DeliveryEvent::RescheduleFailed) =>
            DeliveryState::Finished { outcome: Err(DeliveryError::Reschedule) },
        (DeliveryState::Deleting { after }, DeliveryEvent::Deleted) =>
            DeliveryState::Finished {
                outcome: match after {
                    AfterDelete::Completed => Ok(ExecutionOutcome::TaskCompleted),
                    AfterDelete::RetriesExhausted => Err(DeliveryError::MaxRetriesReached),
                },
            },
        (DeliveryState::Deleting { .. }, DeliveryEvent::DeleteFailed) =>
            DeliveryState::Finished { outcome: Err(DeliveryError::Delete) },
        _ => state,
    }
}

/// The action that a state calls for. A retry waits an equal-jitter delay for its attempt.
pub open spec fn action_fits(state: DeliveryState, action: DeliveryAction, retry: RetrySettings) -> bool {
    match state {
        DeliveryState::Dequeuing => action == DeliveryAction::Dequeue,
        DeliveryState::CheckingEmail { .. } => action == DeliveryAction::ParseEmail,
        DeliveryState::FetchingIssue { .. } => action == DeliveryAction::FetchIssue,
        DeliveryState::Sending { .. } => action == DeliveryAction::SendEmail,
        DeliveryState::Rescheduling { n_retries } => match action {
            DeliveryAction::Reschedule { n_retries: n, delay_seconds } => {
                &&& n == n_retries
                &&& is_equal_jitter_delay(retry.cap_sec, retry.base_sec, n_retries, delay_seconds as int)
            },
            _ => false,
        },
        DeliveryState::Deleting { .. } => action == DeliveryAction::DeleteTask,
        DeliveryState::Finished { .. } => action == DeliveryAction::Finish,
    }
}

/// A run starts by taking a task from the queue.
pub fn start() -> (r: (DeliveryState, DeliveryAction))
    ensures
        r == (DeliveryState::Dequeuing, DeliveryAction::Dequeue),
{
    (DeliveryState::Dequeuing, DeliveryAction::Dequeue)
}

/// The next state of a run and the action that it calls for, on the outcome of the last action.
pub fn step(state: DeliveryState, event: DeliveryEvent, retry: &RetrySettings) -> (r: (DeliveryState, DeliveryAction))
    requires
        accepts(state, event),
    ensures
        r.0 == next_state(state, event, *retry),
        action_fits(r.0, r.1, *retry),
        event matches DeliveryEvent::TaskDequeued { n_retries } ==> r.0 == (DeliveryState::CheckingEmail {
            n_retries,
        }),
        state matches DeliveryState::CheckingEmail { n_retries } ==> (event is EmailValid ==> r.0
            == (DeliveryState::FetchingIssue { n_retries })),
        state matches DeliveryState::FetchingIssue { n_retries } ==> (event is IssueFetched ==> r.0
            == (DeliveryState::Sending { n_retries })),
        state matches DeliveryState::Sending { n_retries } ==> (event is SendFailed ==> (if n_retries
            < retry.max_retries {
            r.0 == (DeliveryState::Rescheduling { n_retries: (n_retries + 1) as u16 })
        } else {
            r.0 == (DeliveryState::Deleting { after: AfterDelete::RetriesExhausted })
        })),
{
    match (state, event) {
        (DeliveryState::Dequeuing, DeliveryEvent::QueueEmpty) =>
            (DeliveryState::Finished { outcome: Ok(ExecutionOutcome::EmptyQueue) }, DeliveryAction::Finish),
        (DeliveryState::Dequeuing, DeliveryEvent::TaskDequeued { n_retries }) =>
            (DeliveryState::CheckingEmail { n_retries }, DeliveryAction::ParseEmail),
        (DeliveryState::Dequeuing, DeliveryEvent::DequeueFailed) =>
            (DeliveryState::Finished { outcome: Err(DeliveryError::Dequeue) }, DeliveryAction::Finish),
        (DeliveryState::CheckingEmail { n_retries }, DeliveryEvent::EmailValid) =>
            (DeliveryState::FetchingIssue { n_retries }, DeliveryAction::FetchIssue),
        (DeliveryState::CheckingEmail { .. }, DeliveryEvent::EmailInvalid) =>
            (DeliveryState::Deleting { after: AfterDelete::Completed }, DeliveryAction::DeleteTask),
        (DeliveryState::FetchingIssue { n_retries }, DeliveryEvent::IssueFetched) =>
            (DeliveryState::Sending { n_retries }, DeliveryAction::SendEmail),
        (DeliveryState::FetchingIssue { .. }, DeliveryEvent::IssueFetchFailed) =>
            (DeliveryState::Finished { outcome: Err(DeliveryError::FetchIssue) }, DeliveryAction::Finish),
        (DeliveryState::Sending { .. }, DeliveryEvent::EmailSent) =>
            (DeliveryState::Deleting { after: AfterDelete::Completed }, DeliveryAction::DeleteTask),
        (DeliveryState::Sending { n_retries }, DeliveryEvent::SendFailed) => {
            if n_retries < retry.max_retries {
                let n_retries = n_retries + 1;
                let delay_seconds = exponential_backoff_equal_jitter(retry.cap_sec, retry.base_sec, n_retries);
                (DeliveryState::Rescheduling { n_retries }, DeliveryAction::Reschedule { n_retries, delay_seconds })
            } else {
                (DeliveryState::Deleting { after: AfterDelete::RetriesExhausted }, DeliveryAction::DeleteTask)
            }
        },
        (DeliveryState::Rescheduling { .. }, DeliveryEvent::Rescheduled) =>
            (DeliveryState::Finished { outcome: Ok(ExecutionOutcome::TaskCompleted) }, DeliveryAction::Finish),
        (DeliveryState::Rescheduling { .. }, DeliveryEvent::RescheduleFailed) =>
            (DeliveryState::Finished { outcome: Err(DeliveryError::Reschedule) }, DeliveryAction::Finish),
        (DeliveryState::Deleting { after }, DeliveryEvent::Deleted) => {
            let outcome = match after {
                AfterDelete::Completed => Ok(ExecutionOutcome::TaskCompleted),
                AfterDelete::RetriesExhausted => Err(DeliveryError::MaxRetriesReached),
            };
            (DeliveryState::Finished { outcome }, DeliveryAction::Finish)
        },
        (DeliveryState::Deleting { .. }, DeliveryEvent::DeleteFailed) =>
            (DeliveryState::Finished { outcome: Err(DeliveryError::Delete) }, DeliveryAction::Finish),
        _ => {
            assert(false);
            (state, DeliveryAction::Finish)
        },
    }
}

/// How long the worker waits before its next run: ten seconds after finding the queue
/// empty, one second after a failed run, and not at all after a completed task.
pub fn pause_after<E>(outcome: &Result<ExecutionOutcome, E>) -> (r: Option<u64>)
    ensures
        r == match outcome {
            Ok(ExecutionOutcome::EmptyQueue) => Some(10u64),
            Ok(ExecutionOutcome::TaskCompleted) => None,
            Err(_) => Some(1u64),
        },
{
    match outcome {
        Ok(ExecutionOutcome::EmptyQueue) => Some(10),
        Ok(ExecutionOutcome::TaskCompleted) => None,
        Err(_) => Some(1),
    }
}

/// How many more events a run can take from a state.
pub open spec fn steps_left(state: DeliveryState) -> nat {
    match state {
        DeliveryState::Dequeuing => 5,
        DeliveryState::CheckingEmail { .. } => 4,
        DeliveryState::FetchingIssue { .. } => 3,
        DeliveryState::Sending { .. } => 2,
        DeliveryState::Rescheduling { .. } => 1,
        DeliveryState::Deleting { .. } => 1,
        DeliveryState::Finished { .. } => 0,
    }
}

/// Whether `events` can be reported, one after another, to a run that stands at `state`.
pub open spec fn is_run(state: DeliveryState, events: Seq<DeliveryEvent>, retry: RetrySettings) -> bool
    decreases events.len(),
{
    events.len() == 0 || {
        &&& accepts(state, events[0])
        &&& is_run(next_state(state, events[0], retry), events.drop_first(), retry)
    }
}

/// The state that a run reaches from `state` after `events`.
pub open spec fn run_from(state: DeliveryState, events: Seq<DeliveryEvent>, retry: RetrySettings) -> DeliveryState
    decreases events.len(),
{
    if events.len() == 0 {
        state
    } else {
        run_from(next_state(state, events[0], retry), events.drop_first(), retry)
    }
}

/// Each step brings a run closer to its end, and a finished run accepts no event.
pub proof fn lemma_step_progresses(state: DeliveryState, event: DeliveryEvent, retry: RetrySettings)
    requires
        accepts(state, event),
    ensures
        steps_left(next_state(state, event, retry)) < steps_left(state),
{
}

/// A run of the worker is over after at most five events: every run terminates.
pub proof fn lemma_run_is_short(state: DeliveryState, events: Seq<DeliveryEvent>, retry: RetrySettings)
    requires
        is_run(state, events, retry),
    ensures
        events.len() <= steps_left(state),
    decreases events.len(),
{
    if events.len() > 0 {
        lemma_step_progresses(state, events[0], retry);
        lemma_run_is_short(next_state(state, events[0], retry), events.drop_first(), retry);
    }
}

/// A retry is scheduled only after a failed delivery, with the retry count one higher,
/// and never beyond the allowed number of retries.
pub proof fn lemma_retry_is_bounded(state: DeliveryState, event: DeliveryEvent, retry: RetrySettings)
    requires
        accepts(state, event),
        (next_state(state, event, retry) is Rescheduling),
    ensures
        (event is SendFailed),
        (state is Sending),
        next_state(state, event, retry)->Rescheduling_n_retries == state->Sending_n_retries + 1,
        next_state(state, event, retry)->Rescheduling_n_retries <= retry.max_retries,
{
}

/// A failed delivery is dropped, with an error, exactly when no retry is left.
pub proof fn lemma_gives_up_when_retries_are_spent(n_retries: u16, retry: RetrySettings)
    ensures
        (next_state((DeliveryState::Sending { n_retries }), DeliveryEvent::SendFailed, retry)
            == (DeliveryState::Deleting { after: AfterDelete::RetriesExhausted })) <==> (n_retries
            >= retry.max_retries),
        next_state((DeliveryState::Deleting { after: AfterDelete::RetriesExhausted }), DeliveryEvent::Deleted, retry)
            == (DeliveryState::Finished { outcome: Err(DeliveryError::MaxRetriesReached) }),
{
}

/// A run reports a completed task only after it removed the task from the queue or
/// scheduled it again.
pub proof fn lemma_completed_run_settles_task(state: DeliveryState, events: Seq<DeliveryEvent>, retry: RetrySettings)
    requires
        state != (DeliveryState::Finished { outcome: Ok(ExecutionOutcome::TaskCompleted) }),
        is_run(state, events, retry),
        run_from(state, events, retry) == (DeliveryState::Finished { outcome: Ok(ExecutionOutcome::TaskCompleted) }),
    ensures
        events.contains(DeliveryEvent::Deleted) || events.contains(DeliveryEvent::Rescheduled),
    decreases events.len(),
{
    let next = next_state(state, events[0], retry);
    if next == (DeliveryState::Finished { outcome: Ok(ExecutionOutcome::TaskCompleted) }) {
        assert(events[0] == DeliveryEvent::Deleted || events[0] == DeliveryEvent::Rescheduled);
    } else {
        lemma_completed_run_settles_task(next, events.drop_first(), retry);
        let i = if events.drop_first().contains(DeliveryEvent::Deleted) {
            choose|i: int| 0 <= i < events.drop_first().len() && events.drop_first()[i] == DeliveryEvent::Deleted
        } else {
            choose|i: int| 0 <= i < events.drop_first().len() && events.drop_first()[i] == DeliveryEvent::Rescheduled
        };
        assert(events[i + 1] == events.drop_first()[i]);
    }
}

/// A run reports an empty queue only when the queue was empty, and then it did nothing else.
pub proof fn lemma_empty_queue_run(events: Seq<DeliveryEvent>, retry: RetrySettings)
    requires
        is_run(DeliveryState::Dequeuing, events, retry),
        run_from(DeliveryState::Dequeuing, events, retry) == (DeliveryState::Finished { outcome: Ok(ExecutionOutcome::EmptyQueue) }),
    ensures
        events == seq![DeliveryEvent::QueueEmpty],
{
    lemma_empty_queue_only_at_start(DeliveryState::Dequeuing, events, retry);
}

proof fn lemma_empty_queue_only_at_start(state: DeliveryState, events: Seq<DeliveryEvent>, retry: RetrySettings)
    requires
        is_run(state, events, retry),
        run_from(state, events, retry) == (DeliveryState::Finished { outcome: Ok(ExecutionOutcome::EmptyQueue) }),
        state != (DeliveryState::Finished { outcome: Ok(ExecutionOutcome::EmptyQueue) }),
    ensures
        state == DeliveryState::Dequeuing,
        events == seq![DeliveryEvent::QueueEmpty],
    decreases events.len(),
{
    let next = next_state(state, events[0], retry);
    if next == (DeliveryState::Finished { outcome: Ok(ExecutionOutcome::EmptyQueue) }) {
        assert(is_run(next, events.drop_first(), retry));
        if events.drop_first().len() > 0 {
            assert(!accepts(next, events.drop_first()[0]));
        }
        assert(events.drop_first().len() == 0);
        assert(events =~= seq![DeliveryEvent::QueueEmpty]);
    } else {
        lemma_empty_queue_only_at_start(next, events.drop_first(), retry);
        assert(false);
    }
}

/// How many times a run from `state` reaches the point of sending the issue.
pub open spec fn sends_in_run(state: DeliveryState, events: Seq<DeliveryEvent>, retry: RetrySettings) -> nat
    decreases events.len(),
{
    if events.len() == 0 {
        0
    } else {
        let next = next_state(state, events[0], retry);
        (if next is Sending { 1nat } else { 0nat }) + sends_in_run(next, events.drop_first(), retry)
    }
}

/// How many sends a run can still reach from a state.
pub open spec fn sends_left(state: DeliveryState) -> nat {
    match state {
        DeliveryState::Dequeuing => 1,
        DeliveryState::CheckingEmail { .. } => 1,
        DeliveryState::FetchingIssue { .. } => 1,
        _ => 0,
    }
}

proof fn lemma_sends_bounded(state: DeliveryState, events: Seq<DeliveryEvent>, retry: RetrySettings)
    requires
        is_run(state, events, retry),
    ensures
        sends_in_run(state, events, retry) <= sends_left(state),
    decreases events.len(),
{
    if events.len() > 0 {
        lemma_sends_bounded(next_state(state, events[0], retry), events.drop_first(), retry);
    }
}

/// A run sends the issue to the subscriber at most once: a failed delivery is retried
/// by a later run, never within the same one.
pub proof fn lemma_run_sends_at_most_once(events: Seq<DeliveryEvent>, retry: RetrySettings)
    requires
        is_run(DeliveryState::Dequeuing, events, retry),
    ensures
        sends_in_run(DeliveryState::Dequeuing, events, retry) <= 1,
{
    lemma_sends_bounded(DeliveryState::Dequeuing, events, retry);
}

/// The text of the error of a run that gave up on a delivery.
pub open spec fn max_retries_message(issue_id: Seq<char>, email: Seq<char>) -> Seq<char> {
    "Max retries reached.\nNewsletter: '"@ + issue_id + "'\n User: "@ + email
}

/// The text of the error of a run that gave up on a delivery, naming the issue and the
/// subscriber's address.
pub fn max_retries_error_text(issue_id: &str, email: &str) -> (r: String)
    ensures
        r@ == max_retries_message(issue_id@, email@),
{
    let mut text = String::from_str("Max retries reached.\nNewsletter: '");
    text.append(issue_id);
    text.append("'\n User: ");
    text.append(email);
    text
}

/// The text of the error of a run whose retry could not be scheduled.
pub fn reschedule_error_text(cause: &str) -> (r: String)
    ensures
        r@ == "Failed to reschedule task: "@ + cause@,
{
    let mut text = String::from_str("Failed to reschedule task: ");
    text.append(cause);
    text
}

/// Whether a run from `state` passes through `Rescheduling` on `events`.
pub open spec fn visits_rescheduling(state: DeliveryState, events: Seq<DeliveryEvent>, retry: RetrySettings) -> bool
    decreases events.len(),
{
    events.len() > 0 && {
        let next = next_state(state, events[0], retry);
        next is Rescheduling || visits_rescheduling(next, events.drop_first(), retry)
    }
}

/// The retry count that the queue reports for a task is carried, unchanged, to the
/// point of sending: a run that dequeues a task with `n` retries sends it as retry `n`.
pub proof fn lemma_retry_count_is_carried(n: u16, retry: RetrySettings)
    ensures
        run_from(
            DeliveryState::Dequeuing,
            seq![DeliveryEvent::TaskDequeued { n_retries: n }, DeliveryEvent::EmailValid, DeliveryEvent::IssueFetched],
            retry,
        ) == (DeliveryState::Sending { n_retries: n }),
{
    let events = seq![DeliveryEvent::TaskDequeued { n_retries: n }, DeliveryEvent::EmailValid, DeliveryEvent::IssueFetched];
    assert(events.drop_first() =~= seq![DeliveryEvent::EmailValid, DeliveryEvent::IssueFetched]);
    assert(events.drop_first().drop_first() =~= seq![DeliveryEvent::IssueFetched]);
    assert(events.drop_first().drop_first().drop_first() =~= Seq::<DeliveryEvent>::empty());
    reveal_with_fuel(run_from, 4);
}

/// A task dequeued with `n` retries, where `n` is at least the allowed number, is dropped
/// when its send fails: the run deletes it and ends with `MaxRetriesReached`.
pub proof fn lemma_exhausted_task_is_dropped(n: u16, retry: RetrySettings)
    requires
        n >= retry.max_retries,
    ensures
        run_from(
            DeliveryState::Dequeuing,
            seq![
                DeliveryEvent::TaskDequeued { n_retries: n },
                DeliveryEvent::EmailValid,
                DeliveryEvent::IssueFetched,
                DeliveryEvent::SendFailed,
            ],
            retry,
        ) == (DeliveryState::Deleting { after: AfterDelete::RetriesExhausted }),
        run_from(
            DeliveryState::Dequeuing,
            seq![
                DeliveryEvent::TaskDequeued { n_retries: n },
                DeliveryEvent::EmailValid,
                DeliveryEvent::IssueFetched,
                DeliveryEvent::SendFailed,
                DeliveryEvent::Deleted,
            ],
            retry,
        ) == (DeliveryState::Finished { outcome: Err(DeliveryError::MaxRetriesReached) }),
{
    let e4 = seq![
        DeliveryEvent::TaskDequeued { n_retries: n },
        DeliveryEvent::EmailValid,
        DeliveryEvent::IssueFetched,
        DeliveryEvent::SendFailed,
    ];
    let e5 = e4.push(DeliveryEvent::Deleted);
    assert(e4.drop_first() =~= seq![DeliveryEvent::EmailValid, DeliveryEvent::IssueFetched, DeliveryEvent::SendFailed]);
    assert(e4.drop_first().drop_first() =~= seq![DeliveryEvent::IssueFetched, DeliveryEvent::SendFailed]);
    assert(e4.drop_first().drop_first().drop_first() =~= seq![DeliveryEvent::SendFailed]);
    assert(e4.drop_first().drop_first().drop_first().drop_first() =~= Seq::<DeliveryEvent>::empty());
    assert(e5.drop_first() =~= seq![
        DeliveryEvent::EmailValid,
        DeliveryEvent::IssueFetched,
        DeliveryEvent::SendFailed,
        DeliveryEvent::Deleted,
    ]);
    assert(e5.drop_first().drop_first() =~= seq![DeliveryEvent::IssueFetched, DeliveryEvent::SendFailed, DeliveryEvent::Deleted]);
    assert(e5.drop_first().drop_first().drop_first() =~= seq![DeliveryEvent::SendFailed, DeliveryEvent::Deleted]);
    assert(e5.drop_first().drop_first().drop_first().drop_first() =~= seq![DeliveryEvent::Deleted]);
    assert(e5.drop_first().drop_first().drop_first().drop_first().drop_first() =~= Seq::<DeliveryEvent>::empty());
    reveal_with_fuel(run_from, 6);
}

/// The states in which a task's retries are spent: its retry count is at least the
/// allowed number, or it is already being removed or finished.
spec fn retries_spent(state: DeliveryState, retry: RetrySettings) -> bool {
    match state {
        DeliveryState::CheckingEmail { n_retries } => n_retries >= retry.max_retries,
        DeliveryState::FetchingIssue { n_retries } => n_retries >= retry.max_retries,
        DeliveryState::Sending { n_retries } => n_retries >= retry.max_retries,
        DeliveryState::Deleting { .. } => true,
        DeliveryState::Finished { .. } => true,
        _ => false,
    }
}

proof fn lemma_spent_stays_spent(state: DeliveryState, events: Seq<DeliveryEvent>, retry: RetrySettings)
    requires
        retries_spent(state, retry),
        is_run(state, events, retry),
    ensures
        !visits_rescheduling(state, events, retry),
    decreases events.len(),
{
    if events.len() > 0 {
        lemma_spent_stays_spent(next_state(state, events[0], retry), events.drop_first(), retry);
    }
}

/// A run whose task was dequeued with its retries already spent never schedules the
/// task again, whatever happens afterwards.
pub proof fn lemma_exhausted_task_is_never_rescheduled(events: Seq<DeliveryEvent>, n: u16, retry: RetrySettings)
    requires
        is_run(DeliveryState::Dequeuing, events, retry),
        events.len() > 0,
        events[0] == (DeliveryEvent::TaskDequeued { n_retries: n }),
        n >= retry.max_retries,
    ensures
        !visits_rescheduling(DeliveryState::Dequeuing, events, retry),
{
    lemma_spent_stays_spent(next_state(DeliveryState::Dequeuing, events[0], retry), events.drop_first(), retry);
}

/// The capped exponential delay starts at `min(cap, base)`, doubles with each attempt
/// until it reaches the cap, and never exceeds the cap; an equal-jitter delay lies
/// between half of it and all of it.
pub proof fn lemma_capped_delay_doubles(cap: u64, base: u64, attempt: u16, delay: int)
    requires
        attempt < u16::MAX,
    ensures
        capped_delay(cap, base, 0) == (if cap <= base { cap as int } else { base as int }),
        capped_delay(cap, base, (attempt + 1) as u16) == (if cap <= 2 * capped_delay(cap, base, attempt) {
            cap as int
        } else {
            2 * capped_delay(cap, base, attempt)
        }),
        0 <= capped_delay(cap, base, attempt) <= capped_delay(cap, base, (attempt + 1) as u16) <= cap,
        is_equal_jitter_delay(cap, base, attempt, delay) ==> capped_delay(cap, base, attempt) / 2 <= delay
            <= capped_delay(cap, base, attempt),
{
    lemma2_to64();
    lemma_pow2_unfold((attempt + 1) as nat);
    lemma_pow2_pos(attempt as nat);
    let e = base * pow2(attempt as nat);
    assert(base * pow2((attempt + 1) as nat) == 2 * e) by (nonlinear_arith)
        requires
            pow2((attempt + 1) as nat) == 2 * pow2(attempt as nat),
            e == base * pow2(attempt as nat),
    ;
    assert(e >= 0) by (nonlinear_arith)
        requires
            e == base * pow2(attempt as nat),
            pow2(attempt as nat) > 0,
    ;
    assert(base * pow2(0) == base);
}

} // verus!
