use newsletter::issue_delivery_worker::{
    capped_exponential_delay, equal_jitter_delay, exponential_backoff_equal_jitter,
    max_retries_error_text, pause_after, reschedule_error_text, start, step, AfterDelete, DeliveryAction, DeliveryError, DeliveryEvent, DeliveryState,
    ExecutionOutcome, RetrySettings,
};

fn settings(max_retries: u16) -> RetrySettings {
    RetrySettings { max_retries, base_sec: 2, cap_sec: 60 }
}

/// Runs the worker's decisions over a sequence of events; returns the final state and
/// the actions handed out.
fn run(events: &[DeliveryEvent], retry: &RetrySettings) -> (DeliveryState, Vec<DeliveryAction>) {
    let (mut state, action) = start();
    let mut actions = vec![action];
    for event in events {
        let (next, action) = step(state, *event, retry);
        state = next;
        actions.push(action);
    }
    (state, actions)
}

#[test]
fn an_empty_queue_ends_the_run() {
    let (state, actions) = run(&[DeliveryEvent::QueueEmpty], &settings(3));
    assert_eq!(state, DeliveryState::Finished { outcome: Ok(ExecutionOutcome::EmptyQueue) });
    assert_eq!(actions, vec![DeliveryAction::Dequeue, DeliveryAction::Finish]);
}

#[test]
fn a_delivered_issue_deletes_the_task() {
    let events = [
        DeliveryEvent::TaskDequeued { n_retries: 0 },
        DeliveryEvent::EmailValid,
        DeliveryEvent::IssueFetched,
        DeliveryEvent::EmailSent,
        DeliveryEvent::Deleted,
    ];
    let (state, actions) = run(&events, &settings(3));
    assert_eq!(state, DeliveryState::Finished { outcome: Ok(ExecutionOutcome::TaskCompleted) });
    assert_eq!(
        actions,
        vec![
            DeliveryAction::Dequeue,
            DeliveryAction::ParseEmail,
            DeliveryAction::FetchIssue,
            DeliveryAction::SendEmail,
            DeliveryAction::DeleteTask,
            DeliveryAction::Finish,
        ]
    );
}

#[test]
fn an_invalid_address_skips_the_subscriber() {
    let events = [DeliveryEvent::TaskDequeued { n_retries: 1 }, DeliveryEvent::EmailInvalid, DeliveryEvent::Deleted];
    let (state, actions) = run(&events, &settings(3));
    assert_eq!(state, DeliveryState::Finished { outcome: Ok(ExecutionOutcome::TaskCompleted) });
    assert_eq!(actions[2], DeliveryAction::DeleteTask);
}

#[test]
fn a_failed_delivery_is_retried_with_backoff() {
    let retry = settings(3);
    let events = [
        DeliveryEvent::TaskDequeued { n_retries: 1 },
        DeliveryEvent::EmailValid,
        DeliveryEvent::IssueFetched,
        DeliveryEvent::SendFailed,
    ];
    let (state, actions) = run(&events, &retry);
    assert_eq!(state, DeliveryState::Rescheduling { n_retries: 2 });
    match actions[4] {
        DeliveryAction::Reschedule { n_retries, delay_seconds } => {
            assert_eq!(n_retries, 2);
            // min(60, 2 * 2^2) = 8: the delay lies in 4..=8.
            assert!((4..=8).contains(&delay_seconds));
        }
        other => panic!("unexpected action {:?}", other),
    }
    let (state, action) = step(state, DeliveryEvent::Rescheduled, &retry);
    assert_eq!(state, DeliveryState::Finished { outcome: Ok(ExecutionOutcome::TaskCompleted) });
    assert_eq!(action, DeliveryAction::Finish);
}

#[test]
fn a_failed_reschedule_fails_the_run() {
    let retry = settings(3);
    let (state, _) = step(DeliveryState::Rescheduling { n_retries: 1 }, DeliveryEvent::RescheduleFailed, &retry);
    assert_eq!(state, DeliveryState::Finished { outcome: Err(DeliveryError::Reschedule) });
}

#[test]
fn spent_retries_drop_the_task_with_an_error() {
    let retry = settings(2);
    let (state, action) = step(DeliveryState::Sending { n_retries: 2 }, DeliveryEvent::SendFailed, &retry);
    assert_eq!(state, DeliveryState::Deleting { after: AfterDelete::RetriesExhausted });
    assert_eq!(action, DeliveryAction::DeleteTask);
    let (state, _) = step(state, DeliveryEvent::Deleted, &retry);
    assert_eq!(state, DeliveryState::Finished { outcome: Err(DeliveryError::MaxRetriesReached) });
}

#[test]
fn no_retries_allowed_means_no_reschedule() {
    let retry = settings(0);
    let (state, _) = step(DeliveryState::Sending { n_retries: 0 }, DeliveryEvent::SendFailed, &retry);
    assert_eq!(state, DeliveryState::Deleting { after: AfterDelete::RetriesExhausted });
}

#[test]
fn failures_of_the_outside_work_end_the_run_with_errors() {
    let retry = settings(3);
    let (state, _) = step(DeliveryState::Dequeuing, DeliveryEvent::DequeueFailed, &retry);
    assert_eq!(state, DeliveryState::Finished { outcome: Err(DeliveryError::Dequeue) });
    let (state, _) = step(DeliveryState::FetchingIssue { n_retries: 0 }, DeliveryEvent::IssueFetchFailed, &retry);
    assert_eq!(state, DeliveryState::Finished { outcome: Err(DeliveryError::FetchIssue) });
    let (state, _) = step(DeliveryState::Deleting { after: AfterDelete::Completed }, DeliveryEvent::DeleteFailed, &retry);
    assert_eq!(state, DeliveryState::Finished { outcome: Err(DeliveryError::Delete) });
}

#[test]
fn the_worker_pauses_as_the_outcome_asks() {
    assert_eq!(pause_after(&Ok::<ExecutionOutcome, ()>(ExecutionOutcome::EmptyQueue)), Some(10));
    assert_eq!(pause_after(&Err::<ExecutionOutcome, DeliveryError>(DeliveryError::Delete)), Some(1));
    assert_eq!(pause_after(&Ok::<ExecutionOutcome, ()>(ExecutionOutcome::TaskCompleted)), None);
}

#[test]
fn the_exponential_delay_doubles_and_is_capped() {
    assert_eq!(capped_exponential_delay(100, 3, 0), 3);
    assert_eq!(capped_exponential_delay(100, 3, 4), 48);
    assert_eq!(capped_exponential_delay(100, 3, 5), 96);
    assert_eq!(capped_exponential_delay(100, 3, 6), 100);
    assert_eq!(capped_exponential_delay(u64::MAX, 1, 63), 1u64 << 63);
}

#[test]
fn equal_jitter_adds_the_jitter_to_half_the_delay() {
    assert_eq!(equal_jitter_delay(100, 3, 4, 0), 24);
    assert_eq!(equal_jitter_delay(100, 3, 4, 24), 48);
    assert_eq!(equal_jitter_delay(100, 3, 6, 7), 57);
}

#[test]
fn the_random_backoff_stays_in_its_bounds() {
    let mut seen_different = false;
    let first = exponential_backoff_equal_jitter(1000, 10, 6);
    for _ in 0..200 {
        // min(1000, 10 * 64) = 640: the delay lies in 320..=640.
        let delay = exponential_backoff_equal_jitter(1000, 10, 6);
        assert!((320..=640).contains(&delay));
        if delay != first {
            seen_different = true;
        }
    }
    assert!(seen_different);
    assert_eq!(exponential_backoff_equal_jitter(1000, 0, 6), 0);
}

#[test]
fn large_attempts_saturate_at_the_cap() {
    assert_eq!(capped_exponential_delay(10, 1, 64), 10);
    assert_eq!(capped_exponential_delay(u64::MAX, 1, 64), u64::MAX);
    assert_eq!(capped_exponential_delay(u64::MAX, 3, 63), u64::MAX);
    assert_eq!(capped_exponential_delay(1000, 0, u16::MAX), 0);
    assert_eq!(capped_exponential_delay(7, 5, u16::MAX), 7);
    for _ in 0..50 {
        let delay = exponential_backoff_equal_jitter(10, 1, 64);
        assert!((5..=10).contains(&delay));
    }
}

#[test]
fn retries_beyond_64_bits_are_scheduled_at_the_cap() {
    let retry = RetrySettings { max_retries: 100, base_sec: 1, cap_sec: 60 };
    let (state, action) = step(DeliveryState::Sending { n_retries: 70 }, DeliveryEvent::SendFailed, &retry);
    assert_eq!(state, DeliveryState::Rescheduling { n_retries: 71 });
    match action {
        DeliveryAction::Reschedule { n_retries: 71, delay_seconds } => assert!((30..=60).contains(&delay_seconds)),
        other => panic!("unexpected action {:?}", other),
    }
}

#[test]
fn the_error_texts_name_what_failed() {
    assert_eq!(
        max_retries_error_text("67e55044-10b1-426f-9247-bb680e5fe0c8", "ursula@example.com"),
        "Max retries reached.\nNewsletter: '67e55044-10b1-426f-9247-bb680e5fe0c8'\n User: ursula@example.com"
    );
    assert_eq!(reschedule_error_text("connection reset"), "Failed to reschedule task: connection reset");
}
