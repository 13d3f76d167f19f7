use figshare_rs::poll::{after_resource_fetch, after_state_probe, next_delay, FetchOutcome, PollAction, DURATION_MAX_NANOS};

#[test]
fn delays_double_up_to_the_cap() {
    assert_eq!(next_delay(1_000, 10_000), 2_000);
    assert_eq!(next_delay(6_000, 10_000), 10_000);
    assert_eq!(next_delay(DURATION_MAX_NANOS, DURATION_MAX_NANOS), DURATION_MAX_NANOS);
    assert_eq!(next_delay(0, 5), 0);
}

#[test]
fn state_polls_return_time_out_or_wait() {
    assert_eq!(after_state_probe(true, true), PollAction::Return);
    assert_eq!(after_state_probe(false, true), PollAction::TimedOut);
    assert_eq!(after_state_probe(false, false), PollAction::Sleep);
}

#[test]
fn resource_polls_wait_only_on_not_found() {
    assert_eq!(after_resource_fetch(FetchOutcome::Found, false), PollAction::Return);
    assert_eq!(after_resource_fetch(FetchOutcome::Failed, false), PollAction::Return);
    assert_eq!(after_resource_fetch(FetchOutcome::NotFound, false), PollAction::Sleep);
    assert_eq!(after_resource_fetch(FetchOutcome::NotFound, true), PollAction::Return);
}
