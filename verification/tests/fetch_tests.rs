use iso_catalog::fetch::AttemptOutcome;
use iso_catalog::fetch::FetchStep;
use iso_catalog::fetch::RetryPolicy;
use iso_catalog::fetch::backoff_delay;
use iso_catalog::fetch::fetch_text_from_outcomes;
use iso_catalog::fetch::next_fetch_step;
use iso_catalog::fetch::run_fetch;

fn policy() -> RetryPolicy {
    RetryPolicy { max_attempts: 3, backoff_base_ms: 100 }
}

#[test]
fn two_transient_failures_then_success_yields_the_body() {
    let outcomes = vec![
        AttemptOutcome::Transport,
        AttemptOutcome::Status(503, String::new()),
        AttemptOutcome::Status(200, "release listing".to_string()),
    ];
    assert_eq!(run_fetch(&policy(), outcomes), Some("release listing".to_string()));
}

#[test]
fn budget_exhaustion_yields_nothing() {
    let outcomes = vec![
        AttemptOutcome::Transport,
        AttemptOutcome::Transport,
        AttemptOutcome::Transport,
        AttemptOutcome::Status(200, "too late".to_string()),
    ];
    assert_eq!(run_fetch(&policy(), outcomes), None);
}

#[test]
fn non_retryable_status_fails_at_once() {
    let outcomes = vec![
        AttemptOutcome::Status(404, "missing".to_string()),
        AttemptOutcome::Status(200, "never reached".to_string()),
    ];
    assert_eq!(run_fetch(&policy(), outcomes), None);
}

#[test]
fn rate_limited_status_fails_a_content_fetch() {
    // 429 confirms liveness during validation, but a content fetch treats
    // it as any other non-success status.
    let outcomes = vec![AttemptOutcome::Status(429, "slow down".to_string())];
    assert_eq!(run_fetch(&policy(), outcomes), None);
}

#[test]
fn empty_body_on_success_yields_nothing() {
    let outcomes = vec![AttemptOutcome::Status(200, String::new())];
    assert_eq!(run_fetch(&policy(), outcomes), None);
}

#[test]
fn backoff_doubles_from_the_base() {
    assert_eq!(backoff_delay(100, 0), 100);
    assert_eq!(backoff_delay(100, 1), 200);
    assert_eq!(backoff_delay(100, 2), 400);
    assert_eq!(backoff_delay(0, 5), 0);
}

#[test]
fn backoff_saturates_instead_of_overflowing() {
    assert_eq!(backoff_delay(u64::MAX, 1), u64::MAX);
    assert_eq!(backoff_delay(1, 63), 1u64 << 63);
    assert_eq!(backoff_delay(1, 64), u64::MAX);
}

#[test]
fn next_step_retries_server_failures_with_backoff() {
    let p = policy();
    let step = next_fetch_step(&p, 0, AttemptOutcome::Status(500, String::new()));
    assert_eq!(step, FetchStep::Retry(100));
    let step = next_fetch_step(&p, 1, AttemptOutcome::Transport);
    assert_eq!(step, FetchStep::Retry(200));
    // The last attempt of the budget is not retried.
    let step = next_fetch_step(&p, 2, AttemptOutcome::Transport);
    assert_eq!(step, FetchStep::Done(None));
}

#[test]
fn next_step_finishes_on_success() {
    let p = policy();
    let step = next_fetch_step(&p, 0, AttemptOutcome::Status(200, "payload".to_string()));
    assert_eq!(step, FetchStep::Done(Some("payload".to_string())));
}

#[test]
fn unparsable_url_is_refused_without_consuming_the_tape() {
    let outcomes = vec![AttemptOutcome::Status(200, "hi".to_string())];
    assert_eq!(fetch_text_from_outcomes("not a url", &policy(), outcomes), None);
}

#[test]
fn url_with_host_runs_the_fetch() {
    let outcomes = vec![AttemptOutcome::Status(200, "hi".to_string())];
    let r = fetch_text_from_outcomes("https://mirror.example/iso/", &policy(), outcomes);
    assert_eq!(r, Some("hi".to_string()));
}

#[test]
fn url_without_host_is_refused() {
    let outcomes = vec![AttemptOutcome::Status(200, "hi".to_string())];
    assert_eq!(fetch_text_from_outcomes("data:text/plain,stuff", &policy(), outcomes), None);
}
