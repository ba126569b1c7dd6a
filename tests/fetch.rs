use itch_scrape::fetch::{next_fetch_step, FetchStep, Outcome, RetryState};

fn drive(outcomes: &[Outcome], max_retries: u32) -> (FetchStep, Vec<u64>, u32, usize) {
    let mut st = RetryState::new();
    let mut delays = Vec::new();
    let mut attempts = 0;
    for o in outcomes {
        attempts += 1;
        match next_fetch_step(&mut st, *o, max_retries) {
            FetchStep::Wait(d) => delays.push(d),
            end => return (end, delays, st.retries, attempts),
        }
    }
    panic!("outcomes ran out");
}

#[test]
fn succeeds_after_rate_limits() {
    let (end, delays, retries, attempts) =
        drive(&[Outcome::RateLimited, Outcome::RateLimited, Outcome::RateLimited, Outcome::Success], 5);
    assert_eq!(end, FetchStep::Done);
    assert_eq!(delays, vec![1, 2, 4]);
    assert_eq!(retries, 3);
    assert_eq!(attempts, 4);
}

#[test]
fn fails_after_budget_of_rate_limits() {
    let outcomes = vec![Outcome::RateLimited; 10];
    let (end, delays, retries, attempts) = drive(&outcomes, 2);
    assert_eq!(end, FetchStep::Fail);
    assert_eq!(delays, vec![1, 2]);
    assert_eq!(retries, 2);
    assert_eq!(attempts, 3);
}

#[test]
fn zero_retries_means_one_attempt() {
    let (end, delays, _, attempts) = drive(&[Outcome::Transient, Outcome::Success], 0);
    assert_eq!(end, FetchStep::Fail);
    assert!(delays.is_empty());
    assert_eq!(attempts, 1);
}

#[test]
fn other_status_is_not_retried() {
    let (end, delays, _, attempts) = drive(&[Outcome::HttpError, Outcome::Success], 5);
    assert_eq!(end, FetchStep::Fail);
    assert!(delays.is_empty());
    assert_eq!(attempts, 1);
}

#[test]
fn transport_errors_are_retried() {
    let (end, delays, _, _) = drive(&[Outcome::Transient, Outcome::RateLimited, Outcome::Success], 5);
    assert_eq!(end, FetchStep::Done);
    assert_eq!(delays, vec![1, 2]);
}

#[test]
fn delay_is_capped_at_300_seconds() {
    let mut outcomes = vec![Outcome::RateLimited; 12];
    outcomes.push(Outcome::Success);
    let (end, delays, _, _) = drive(&outcomes, 20);
    assert_eq!(end, FetchStep::Done);
    assert_eq!(delays, vec![1, 2, 4, 8, 16, 32, 64, 128, 256, 300, 300, 300]);
}
