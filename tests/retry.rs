use bin_weather::retry::{backoff, RetryAction, RetryPolicy};

fn policy(max: u32, proxies: &[&str]) -> RetryPolicy {
    RetryPolicy { max_attempts: max, proxies: proxies.iter().map(|p| p.to_string()).collect() }
}

#[test]
fn three_failures_then_success() {
    let p = policy(4, &[]);
    let (mut st, first) = p.start();
    assert_eq!(first, RetryAction::Fetch { endpoint: 0, delay_ms: 0 });
    let mut failures = 0;
    for _ in 0..3 {
        let (next, action) = p.step(st, false);
        assert!(matches!(action, RetryAction::Fetch { .. }));
        failures += 1;
        st = next;
    }
    let (_, done) = p.step(st, true);
    assert_eq!(failures, 3);
    assert_eq!(done, RetryAction::Succeeded { attempt: 4, endpoint: 0 });
}

#[test]
fn three_failures_with_three_attempts_give_up() {
    let p = policy(3, &[]);
    let (st, _) = p.start();
    let (st, a1) = p.step(st, false);
    assert_eq!(a1, RetryAction::Fetch { endpoint: 0, delay_ms: 2000 });
    let (st, a2) = p.step(st, false);
    assert_eq!(a2, RetryAction::Fetch { endpoint: 0, delay_ms: 4000 });
    let (st, a3) = p.step(st, false);
    assert_eq!(a3, RetryAction::GaveUp { attempts: 3 });
    let (_, a4) = p.step(st, false);
    assert_eq!(a4, RetryAction::Idle);
}

#[test]
fn proxies_are_tried_before_waiting() {
    let p = policy(2, &["https://corsproxy.io/?", "https://api.allorigins.win/raw?url="]);
    let (st, _) = p.start();
    let (st, a) = p.step(st, false);
    assert_eq!(a, RetryAction::Fetch { endpoint: 1, delay_ms: 0 });
    let (st, a) = p.step(st, false);
    assert_eq!(a, RetryAction::Fetch { endpoint: 2, delay_ms: 0 });
    let (st, a) = p.step(st, false);
    assert_eq!(a, RetryAction::Fetch { endpoint: 0, delay_ms: 2000 });
    let (st, a) = p.step(st, false);
    assert_eq!(a, RetryAction::Fetch { endpoint: 1, delay_ms: 0 });
    let (_, a) = p.step(st, true);
    assert_eq!(a, RetryAction::Succeeded { attempt: 2, endpoint: 1 });
}

#[test]
fn endpoint_urls() {
    let p = policy(3, &["https://corsproxy.io/?"]);
    let primary = "https://weather.gc.ca/rss/city/on-143_e.xml";
    assert_eq!(p.endpoint_url(primary, 0), primary);
    assert_eq!(
        p.endpoint_url(primary, 1),
        "https://corsproxy.io/?https://weather.gc.ca/rss/city/on-143_e.xml"
    );
}

#[test]
fn backoff_doubles() {
    assert_eq!(backoff(0), 1000);
    assert_eq!(backoff(1), 2000);
    assert_eq!(backoff(3), 8000);
    assert_eq!(backoff(40), 1_099_511_627_776_000);
    assert_eq!(backoff(u32::MAX), 1_099_511_627_776_000);
}
