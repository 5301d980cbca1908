use playlist_migrate::request::Provider;
use playlist_migrate::waiter::LoginWaiter;
use playlist_migrate::waiter::WaitPolicy;
use playlist_migrate::waiter::WaitStep;

#[test]
fn never_seeing_a_code_times_out_after_budget() {
    let policy = WaitPolicy::new(2, 150);
    let mut w = LoginWaiter::new(Provider::Deezer, policy);
    let mut slept: u64 = 0;
    for _ in 0..150 {
        match w.poll(false) {
            WaitStep::Sleep(s) => slept += s as u64,
            other => panic!("unexpected step {:?}", other),
        }
    }
    assert_eq!(w.poll(false), WaitStep::TimedOut);
    assert_eq!(w.poll(false), WaitStep::TimedOut);
    assert_eq!(slept, 300);
    assert_eq!(policy.timeout_secs(), 300);
}

#[test]
fn timeout_message_names_provider_and_duration() {
    let w = LoginWaiter::new(Provider::Deezer, WaitPolicy::standard());
    assert_eq!(w.timeout_message(), "[300s timeout] Failed to login to Deezer");
    let w = LoginWaiter::new(Provider::Spotify, WaitPolicy::new(10, 12));
    assert_eq!(w.timeout_message(), "[120s timeout] Failed to login to Spotify");
}

#[test]
fn code_seen_proceeds() {
    let mut w = LoginWaiter::new(Provider::Spotify, WaitPolicy::new(10, 12));
    assert_eq!(w.poll(false), WaitStep::Sleep(10));
    assert_eq!(w.poll(true), WaitStep::Proceed);
}

#[test]
fn zero_attempts_times_out_at_once() {
    let mut w = LoginWaiter::new(Provider::Spotify, WaitPolicy::new(10, 0));
    assert_eq!(w.poll(false), WaitStep::TimedOut);
    assert_eq!(w.poll(true), WaitStep::Proceed);
}

#[test]
fn standard_policy_is_five_minutes() {
    let p = WaitPolicy::standard();
    assert_eq!(p.interval_secs, 2);
    assert_eq!(p.max_attempts, 150);
    assert_eq!(p.timeout_secs(), 300);
}
