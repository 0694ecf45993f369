use engine_client::error::Error;
use engine_client::facade::clamp_count;
use engine_client::facade::over_time_window_response;
use engine_client::facade::top_domains_request;
use engine_client::not_found;
use engine_client::protocol::format_command;
use engine_client::protocol::is_sentinel;
use engine_client::protocol::sentinel;
use engine_client::session::conn_step;
use engine_client::session::resolve_round;
use engine_client::session::step_after_attempt;
use engine_client::session::AttemptOutcome;
use engine_client::session::ConnEvent;
use engine_client::session::ConnState;
use engine_client::session::NextStep;
use engine_client::session::Pool;
use engine_client::text::parse_u64;
use engine_client::text::u64_to_string;
use engine_client::Reply;

fn lines(xs: &[&str]) -> Vec<String> {
    let mut v: Vec<String> = Vec::new();
    for x in xs {
        v.push(x.to_string());
    }
    v
}

#[test]
fn window_synthesizes_missing_bucket_with_zero() {
    let raw = lines(&["100 7", "200 3", "400 9", "---EOM---"]);
    let r = over_time_window_response(&raw, 100, 500, 100).unwrap();
    assert_eq!(r.len(), 5);
    assert_eq!((r[0].timestamp, r[0].count), (100, 7));
    assert_eq!((r[1].timestamp, r[1].count), (200, 3));
    assert_eq!((r[2].timestamp, r[2].count), (300, 0));
    assert_eq!((r[3].timestamp, r[3].count), (400, 9));
    assert_eq!((r[4].timestamp, r[4].count), (500, 0));
}

#[test]
fn window_preserves_received_order_of_present_buckets() {
    let raw = lines(&["100 1", "300 2", "---EOM---"]);
    let r = over_time_window_response(&raw, 100, 300, 100).unwrap();
    let got: Vec<(u64, u64)> = r.iter().map(|p| (p.timestamp, p.count)).collect();
    assert_eq!(got, vec![(100, 1), (200, 0), (300, 2)]);
}

#[test]
fn retry_succeeds_when_retry_succeeds() {
    let reply = lines(&["example.com 50", "---EOM---"]);
    let r = resolve_round(AttemptOutcome::ConnectionLost, AttemptOutcome::Delivered(reply.clone()));
    assert_eq!(r.unwrap(), reply);
}

#[test]
fn failing_twice_yields_connection_error() {
    let r = resolve_round(AttemptOutcome::ConnectionLost, AttemptOutcome::ConnectionLost);
    assert_eq!(r.unwrap_err(), Error::Connection);
}

#[test]
fn timing_out_twice_yields_timeout() {
    let r = resolve_round(AttemptOutcome::TimedOut, AttemptOutcome::TimedOut);
    assert_eq!(r.unwrap_err(), Error::Timeout);
}

#[test]
fn first_success_needs_no_retry() {
    let reply = lines(&["queries 1", "---EOM---"]);
    let r = resolve_round(AttemptOutcome::Delivered(reply.clone()), AttemptOutcome::ConnectionLost);
    assert_eq!(r.unwrap(), reply);
}

#[test]
fn exactly_one_retry_is_granted() {
    assert_eq!(step_after_attempt(0, AttemptOutcome::ConnectionLost), NextStep::RetryOnce);
    assert_eq!(step_after_attempt(0, AttemptOutcome::TimedOut), NextStep::RetryOnce);
    assert_eq!(
        step_after_attempt(1, AttemptOutcome::ConnectionLost),
        NextStep::Fail(Error::Connection)
    );
    assert_eq!(step_after_attempt(1, AttemptOutcome::TimedOut), NextStep::Fail(Error::Timeout));
}

#[test]
fn pool_checkout_is_exclusive_until_checkin() {
    let mut pool = Pool::new(1);
    let (slot, live) = pool.checkout().unwrap();
    assert_eq!(slot, 0);
    assert!(!live);
    assert!(pool.checkout().is_none());
    pool.checkin(slot);
    let (slot2, live2) = pool.checkout().unwrap();
    assert_eq!(slot2, 0);
    assert!(live2);
}

#[test]
fn discarded_slot_is_replaced_lazily() {
    let mut pool = Pool::new(2);
    let (slot, _) = pool.checkout().unwrap();
    pool.discard(slot);
    let (again, live) = pool.checkout().unwrap();
    assert_eq!(again, slot);
    assert!(!live);
}

#[test]
fn connection_state_machine_walk() {
    let s = ConnState::Disconnected;
    let s = conn_step(s, ConnEvent::Dial);
    assert_eq!(s, ConnState::Connecting);
    let s = conn_step(s, ConnEvent::Connected);
    assert_eq!(s, ConnState::Ready);
    let s = conn_step(s, ConnEvent::Checkout);
    assert_eq!(s, ConnState::InUse);
    let s = conn_step(s, ConnEvent::ReplyDone);
    assert_eq!(s, ConnState::Ready);
    let s = conn_step(s, ConnEvent::IoFailed);
    assert_eq!(s, ConnState::Disconnected);
    assert_eq!(conn_step(s, ConnEvent::Checkout), ConnState::Disconnected);
}

#[test]
fn clamp_applies_default_and_maximum() {
    assert_eq!(clamp_count(None, 10, 100).unwrap(), 10);
    assert_eq!(clamp_count(Some(5), 10, 100).unwrap(), 5);
    assert_eq!(clamp_count(Some(1000), 10, 100).unwrap(), 100);
    assert_eq!(clamp_count(Some(0), 10, 100).unwrap_err(), Error::Validation);
}

#[test]
fn top_domains_request_frames_command() {
    let (cmd, n) = top_domains_request(Some(3), 10, 100, false).unwrap();
    assert_eq!(n, 3);
    assert_eq!(cmd, ">top-domains (3)");
    let (cmd, _) = top_domains_request(None, 10, 100, true).unwrap();
    assert_eq!(cmd, ">top-blocked (10)");
    assert_eq!(
        top_domains_request(Some(0), 10, 100, false).unwrap_err(),
        Error::Validation
    );
}

#[test]
fn command_framing_without_argument() {
    assert_eq!(format_command("status", None), ">status");
    assert_eq!(format_command("over-time", Some(0)), ">over-time (0)");
}

#[test]
fn sentinel_detection() {
    assert!(is_sentinel(sentinel()));
    assert!(is_sentinel("---EOM---"));
    assert!(!is_sentinel("---eom---"));
    assert!(!is_sentinel(""));
}

#[test]
fn decimal_parse_and_format() {
    assert_eq!(parse_u64("0"), Some(0));
    assert_eq!(parse_u64("12345"), Some(12345));
    assert_eq!(parse_u64(""), None);
    assert_eq!(parse_u64("12a"), None);
    assert_eq!(parse_u64("18446744073709551615"), Some(u64::MAX));
    assert_eq!(parse_u64("18446744073709551616"), None);
    assert_eq!(u64_to_string(0), "0");
    assert_eq!(u64_to_string(907), "907");
    assert_eq!(u64_to_string(u64::MAX), "18446744073709551615");
}

#[test]
fn unknown_operation_reply() {
    assert_eq!(not_found(), Reply::Failed(Error::NotFound));
    assert_eq!(Error::NotFound.tag(), "not_found");
    assert_eq!(Error::Parse.tag(), "parse");
}
