use std::collections::VecDeque;

use bounded_fetch::driver::{Action, ConfigError, Driver, Event, Limit, RunError};
use bounded_fetch::source::is_url_line_exec;

/// What a simulated run did.
struct Trace {
    started: Vec<String>,
    max_in_flight: usize,
    outcome: Result<(), RunError>,
}

/// Drives a run over `lines`, finishing fetches oldest first. A URL in
/// `failing` fails; every other one succeeds.
fn simulate(limit: Limit, lines: &[&str], failing: &[&str]) -> Trace {
    let mut driver = Driver::new(limit).expect("valid limit");
    let mut input = lines.iter();
    let mut in_flight: VecDeque<String> = VecDeque::new();
    let mut started = Vec::new();
    let mut max_in_flight = 0;
    loop {
        match driver.next_action() {
            Action::PullLine => {
                let event = match input.next() {
                    Some(line) => Event::Line(line.to_string()),
                    None => Event::SourceEnd,
                };
                if let Some(url) = driver.step(event) {
                    started.push(url.clone());
                    in_flight.push_back(url);
                }
            }
            Action::AwaitFetch => {
                let url = in_flight.pop_front().expect("a fetch is in flight");
                let event = if failing.contains(&url.as_str()) {
                    Event::FetchErr(format!("fetching {url} failed"))
                } else {
                    Event::FetchOk
                };
                driver.step(event);
            }
            Action::Finished(outcome) => {
                return Trace { started, max_in_flight, outcome };
            }
        }
        assert_eq!(driver.in_flight(), in_flight.len());
        max_in_flight = max_in_flight.max(in_flight.len());
    }
}

const SCENARIO: [&str; 4] = ["http://a.test", "# skip", "", "http://b.test"];

#[test]
fn scenario_sequential_fetches_two_urls_in_order() {
    let trace = simulate(Limit::Sequential, &SCENARIO, &[]);
    assert_eq!(trace.started, vec!["http://a.test", "http://b.test"]);
    assert_eq!(trace.max_in_flight, 1);
    assert!(trace.outcome.is_ok());
}

#[test]
fn scenario_unbounded_fetches_two_urls_together() {
    let trace = simulate(Limit::Unbounded, &SCENARIO, &[]);
    assert_eq!(trace.started, vec!["http://a.test", "http://b.test"]);
    assert_eq!(trace.max_in_flight, 2);
    assert!(trace.outcome.is_ok());
}

#[test]
fn scenario_bounded_ten_fetches_two_urls() {
    let trace = simulate(Limit::Bounded(10), &SCENARIO, &[]);
    assert_eq!(trace.started, vec!["http://a.test", "http://b.test"]);
    assert!(trace.outcome.is_ok());
}

#[test]
fn sequential_matches_bounded_one() {
    let lines = ["http://x.test", "#c", "http://y.test", "http://z.test"];
    for failing in [&[][..], &["http://y.test"][..]] {
        let a = simulate(Limit::Sequential, &lines, failing);
        let b = simulate(Limit::Bounded(1), &lines, failing);
        assert_eq!(a.started, b.started);
        assert_eq!(a.max_in_flight, 1);
        assert_eq!(b.max_in_flight, 1);
        assert_eq!(a.outcome.is_ok(), b.outcome.is_ok());
    }
}

#[test]
fn filter_skips_blank_and_comment_lines() {
    assert!(!is_url_line_exec(""));
    assert!(!is_url_line_exec("#"));
    assert!(!is_url_line_exec("# http://a.test"));
    assert!(is_url_line_exec("http://a.test"));
    assert!(is_url_line_exec(" #not a comment"));
    assert!(is_url_line_exec("x"));
}

#[test]
fn non_url_line_starts_no_fetch() {
    let mut driver = Driver::new(Limit::Unbounded).unwrap();
    assert!(driver.step(Event::Line("#comment".to_string())).is_none());
    assert!(driver.step(Event::Line(String::new())).is_none());
    assert_eq!(driver.in_flight(), 0);
    assert_eq!(driver.step(Event::Line("u".to_string())), Some("u".to_string()));
    assert_eq!(driver.in_flight(), 1);
}

#[test]
fn failing_fetch_fails_the_run_and_stops_dispatch() {
    let lines = ["http://1.test", "http://2.test", "http://3.test", "http://4.test"];
    let trace = simulate(Limit::Sequential, &lines, &["http://2.test"]);
    assert_eq!(trace.started, vec!["http://1.test", "http://2.test"]);
    match trace.outcome {
        Err(RunError::Fetch(m)) => assert_eq!(m, "fetching http://2.test failed"),
        other => panic!("unexpected outcome {other:?}"),
    }
}

#[test]
fn first_failure_is_kept() {
    let mut driver = Driver::new(Limit::Unbounded).unwrap();
    driver.step(Event::Line("a".to_string()));
    driver.step(Event::Line("b".to_string()));
    driver.step(Event::FetchErr("first".to_string()));
    driver.step(Event::FetchErr("second".to_string()));
    match driver.next_action() {
        Action::Finished(Err(RunError::Fetch(m))) => assert_eq!(m, "first"),
        other => panic!("unexpected action {other:?}"),
    }
}

#[test]
fn failure_does_not_wait_for_fetches_in_flight() {
    let mut driver = Driver::new(Limit::Unbounded).unwrap();
    driver.step(Event::Line("a".to_string()));
    driver.step(Event::Line("b".to_string()));
    driver.step(Event::Line("c".to_string()));
    driver.step(Event::FetchErr("b failed".to_string()));
    assert_eq!(driver.in_flight(), 2);
    assert!(matches!(driver.next_action(), Action::Finished(Err(RunError::Fetch(_)))));
}

#[test]
fn read_error_fails_the_run() {
    let mut driver = Driver::new(Limit::Bounded(3)).unwrap();
    driver.step(Event::Line("a".to_string()));
    driver.step(Event::SourceError("invalid UTF-8".to_string()));
    match driver.next_action() {
        Action::Finished(Err(RunError::Read(m))) => assert_eq!(m, "invalid UTF-8"),
        other => panic!("unexpected action {other:?}"),
    }
}

#[test]
fn cap_is_respected() {
    let lines: Vec<String> = (0..25).map(|i| format!("http://h{i}.test")).collect();
    let refs: Vec<&str> = lines.iter().map(|s| s.as_str()).collect();
    for n in [1usize, 2, 3, 10] {
        let trace = simulate(Limit::Bounded(n), &refs, &[]);
        assert_eq!(trace.max_in_flight, n);
        assert_eq!(trace.started.len(), 25);
        assert!(trace.outcome.is_ok());
    }
    let trace = simulate(Limit::Unbounded, &refs, &[]);
    assert_eq!(trace.max_in_flight, 25);
}

#[test]
fn full_cap_waits_then_resumes() {
    let mut driver = Driver::new(Limit::Bounded(2)).unwrap();
    assert!(matches!(driver.next_action(), Action::PullLine));
    driver.step(Event::Line("a".to_string()));
    assert!(matches!(driver.next_action(), Action::PullLine));
    driver.step(Event::Line("b".to_string()));
    assert!(matches!(driver.next_action(), Action::AwaitFetch));
    driver.step(Event::FetchOk);
    assert!(matches!(driver.next_action(), Action::PullLine));
}

#[test]
fn zero_limit_is_rejected() {
    assert!(matches!(Driver::new(Limit::Bounded(0)), Err(ConfigError::ZeroLimit)));
    assert!(Driver::new(Limit::Bounded(1)).is_ok());
    assert!(Driver::new(Limit::Bounded(usize::MAX)).is_ok());
}

#[test]
fn empty_input_fetches_nothing_and_succeeds() {
    for limit in [Limit::Sequential, Limit::Unbounded, Limit::Bounded(10)] {
        let trace = simulate(limit, &["", "# one", "#two", ""], &[]);
        assert!(trace.started.is_empty());
        assert!(trace.outcome.is_ok());
    }
    let trace = simulate(Limit::Bounded(4), &[], &[]);
    assert!(trace.started.is_empty());
    assert!(trace.outcome.is_ok());
}

#[test]
fn end_of_input_waits_for_fetches_in_flight() {
    let mut driver = Driver::new(Limit::Unbounded).unwrap();
    driver.step(Event::Line("a".to_string()));
    driver.step(Event::SourceEnd);
    assert!(matches!(driver.next_action(), Action::AwaitFetch));
    driver.step(Event::FetchOk);
    assert!(matches!(driver.next_action(), Action::Finished(Ok(()))));
}
