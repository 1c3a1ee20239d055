use meo_wifi::connections::Error as ConnectionError;
use meo_wifi::executor::continuous::{Continuous, DEFAULT_INTERVAL};
use meo_wifi::executor::reachability::{Reachability, ENDPOINTS, PROBE_TIMEOUT};
use meo_wifi::executor::reconnect::Reconnect;
use meo_wifi::executor::{Answer, Call, Error};
use meo_wifi::log::{error, info, Entry};
use meo_wifi::session::Error as SessionError;

const TARGET: &str = "MEO-WiFi";

fn target() -> String {
    TARGET.to_string()
}

/// Runs a supervisor against a host that gives these answers, and returns the calls
/// that the supervisor named, the notes for the log, and the supervisor itself.
fn run(answers: Vec<Answer>) -> (Vec<Call>, Vec<Entry>, Continuous) {
    let mut supervisor = Continuous::new(TARGET);
    let mut calls = Vec::new();
    let mut notes = Vec::new();
    for answer in answers {
        calls.push(supervisor.pending().expect("the supervisor had stopped"));
        notes.extend(supervisor.notes(&answer));
        supervisor = supervisor.advance(answer).expect("the answer was refused");
    }
    (calls, notes, supervisor)
}

/// The answers of a host on which the target is up and the session logged in, from
/// the capture of the original connection to the end of the first pass.
fn healthy_pass(original: Option<&str>) -> Vec<Answer> {
    vec![
        Answer::Active(original.map(|name| name.to_string())),
        Answer::Active(Some(target())),
        Answer::Connected(true),
        Answer::Logged(true),
    ]
}

#[test]
fn supervisor_begins_by_capturing_the_original_connection() {
    let supervisor = Continuous::new(TARGET);
    assert_eq!(supervisor.pending(), Some(Call::Active));
    assert_eq!(supervisor.outcome(), None);
    assert_eq!(DEFAULT_INTERVAL, 60);
}

#[test]
fn healthy_cycle_sleeps_and_starts_over() {
    let mut answers = healthy_pass(Some("Wired"));
    answers.push(Answer::Reached(true));
    let (calls, _, supervisor) = run(answers);
    assert_eq!(
        calls,
        vec![Call::Active, Call::Active, Call::IsConnected(target()), Call::IsLogged, Call::Probe]
    );
    assert_eq!(supervisor.pending(), Some(Call::Sleep(60)));
    let supervisor = supervisor.advance(Answer::Slept).expect("the answer was refused");
    assert_eq!(supervisor.pending(), Some(Call::Active));
    assert_eq!(supervisor.outcome(), None);
}

#[test]
fn interval_can_be_chosen() {
    let mut supervisor = Continuous::new(TARGET).with_interval(5);
    let mut answers = healthy_pass(None);
    answers.push(Answer::Reached(true));
    for answer in answers {
        supervisor = supervisor.advance(answer).expect("the answer was refused");
    }
    assert_eq!(supervisor.pending(), Some(Call::Sleep(5)));
}

#[test]
fn recovery_that_helps_leads_to_idle() {
    let mut answers = healthy_pass(Some("Wired"));
    answers.extend(vec![
        Answer::Reached(false),
        Answer::Session(Ok(())),
        Answer::Active(Some(target())),
        Answer::Connection(Ok(())),
        Answer::Connection(Ok(())),
        Answer::Session(Ok(())),
        Answer::Reached(true),
    ]);
    let (calls, notes, supervisor) = run(answers);
    assert_eq!(
        calls[4..],
        [
            Call::Probe,
            Call::Logout,
            Call::Active,
            Call::Disconnect(target()),
            Call::Connect(target()),
            Call::Login,
            Call::Probe,
        ]
    );
    assert_eq!(supervisor.pending(), Some(Call::Sleep(60)));
    assert_eq!(supervisor.outcome(), None);
    let reconnects = notes.iter().filter(|note| **note == info("Connection reconnected")).count();
    assert_eq!(reconnects, 1);
    assert_eq!(calls.iter().filter(|call| **call == Call::Logout).count(), 1);
    assert!(notes.contains(&info("No internet connection, attempting to reconnect")));
    assert!(notes.contains(&info("Login attempt completed")));
}

#[test]
fn recovery_that_does_not_help_restores_and_aborts() {
    let mut answers = healthy_pass(Some("Wired"));
    answers.extend(vec![
        Answer::Reached(false),
        Answer::Session(Ok(())),
        Answer::Active(Some(target())),
        Answer::Connection(Ok(())),
        Answer::Connection(Ok(())),
        Answer::Session(Ok(())),
        Answer::Reached(false),
    ]);
    let (_, _, supervisor) = run(answers);
    assert_eq!(supervisor.pending(), Some(Call::Connect("Wired".to_string())));
    let note = supervisor.notes(&Answer::Connection(Ok(())));
    let supervisor = supervisor.advance(Answer::Connection(Ok(()))).expect("the answer was refused");
    assert_eq!(note, vec![info("Original connection restored")]);
    assert_eq!(supervisor.pending(), None);
    assert_eq!(supervisor.outcome(), Some(Error::Connection(ConnectionError::NoInternet)));
    assert_eq!(supervisor.outcome().unwrap().to_string(), "No internet connection");
}

#[test]
fn failed_connect_restores_at_once() {
    let (calls, _, supervisor) = run(vec![
        Answer::Active(Some("Wired".to_string())),
        Answer::Active(None),
        Answer::Connected(false),
        Answer::Connection(Err(ConnectionError::Unavailable)),
    ]);
    assert_eq!(
        calls,
        vec![Call::Active, Call::Active, Call::IsConnected(target()), Call::Connect(target())]
    );
    assert!(!calls.contains(&Call::Probe));
    assert!(!calls.contains(&Call::Logout));
    assert_eq!(supervisor.pending(), Some(Call::Connect("Wired".to_string())));
    let supervisor = supervisor.advance(Answer::Connection(Ok(()))).expect("the answer was refused");
    assert_eq!(supervisor.outcome(), Some(Error::Connection(ConnectionError::Unavailable)));
}

#[test]
fn restoration_without_original_disconnects_the_target() {
    let (_, _, supervisor) = run(vec![
        Answer::Active(None),
        Answer::Active(None),
        Answer::Connected(true),
        Answer::Logged(false),
        Answer::Session(Err(SessionError::InvalidIp)),
    ]);
    assert_eq!(supervisor.pending(), Some(Call::Disconnect(target())));
    let supervisor = supervisor.advance(Answer::Connection(Ok(()))).expect("the answer was refused");
    assert_eq!(supervisor.outcome(), Some(Error::Session(SessionError::InvalidIp)));
}

#[test]
fn restoration_uses_the_connection_captured_at_the_start() {
    // By the time of the failure another connection is active; the one named first counts.
    let (calls, _, supervisor) = run(vec![
        Answer::Active(Some("Wired".to_string())),
        Answer::Active(Some("Guest".to_string())),
        Answer::Connection(Err(ConnectionError::Unavailable)),
    ]);
    assert_eq!(calls[2], Call::Disconnect("Guest".to_string()));
    assert_eq!(supervisor.pending(), Some(Call::Connect("Wired".to_string())));
}

#[test]
fn failed_restoration_is_reported_in_place_of_the_failure() {
    let (_, notes, supervisor) = run(vec![
        Answer::Active(Some("Wired".to_string())),
        Answer::Active(None),
        Answer::Connected(false),
        Answer::Connection(Err(ConnectionError::Unavailable)),
        Answer::Connection(Err(ConnectionError::AlreadyActive)),
    ]);
    assert_eq!(supervisor.pending(), None);
    assert_eq!(supervisor.outcome(), Some(Error::Connection(ConnectionError::AlreadyActive)));
    assert!(!notes.contains(&info("Original connection restored")));
}

#[test]
fn exactly_one_restoration_attempt() {
    let (calls, _, supervisor) = run(vec![
        Answer::Active(Some("Wired".to_string())),
        Answer::Active(None),
        Answer::Connected(false),
        Answer::Connection(Err(ConnectionError::Unavailable)),
        Answer::Connection(Err(ConnectionError::Unavailable)),
    ]);
    let restorations =
        calls.iter().filter(|call| **call == Call::Connect("Wired".to_string())).count();
    assert_eq!(restorations, 1);
    assert_eq!(calls.last(), Some(&Call::Connect("Wired".to_string())));
    assert!(supervisor.advance(Answer::Connection(Ok(()))).is_err());
}

#[test]
fn recovery_ignores_failed_logout_and_login() {
    let mut answers = healthy_pass(None);
    answers.extend(vec![
        Answer::Reached(false),
        Answer::Session(Err(SessionError::Custom("failed to logout".to_string()))),
        Answer::Active(Some(target())),
        Answer::Connection(Ok(())),
        Answer::Connection(Ok(())),
        Answer::Session(Err(SessionError::AlreadyLoggedIn)),
        Answer::Reached(true),
    ]);
    let (_, notes, supervisor) = run(answers);
    assert_eq!(supervisor.pending(), Some(Call::Sleep(60)));
    assert!(notes.contains(&error("Custom error: failed to logout")));
    assert!(notes.contains(&error("User is already logged in.")));
    assert!(notes.contains(&info("Login attempt completed")));
}

#[test]
fn recovery_is_not_entered_when_the_internet_is_reachable() {
    let mut answers = healthy_pass(None);
    answers.push(Answer::Reached(true));
    let (calls, _, _) = run(answers);
    assert!(!calls.contains(&Call::Logout));
}

#[test]
fn recovery_is_entered_after_a_pass_and_a_failed_probe() {
    let mut answers = healthy_pass(None);
    answers.push(Answer::Reached(false));
    let (_, _, supervisor) = run(answers);
    assert_eq!(supervisor.pending(), Some(Call::Logout));
}

#[test]
fn reconnect_without_active_connection_restores_and_aborts() {
    let mut answers = healthy_pass(Some("Wired"));
    answers.extend(vec![Answer::Reached(false), Answer::Session(Ok(())), Answer::Active(None)]);
    let (_, _, supervisor) = run(answers);
    assert_eq!(supervisor.pending(), Some(Call::Connect("Wired".to_string())));
    let supervisor = supervisor.advance(Answer::Connection(Ok(()))).expect("the answer was refused");
    assert_eq!(supervisor.outcome(), Some(Error::Connection(ConnectionError::Unavailable)));
}

#[test]
fn reconnect_takes_down_and_brings_up_the_same_connection() {
    let mut reconnect = Reconnect::new();
    assert_eq!(reconnect.pending(), Some(Call::Active));
    reconnect = reconnect.advance(Answer::Active(Some("Wired".to_string()))).expect("refused");
    assert_eq!(reconnect.pending(), Some(Call::Disconnect("Wired".to_string())));
    reconnect = reconnect.advance(Answer::Connection(Ok(()))).expect("refused");
    assert_eq!(reconnect.pending(), Some(Call::Connect("Wired".to_string())));
    reconnect = reconnect.advance(Answer::Connection(Ok(()))).expect("refused");
    assert_eq!(reconnect.pending(), None);
    assert_eq!(reconnect.outcome(), Some(Ok(())));
}

#[test]
fn reconnect_fails_with_the_failure_of_its_step() {
    let reconnect = Reconnect::new()
        .advance(Answer::Active(Some("Wired".to_string())))
        .expect("refused")
        .advance(Answer::Connection(Err(ConnectionError::AlreadyActive)))
        .expect("refused");
    assert_eq!(reconnect.outcome(), Some(Err(ConnectionError::AlreadyActive)));
    let none = Reconnect::new().advance(Answer::Active(None)).expect("refused");
    assert_eq!(none.outcome(), Some(Err(ConnectionError::Unavailable)));
    assert!(Reconnect::new().advance(Answer::Slept).is_err());
}

#[test]
fn supervisor_refuses_an_answer_of_the_wrong_kind() {
    let supervisor = Continuous::new(TARGET);
    assert!(!supervisor.accepts(&Answer::Reached(true)));
    let supervisor = supervisor.advance(Answer::Reached(true)).expect_err("the answer was taken");
    assert_eq!(supervisor.pending(), Some(Call::Active));
}

#[test]
fn call_admits_the_answers_of_its_kind() {
    assert!(Call::Active.admits(&Answer::Active(None)));
    assert!(Call::Connect(target()).admits(&Answer::Connection(Ok(()))));
    assert!(Call::Disconnect(target()).admits(&Answer::Connection(Ok(()))));
    assert!(Call::IsConnected(target()).admits(&Answer::Connected(true)));
    assert!(Call::IsLogged.admits(&Answer::Logged(false)));
    assert!(Call::Login.admits(&Answer::Session(Ok(()))));
    assert!(Call::Logout.admits(&Answer::Session(Ok(()))));
    assert!(Call::Probe.admits(&Answer::Reached(true)));
    assert!(Call::Sleep(1).admits(&Answer::Slept));
    assert!(!Call::Probe.admits(&Answer::Slept));
    assert_eq!(Call::Sleep(7).clone(), Call::Sleep(7));
}

#[test]
fn probe_stops_at_the_first_endpoint_that_answers() {
    assert_eq!(ENDPOINTS, ["1.1.1.1:80", "8.8.8.8:53", "google.com:80"]);
    assert_eq!(PROBE_TIMEOUT, 100);
    let probe = Reachability::new();
    assert_eq!(probe.pending(), Some("1.1.1.1:80"));
    assert_eq!(probe.verdict(), None);
    let probe = probe.advance(false);
    assert_eq!(probe.pending(), Some("8.8.8.8:53"));
    let reached = probe.advance(true);
    assert_eq!(reached.pending(), None);
    assert_eq!(reached.verdict(), Some(true));
    assert_eq!(reached.advance(false).verdict(), Some(true));
    let probe = probe.advance(false);
    assert_eq!(probe.pending(), Some("google.com:80"));
    let unreachable = probe.advance(false);
    assert_eq!(unreachable.pending(), None);
    assert_eq!(unreachable.verdict(), Some(false));
    assert_eq!(Reachability::new().advance(true).verdict(), Some(true));
    assert_eq!(Reachability::Trying(9).pending(), None);
}
