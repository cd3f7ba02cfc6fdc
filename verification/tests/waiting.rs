use upcloud_sdk::client::{Client, Method};
use upcloud_sdk::config::Config;
use upcloud_sdk::error::SdkError;
use upcloud_sdk::resources::wait::{PollStep, StateWait, POLL_INTERVAL_NANOS, POLL_INTERVAL_SECS};
use upcloud_sdk::types::server::{
    ServerDetails, SERVER_STATE_ERROR, SERVER_STATE_MAINTENANCE, SERVER_STATE_STARTED,
    SERVER_STATE_STOPPED,
};

const UUID: &str = "00798b85-efdc-41ca-8021-f6ef457b8531";

const SECOND: u128 = 1_000_000_000;

fn snapshot(state: &str) -> ServerDetails {
    let mut details = ServerDetails::default();
    details.server.uuid = UUID.to_string();
    details.server.state = state.to_string();
    details
}

fn local_client() -> Client {
    Client::with_config(Config::new("foo", "bar").with_base_url("http://127.0.0.1:1234"))
}

#[test]
fn interval_is_five_seconds() {
    assert_eq!(POLL_INTERVAL_SECS, 5);
    assert_eq!(POLL_INTERVAL_NANOS, 5 * SECOND);
}

#[test]
fn desired_state_at_once_returns_without_sleep() {
    let wait = StateWait::new(UUID, Some(SERVER_STATE_STARTED), None, 300 * SECOND);
    assert!(matches!(wait.on_elapsed(0), PollStep::Fetch));
    match wait.on_fetched(Ok(snapshot("started"))) {
        PollStep::Done(details) => {
            assert_eq!(details.server.state, "started");
            assert_eq!(details.server.uuid, UUID);
        }
        other => panic!("unexpected step: {:?}", other),
    }
}

#[test]
fn short_wait_times_out_after_one_sleep() {
    let wait = StateWait::new(UUID, Some(SERVER_STATE_STARTED), None, SECOND);
    assert!(matches!(wait.on_elapsed(10), PollStep::Fetch));
    match wait.on_fetched(Ok(snapshot("maintenance"))) {
        PollStep::Sleep { secs } => assert_eq!(secs, 5),
        other => panic!("unexpected step: {:?}", other),
    }
    assert!(matches!(
        wait.on_elapsed(10 + POLL_INTERVAL_NANOS),
        PollStep::Failed(SdkError::Timeout)
    ));
}

#[test]
fn create_then_wait_returns_the_second_snapshot() {
    let client = local_client();
    let created = snapshot(SERVER_STATE_MAINTENANCE);
    let wait = client.wait_for_server_state(
        &created.server.uuid,
        Some(SERVER_STATE_STARTED),
        None,
        300 * SECOND,
    );
    assert_eq!(wait.uuid, UUID);
    assert_eq!(wait.desired_state.as_deref(), Some("started"));
    assert!(wait.undesired_state.is_none());
    assert_eq!(wait.timeout_nanos, 300 * SECOND);

    let fetch = wait.fetch(&client);
    assert_eq!(fetch.method(), Method::Get);
    assert_eq!(
        fetch.url(),
        "http://127.0.0.1:1234/1.3/server/00798b85-efdc-41ca-8021-f6ef457b8531"
    );

    assert!(matches!(wait.on_elapsed(0), PollStep::Fetch));
    assert!(matches!(wait.on_fetched(Ok(created)), PollStep::Sleep { secs: 5 }));
    assert!(matches!(wait.on_elapsed(5 * SECOND), PollStep::Fetch));
    let mut second = snapshot(SERVER_STATE_STARTED);
    second.server.title = "second".to_string();
    match wait.on_fetched(Ok(second)) {
        PollStep::Done(details) => {
            assert_eq!(details.server.state, "started");
            assert_eq!(details.server.title, "second");
        }
        other => panic!("unexpected step: {:?}", other),
    }
}

#[test]
fn deadline_is_passed_only_beyond_the_timeout() {
    let wait = StateWait::new(UUID, Some("started"), None, 7 * SECOND);
    assert!(matches!(wait.on_elapsed(0), PollStep::Fetch));
    assert!(matches!(wait.on_elapsed(7 * SECOND - 1), PollStep::Fetch));
    assert!(matches!(wait.on_elapsed(7 * SECOND), PollStep::Fetch));
    assert!(matches!(wait.on_elapsed(7 * SECOND + 1), PollStep::Failed(SdkError::Timeout)));
    assert!(matches!(wait.on_elapsed(u128::MAX), PollStep::Failed(SdkError::Timeout)));
    let never = StateWait::new(UUID, Some("started"), None, 0);
    assert!(matches!(never.on_elapsed(0), PollStep::Fetch));
    assert!(matches!(never.on_elapsed(1), PollStep::Failed(SdkError::Timeout)));
}

#[test]
fn any_state_but_the_undesired_one_is_accepted() {
    let wait = StateWait::new(UUID, None, Some(SERVER_STATE_MAINTENANCE), 300 * SECOND);
    assert!(!wait.is_accepted(&"maintenance".to_string()));
    assert!(wait.is_accepted(&SERVER_STATE_STARTED.to_string()));
    assert!(wait.is_accepted(&SERVER_STATE_STOPPED.to_string()));
    assert!(wait.is_accepted(&SERVER_STATE_ERROR.to_string()));
    assert!(wait.is_accepted(&"never heard of".to_string()));
    assert!(wait.is_accepted(&String::new()));
    assert!(matches!(wait.on_fetched(Ok(snapshot("maintenance"))), PollStep::Sleep { secs: 5 }));
    assert!(matches!(wait.on_fetched(Ok(snapshot("error"))), PollStep::Done(_)));
}

#[test]
fn desired_state_decides_before_the_undesired_one() {
    let wait = StateWait::new(UUID, Some("started"), Some("started"), 300 * SECOND);
    assert!(wait.is_accepted(&"started".to_string()));
    assert!(wait.is_accepted(&"stopped".to_string()));
    let wait = StateWait::new(UUID, Some("started"), Some("maintenance"), 300 * SECOND);
    assert!(wait.is_accepted(&"started".to_string()));
    assert!(!wait.is_accepted(&"maintenance".to_string()));
    assert!(wait.is_accepted(&"stopped".to_string()));
}

#[test]
fn only_the_desired_state_is_accepted_when_it_stands_alone() {
    let wait = StateWait::new(UUID, Some("started"), None, 300 * SECOND);
    assert!(wait.is_accepted(&"started".to_string()));
    assert!(!wait.is_accepted(&"Started".to_string()));
    assert!(!wait.is_accepted(&"started ".to_string()));
    assert!(!wait.is_accepted(&"stopped".to_string()));
    assert!(!wait.is_accepted(&String::new()));
}

#[test]
fn without_any_state_the_wait_sleeps_until_the_deadline() {
    let wait = StateWait::new(UUID, None, None, 6 * SECOND);
    assert!(wait.desired_state.is_none());
    assert!(wait.undesired_state.is_none());
    assert!(!wait.is_accepted(&"started".to_string()));
    assert!(matches!(wait.on_elapsed(0), PollStep::Fetch));
    assert!(matches!(wait.on_fetched(Ok(snapshot("started"))), PollStep::Sleep { secs: 5 }));
    assert!(matches!(wait.on_elapsed(5 * SECOND), PollStep::Fetch));
    assert!(matches!(wait.on_fetched(Ok(snapshot("stopped"))), PollStep::Sleep { secs: 5 }));
    assert!(matches!(wait.on_elapsed(10 * SECOND), PollStep::Failed(SdkError::Timeout)));
}

#[test]
fn failed_read_ends_the_wait_with_its_error() {
    let wait = StateWait::new(UUID, Some("started"), None, 300 * SECOND);
    let refused = SdkError::ApiError { status: 404, message: "no such server".to_string() };
    match wait.on_fetched(Err(refused)) {
        PollStep::Failed(SdkError::ApiError { status, message }) => {
            assert_eq!(status, 404);
            assert_eq!(message, "no such server");
        }
        other => panic!("unexpected step: {:?}", other),
    }
    let broken = serde_json::from_str::<serde_json::Value>("{").unwrap_err();
    assert!(matches!(
        wait.on_fetched(Err(SdkError::from(broken))),
        PollStep::Failed(SdkError::SerdeError(_))
    ));
}
