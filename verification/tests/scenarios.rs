use upcloud_sdk::client::{Client, Method, ResponseEnvelope};
use upcloud_sdk::config::Config;
use upcloud_sdk::error::SdkError;
use upcloud_sdk::resources::server::{created_server, decoded, deleted, fetched_server, listed_servers};
use upcloud_sdk::resources::wait::PollStep;
use upcloud_sdk::types::server::{
    CreateServerRequest, CreateServerResponse, CreateServerStorageDevice, GetServerDetailsResponse,
    GetServerResponse, Server, ServerDetails, ServerList, StartServerResponse,
};

const LISTING: &str = r#"{"servers":{"server":[{"core_number":"1","hostname":"fi.example.com","labels":{"label":[{"key":"env","value":"prod"}]},"license":0,"memory_amount":"2048","plan":"1xCPU-2GB","plan_ivp4_bytes":"34253332","plan_ipv6_bytes":"0","state":"started","tags":{"tag":["PROD","CentOS"]},"title":"Helsinki server","uuid":"00798b85-efdc-41ca-8021-f6ef457b8531","zone":"fi-hel1"},{"core_number":"1","hostname":"uk.example.com","labels":{"label":[]},"license":0,"memory_amount":"512","plan":"custom","state":"stopped","tags":{"tag":["DEV","Ubuntu"]},"title":"London server","uuid":"009d64ef-31d1-4684-a26b-c86c955cbf46","zone":"uk-lon1"}]}}"#;

fn text_of(value: &serde_json::Value, key: &str) -> String {
    value[key].as_str().unwrap().to_string()
}

fn server_of(value: &serde_json::Value) -> Server {
    let mut server = Server::default();
    server.hostname = text_of(value, "hostname");
    server.state = text_of(value, "state");
    server.title = text_of(value, "title");
    server.uuid = text_of(value, "uuid");
    server.zone = text_of(value, "zone");
    server
}

fn broken() -> serde_json::Error {
    serde_json::from_str::<serde_json::Value>("{\"servers\":").unwrap_err()
}

#[test]
fn test_list_servers() {
    let client = Client::with_config(Config::new("foo", "bar").with_base_url("http://127.0.0.1:1234"));
    let request = client.list_servers();
    assert_eq!(request.method(), Method::Get);
    assert_eq!(request.url(), "http://127.0.0.1:1234/1.3/server");
    assert_eq!(request.username(), "foo");
    assert_eq!(request.password(), "bar");

    let raw = ResponseEnvelope { status: 200, body: LISTING.to_string() }.classify().unwrap();
    assert_eq!(raw, LISTING);

    let parsed = serde_json::from_str::<serde_json::Value>(&raw).map(|value| GetServerResponse {
        servers: ServerList {
            server: value["servers"]["server"].as_array().unwrap().iter().map(server_of).collect(),
        },
    });
    let result = listed_servers(parsed).unwrap();
    assert_eq!(result.server.len(), 2);
    assert_eq!(result.server[0].uuid, "00798b85-efdc-41ca-8021-f6ef457b8531");
    assert_eq!(result.server[0].title, "Helsinki server");
    assert_eq!(result.server[1].uuid, "009d64ef-31d1-4684-a26b-c86c955cbf46");
    assert_eq!(result.server[1].title, "London server");
}

#[test]
fn refused_list_is_not_decoded() {
    let outcome = ResponseEnvelope { status: 401, body: LISTING.to_string() }.classify();
    match outcome {
        Err(SdkError::ApiError { status, message }) => {
            assert_eq!(status, 401);
            assert_eq!(message, LISTING);
        }
        other => panic!("unexpected outcome: {:?}", other),
    }
}

#[test]
fn undecodable_payload_is_a_decode_error() {
    assert!(matches!(listed_servers(Err(broken())), Err(SdkError::SerdeError(_))));
    assert!(matches!(fetched_server(Err(broken())), Err(SdkError::SerdeError(_))));
    assert!(matches!(created_server(Err(broken())), Err(SdkError::SerdeError(_))));
    assert!(matches!(decoded::<StartServerResponse>(Err(broken())), Err(SdkError::SerdeError(_))));
    let expected = format!("Serialization error: {}", broken());
    match listed_servers(Err(broken())) {
        Err(error) => assert_eq!(error.to_string(), expected),
        Ok(_) => panic!("a broken payload was accepted"),
    }
}

#[test]
fn envelopes_are_unwrapped() {
    let mut details = ServerDetails::default();
    details.server.uuid = "u-1".to_string();
    details.server.state = "started".to_string();
    details.server.hostname = "h".to_string();
    let got = fetched_server(Ok(GetServerDetailsResponse { server: details })).unwrap();
    assert_eq!(got.server.uuid, "u-1");
    assert_eq!(got.server.state, "started");
    assert_eq!(got.server.hostname, "h");

    let mut details = ServerDetails::default();
    details.server.uuid = "u-2".to_string();
    let got = created_server(Ok(CreateServerResponse { server: details })).unwrap();
    assert_eq!(got.server.uuid, "u-2");

    let mut details = ServerDetails::default();
    details.server.uuid = "u-3".to_string();
    let got = decoded(Ok(StartServerResponse { server: details })).unwrap();
    assert_eq!(got.server.server.uuid, "u-3");
}

#[test]
fn delete_reports_success_or_the_failure() {
    assert!(deleted(Ok(String::new())).is_ok());
    assert!(deleted(Ok("{\"ignored\":true}".to_string())).is_ok());
    let refused = SdkError::ApiError { status: 409, message: "server is started".to_string() };
    match deleted(Err(refused)) {
        Err(SdkError::ApiError { status, message }) => {
            assert_eq!(status, 409);
            assert_eq!(message, "server is started");
        }
        other => panic!("unexpected outcome: {:?}", other),
    }
    assert!(matches!(deleted(Err(SdkError::Timeout)), Err(SdkError::Timeout)));
}

#[test]
fn create_then_wait_for_started() {
    let client = Client::with_config(Config::new("foo", "bar").with_base_url("http://127.0.0.1:1234"));
    let request = CreateServerRequest::new()
        .with_zone("fi-hel1")
        .with_title("Helsinki server")
        .with_hostname("fi.example.com")
        .with_storage_device(CreateServerStorageDevice::from_template("tpl"))
        .build();
    assert!(request.server.networking.is_some());
    let create = client.create_server("{\"server\":{}}".to_string());
    assert_eq!(create.method(), Method::Post);
    assert_eq!(create.url(), "http://127.0.0.1:1234/1.3/server");

    let mut made = ServerDetails::default();
    made.server.uuid = "00798b85-efdc-41ca-8021-f6ef457b8531".to_string();
    made.server.state = "maintenance".to_string();
    let made = created_server(Ok(CreateServerResponse { server: made })).unwrap();
    assert_eq!(made.server.state, "maintenance");

    let wait =
        client.wait_for_server_state(&made.server.uuid, Some("started"), None, 300_000_000_000);
    assert!(matches!(wait.on_elapsed(1_000), PollStep::Fetch));
    let fetch = wait.fetch(&client);
    assert_eq!(fetch.method(), Method::Get);
    assert_eq!(
        fetch.url(),
        "http://127.0.0.1:1234/1.3/server/00798b85-efdc-41ca-8021-f6ef457b8531"
    );
    let mut seen = ServerDetails::default();
    seen.server.uuid = made.server.uuid.clone();
    seen.server.state = "started".to_string();
    let seen = fetched_server(Ok(GetServerDetailsResponse { server: seen }));
    match wait.on_fetched(seen) {
        PollStep::Done(details) => {
            assert_eq!(details.server.state, "started");
            assert_eq!(details.server.uuid, "00798b85-efdc-41ca-8021-f6ef457b8531");
        }
        other => panic!("unexpected step: {:?}", other),
    }
}

#[test]
fn test_get_server() {
    let client = Client::with_config(Config::new("foo", "bar").with_base_url("http://127.0.0.1:1234"));
    let request = client.get_server("009d64ef-31d1-4684-a26b-c86c955cbf46");
    assert_eq!(request.method(), Method::Get);
    assert_eq!(
        request.url(),
        "http://127.0.0.1:1234/1.3/server/009d64ef-31d1-4684-a26b-c86c955cbf46"
    );
    assert!(request.body().is_none());

    let mut details = ServerDetails::default();
    details.server.uuid = "009d64ef-31d1-4684-a26b-c86c955cbf46".to_string();
    details.server.title = "London server".to_string();
    details.server.state = "stopped".to_string();
    details.remote_access_enabled = true;
    let got = fetched_server(Ok(GetServerDetailsResponse { server: details })).unwrap();
    assert_eq!(got.server.uuid, "009d64ef-31d1-4684-a26b-c86c955cbf46");
    assert_eq!(got.server.title, "London server");
    assert_eq!(got.server.state, "stopped");
    assert!(got.remote_access_enabled);
}

#[test]
fn test_create_server() {
    let client = Client::with_config(Config::new("foo", "bar").with_base_url("http://127.0.0.1:1234"));
    let body = "{\"server\":{\"hostname\":\"fi.example.com\",\"title\":\"Helsinki server\",\"zone\":\"fi-hel1\"}}";
    let request = client.create_server(body.to_string());
    assert_eq!(request.method(), Method::Post);
    assert_eq!(request.url(), "http://127.0.0.1:1234/1.3/server");
    assert_eq!(request.body(), Some(body));
    assert_eq!(request.username(), "foo");
    assert_eq!(request.password(), "bar");

    let mut details = ServerDetails::default();
    details.server.uuid = "00798b85-efdc-41ca-8021-f6ef457b8531".to_string();
    details.server.hostname = "fi.example.com".to_string();
    details.server.state = "maintenance".to_string();
    let got = created_server(Ok(CreateServerResponse { server: details })).unwrap();
    assert_eq!(got.server.uuid, "00798b85-efdc-41ca-8021-f6ef457b8531");
    assert_eq!(got.server.hostname, "fi.example.com");
    assert_eq!(got.server.state, "maintenance");
}
