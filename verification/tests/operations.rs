use upcloud_sdk::client::{Client, Method};
use upcloud_sdk::config::Config;
use upcloud_sdk::resources::server::{
    path_of_server, path_of_server_action, path_of_server_with_storages,
};

const UUID: &str = "00798b85-efdc-41ca-8021-f6ef457b8531";

fn local_client() -> Client {
    Client::with_config(Config::new("foo", "bar").with_base_url("http://127.0.0.1:1234"))
}

#[test]
fn list_is_a_get_of_the_collection() {
    let req = local_client().list_servers();
    assert_eq!(req.method(), Method::Get);
    assert_eq!(req.url(), "http://127.0.0.1:1234/1.3/server");
    assert_eq!(req.username(), "foo");
    assert_eq!(req.password(), "bar");
    assert!(req.body().is_none());
}

#[test]
fn get_is_a_get_of_the_server() {
    let req = local_client().get_server(UUID);
    assert_eq!(req.method(), Method::Get);
    assert_eq!(
        req.url(),
        "http://127.0.0.1:1234/1.3/server/00798b85-efdc-41ca-8021-f6ef457b8531"
    );
    assert!(req.body().is_none());
}

#[test]
fn create_is_a_post_to_the_collection() {
    let req = local_client().create_server("{\"server\":{}}".to_string());
    assert_eq!(req.method(), Method::Post);
    assert_eq!(req.url(), "http://127.0.0.1:1234/1.3/server");
    assert_eq!(req.body(), Some("{\"server\":{}}"));
    assert_eq!(req.username(), "foo");
    assert_eq!(req.password(), "bar");
}

#[test]
fn start_stop_restart_are_posts_to_their_action() {
    let client = local_client();
    let start = client.start_server(UUID, "{}".to_string());
    assert_eq!(start.method(), Method::Post);
    assert_eq!(
        start.url(),
        "http://127.0.0.1:1234/1.3/server/00798b85-efdc-41ca-8021-f6ef457b8531/start"
    );
    assert_eq!(start.body(), Some("{}"));
    let stop = client.stop_server(UUID, "{\"stop_type\":\"soft\"}".to_string());
    assert_eq!(stop.method(), Method::Post);
    assert_eq!(
        stop.url(),
        "http://127.0.0.1:1234/1.3/server/00798b85-efdc-41ca-8021-f6ef457b8531/stop"
    );
    assert_eq!(stop.body(), Some("{\"stop_type\":\"soft\"}"));
    let restart = client.restart_server(UUID, "{}".to_string());
    assert_eq!(restart.method(), Method::Post);
    assert_eq!(
        restart.url(),
        "http://127.0.0.1:1234/1.3/server/00798b85-efdc-41ca-8021-f6ef457b8531/restart"
    );
}

#[test]
fn modify_is_a_put_of_the_server() {
    let req = local_client().modify_server(UUID, "{\"title\":\"t\"}".to_string());
    assert_eq!(req.method(), Method::Put);
    assert_eq!(
        req.url(),
        "http://127.0.0.1:1234/1.3/server/00798b85-efdc-41ca-8021-f6ef457b8531"
    );
    assert_eq!(req.body(), Some("{\"title\":\"t\"}"));
}

#[test]
fn delete_is_a_delete_of_the_server() {
    let req = local_client().delete_server(UUID);
    assert_eq!(req.method(), Method::Delete);
    assert_eq!(
        req.url(),
        "http://127.0.0.1:1234/1.3/server/00798b85-efdc-41ca-8021-f6ef457b8531"
    );
    assert!(req.body().is_none());
}

#[test]
fn delete_with_storages_and_backups() {
    let req = local_client().delete_server_and_storages(UUID, true);
    assert_eq!(req.method(), Method::Delete);
    assert_eq!(
        req.url(),
        "http://127.0.0.1:1234/1.3/server/00798b85-efdc-41ca-8021-f6ef457b8531/?storages=1&backups=delete"
    );
    assert!(req.body().is_none());
    assert_eq!(req.username(), "foo");
    assert_eq!(req.password(), "bar");
}

#[test]
fn delete_with_storages_keeping_backups() {
    let req = local_client().delete_server_and_storages(UUID, false);
    assert_eq!(req.method(), Method::Delete);
    assert_eq!(
        req.url(),
        "http://127.0.0.1:1234/1.3/server/00798b85-efdc-41ca-8021-f6ef457b8531/?storages=1"
    );
}

#[test]
fn paths_start_with_one_slash() {
    assert_eq!(path_of_server("abc"), "/server/abc");
    assert_eq!(path_of_server(""), "/server/");
    assert_eq!(path_of_server_action("abc", "start"), "/server/abc/start");
    assert_eq!(path_of_server_with_storages("abc", true), "/server/abc/?storages=1&backups=delete");
    assert_eq!(path_of_server_with_storages("abc", false), "/server/abc/?storages=1");
}
