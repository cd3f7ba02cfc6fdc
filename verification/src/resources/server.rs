//! Server operations: one verb and one path for each.

use vstd::prelude::*;
use crate::client::{trim_leading_slashes, url_of, Client, Method, RequestEnvelope};
use crate::constants::API_VERSION;
use crate::error::SdkError;
use crate::resources::wait::StateWait;
use crate::types::server::{
    CreateServerResponse, GetServerDetailsResponse, GetServerResponse, ServerDetails, ServerList,
};

verus! {

/// Path of the server collection.
pub open spec fn servers_path() -> Seq<char> {
    "/server"@
}

/// Path of the server `uuid`.
pub open spec fn server_path(uuid: Seq<char>) -> Seq<char> {
    "/server/"@ + uuid
}

/// Path of one of the actions `start`, `stop` and `restart` on a server.
pub open spec fn server_action_path(uuid: Seq<char>, action: Seq<char>) -> Seq<char> {
    "/server/"@ + uuid + "/"@ + action
}

/// Path that deletes a server together with its storages, and with their
/// backups if asked.
pub open spec fn server_with_storages_path(uuid: Seq<char>, delete_backups: bool) -> Seq<char> {
    if delete_backups {
        "/server/"@ + uuid + "/?storages=1&backups=delete"@
    } else {
        "/server/"@ + uuid + "/?storages=1"@
    }
}

/// Writes the path of the server `uuid`.
pub fn path_of_server(uuid: &str) -> (path: String)
    ensures
        path@ == server_path(uuid@),
{
    let mut path = String::from_str("/server/");
    path.append(uuid);
    path
}

/// Writes the path of an action on the server `uuid`.
pub fn path_of_server_action(uuid: &str, action: &str) -> (path: String)
    ensures
        path@ == server_action_path(uuid@, action@),
{
    let mut path = path_of_server(uuid);
    path.append("/");
    path.append(action);
    path
}

/// Writes the path that deletes the server `uuid` with its storages.
pub fn path_of_server_with_storages(uuid: &str, delete_backups: bool) -> (path: String)
    ensures
        path@ == server_with_storages_path(uuid@, delete_backups),
{
    let mut path = path_of_server(uuid);
    if delete_backups {
        path.append("/?storages=1&backups=delete");
    } else {
        path.append("/?storages=1");
    }
    path
}

/// Turns the outcome of decoding a payload into the outcome of the call: a
/// decoded value is passed on, a failure to decode becomes a `SerdeError`
/// around what the decoder reported.
pub fn decoded<T>(parsed: Result<T, serde_json::Error>) -> (outcome: Result<T, SdkError>)
    ensures
        parsed matches Ok(value) ==> outcome == Ok::<T, SdkError>(value),
        parsed matches Err(error) ==> outcome == Err::<T, SdkError>(SdkError::SerdeError(error)),
{
    match parsed {
        Ok(value) => Ok(value),
        Err(error) => Err(SdkError::SerdeError(error)),
    }
}

/// Outcome of a list call: the servers inside the decoded envelope.
pub fn listed_servers(parsed: Result<GetServerResponse, serde_json::Error>) -> (outcome: Result<
    ServerList,
    SdkError,
>)
    ensures
        parsed matches Ok(envelope) ==> outcome == Ok::<ServerList, SdkError>(envelope.servers),
        parsed matches Err(error) ==> outcome == Err::<ServerList, SdkError>(
            SdkError::SerdeError(error),
        ),
{
    match parsed {
        Ok(envelope) => Ok(envelope.servers),
        Err(error) => Err(SdkError::SerdeError(error)),
    }
}

/// Outcome of a details call: the server inside the decoded envelope.
pub fn fetched_server(parsed: Result<GetServerDetailsResponse, serde_json::Error>) -> (outcome:
    Result<ServerDetails, SdkError>)
    ensures
        parsed matches Ok(envelope) ==> outcome == Ok::<ServerDetails, SdkError>(envelope.server),
        parsed matches Err(error) ==> outcome == Err::<ServerDetails, SdkError>(
            SdkError::SerdeError(error),
        ),
{
    match parsed {
        Ok(envelope) => Ok(envelope.server),
        Err(error) => Err(SdkError::SerdeError(error)),
    }
}

/// Outcome of a create call: the server inside the decoded envelope.
pub fn created_server(parsed: Result<CreateServerResponse, serde_json::Error>) -> (outcome: Result<
    ServerDetails,
    SdkError,
>)
    ensures
        parsed matches Ok(envelope) ==> outcome == Ok::<ServerDetails, SdkError>(envelope.server),
        parsed matches Err(error) ==> outcome == Err::<ServerDetails, SdkError>(
            SdkError::SerdeError(error),
        ),
{
    match parsed {
        Ok(envelope) => Ok(envelope.server),
        Err(error) => Err(SdkError::SerdeError(error)),
    }
}

/// Outcome of a delete call: success or the failure, the payload dropped.
pub fn deleted(raw: Result<String, SdkError>) -> (outcome: Result<(), SdkError>)
    ensures
        raw is Ok ==> outcome is Ok,
        raw matches Err(error) ==> outcome == Err::<(), SdkError>(error),
{
    match raw {
        Ok(_) => Ok(()),
        Err(error) => Err(error),
    }
}

impl Client {
    /// Lists the servers: `GET /server`.
    pub fn list_servers(&self) -> (req: RequestEnvelope)
        ensures
            req@ == self.call(Method::Get, servers_path(), None),
    {
        self.get("/server")
    }

    /// Reads one server: `GET /server/{uuid}`.
    pub fn get_server(&self, uuid: &str) -> (req: RequestEnvelope)
        ensures
            req@ == self.call(Method::Get, server_path(uuid@), None),
    {
        let path = path_of_server(uuid);
        self.get(path.as_str())
    }

    /// Creates a server: `POST /server` with the encoded request as body.
    pub fn create_server(&self, body: String) -> (req: RequestEnvelope)
        ensures
            req@ == self.call(Method::Post, servers_path(), Some(body)),
    {
        self.post("/server", Some(body))
    }

    /// Starts a server: `POST /server/{uuid}/start`.
    pub fn start_server(&self, uuid: &str, body: String) -> (req: RequestEnvelope)
        ensures
            req@ == self.call(Method::Post, server_action_path(uuid@, "start"@), Some(body)),
    {
        let path = path_of_server_action(uuid, "start");
        self.post(path.as_str(), Some(body))
    }

    /// Stops a server: `POST /server/{uuid}/stop`.
    pub fn stop_server(&self, uuid: &str, body: String) -> (req: RequestEnvelope)
        ensures
            req@ == self.call(Method::Post, server_action_path(uuid@, "stop"@), Some(body)),
    {
        let path = path_of_server_action(uuid, "stop");
        self.post(path.as_str(), Some(body))
    }

    /// Restarts a server: `POST /server/{uuid}/restart`.
    pub fn restart_server(&self, uuid: &str, body: String) -> (req: RequestEnvelope)
        ensures
            req@ == self.call(Method::Post, server_action_path(uuid@, "restart"@), Some(body)),
    {
        let path = path_of_server_action(uuid, "restart");
        self.post(path.as_str(), Some(body))
    }

    /// Modifies a server: `PUT /server/{uuid}` with the encoded changes.
    pub fn modify_server(&self, uuid: &str, body: String) -> (req: RequestEnvelope)
        ensures
            req@ == self.call(Method::Put, server_path(uuid@), Some(body)),
    {
        let path = path_of_server(uuid);
        self.put(path.as_str(), Some(body))
    }

    /// Deletes a server and leaves its storages: `DELETE /server/{uuid}`.
    pub fn delete_server(&self, uuid: &str) -> (req: RequestEnvelope)
        ensures
            req@ == self.call(Method::Delete, server_path(uuid@), None),
    {
        let path = path_of_server(uuid);
        self.delete(path.as_str())
    }

    /// Deletes a server with its storages, and with their backups if asked:
    /// `DELETE /server/{uuid}/?storages=1`, with `&backups=delete` behind it.
    pub fn delete_server_and_storages(&self, uuid: &str, delete_backups: bool) -> (req:
        RequestEnvelope)
        ensures
            req@ == self.call(
                Method::Delete,
                server_with_storages_path(uuid@, delete_backups),
                None,
            ),
    {
        let path = path_of_server_with_storages(uuid, delete_backups);
        self.delete(path.as_str())
    }

    /// Sets up a wait for the server `uuid` to reach `desired_state` or to
    /// leave `undesired_state`, for at most `timeout_nanos` nanoseconds.
    pub fn wait_for_server_state(
        &self,
        uuid: &str,
        desired_state: Option<&str>,
        undesired_state: Option<&str>,
        timeout_nanos: u128,
    ) -> (wait: StateWait)
        ensures
            wait.uuid@ == uuid@,
            wait.timeout_nanos == timeout_nanos,
            desired_state is None <==> wait.desired_state is None,
            desired_state matches Some(state) ==> wait.desired_state->0@ == state@,
            undesired_state is None <==> wait.undesired_state is None,
            undesired_state matches Some(state) ==> wait.undesired_state->0@ == state@,
    {
        StateWait::new(uuid, desired_state, undesired_state, timeout_nanos)
    }
}

/// Every server path starts with exactly one slash, so its address is the
/// API root, a slash, and the path without that slash.
pub proof fn lemma_server_addresses(base: Seq<char>, uuid: Seq<char>, action: Seq<char>, flag: bool)
    ensures
        url_of(base, servers_path()) == base + seq!['/'] + API_VERSION@ + "/server"@,
        url_of(base, server_path(uuid)) == base + seq!['/'] + API_VERSION@ + "/server/"@ + uuid,
        url_of(base, server_action_path(uuid, action)) == base + seq!['/'] + API_VERSION@
            + "/server/"@ + uuid + "/"@ + action,
        url_of(base, server_with_storages_path(uuid, flag)) == base + seq!['/'] + API_VERSION@
            + "/server/"@ + uuid + (if flag {
            "/?storages=1&backups=delete"@
        } else {
            "/?storages=1"@
        }),
{
    reveal_strlit("/server");
    reveal_strlit("/server/");
    let head = base + seq!['/'] + API_VERSION@;
    lemma_after_one_slash(servers_path());
    lemma_after_one_slash(server_path(uuid));
    lemma_after_one_slash(server_action_path(uuid, action));
    lemma_after_one_slash(server_with_storages_path(uuid, flag));
    assert(head + seq!['/'] + servers_path().drop_first() =~= head + "/server"@);
    assert(head + seq!['/'] + server_path(uuid).drop_first() =~= head + "/server/"@ + uuid);
    assert(head + seq!['/'] + server_action_path(uuid, action).drop_first() =~= head + "/server/"@
        + uuid + "/"@ + action);
    assert(head + seq!['/'] + server_with_storages_path(uuid, flag).drop_first() =~= head
        + "/server/"@ + uuid + (if flag {
        "/?storages=1&backups=delete"@
    } else {
        "/?storages=1"@
    }));
}

/// A path that starts with `/s` loses exactly its first character when its
/// leading slashes are trimmed.
proof fn lemma_after_one_slash(path: Seq<char>)
    requires
        path.len() >= 2,
        path[0] == '/',
        path[1] == 's',
    ensures
        trim_leading_slashes(path) == path.drop_first(),
{
    assert(trim_leading_slashes(path.drop_first()) == path.drop_first());
}

} // verus!
