//! Transport: how a request is addressed and authenticated, and how an answer
//! is classified.

use vstd::prelude::*;
use crate::config::Config;
use crate::constants::{API_BASE_URL, API_VERSION, USER_AGENT_PRODUCT, VERSION};
use crate::error::SdkError;

verus! {

/// HTTP verbs the API uses.
#[derive(Clone, Copy, Debug, PartialEq, Eq, Structural)]
pub enum Method {
    Get,
    Post,
    Put,
    Delete,
}

/// One prepared call: everything the transport needs to send it.
///
/// Only [`Client::request`] makes envelopes, so every envelope carries the
/// credentials of the client that made it.
pub struct RequestEnvelope {
    method: Method,
    url: String,
    username: String,
    password: String,
    body: Option<String>,
}

/// What an envelope holds.
pub struct Call {
    pub method: Method,
    pub url: Seq<char>,
    /// Basic-auth user name.
    pub username: Seq<char>,
    /// Basic-auth password.
    pub password: Seq<char>,
    /// JSON payload, when the call has one.
    pub body: Option<Seq<char>>,
}

impl View for RequestEnvelope {
    type V = Call;

    closed spec fn view(&self) -> Call {
        Call {
            method: self.method,
            url: self.url@,
            username: self.username@,
            password: self.password@,
            body: text_of(self.body),
        }
    }
}

/// The characters of an optional text.
pub open spec fn text_of(text: Option<String>) -> Option<Seq<char>> {
    match text {
        Some(text) => Some(text@),
        None => None,
    }
}

impl RequestEnvelope {
    /// The verb of the call.
    pub fn method(&self) -> (method: Method)
        ensures
            method == self@.method,
    {
        self.method
    }

    /// The address of the call.
    pub fn url(&self) -> (url: &str)
        ensures
            url@ == self@.url,
    {
        self.url.as_str()
    }

    /// The user name to authenticate with.
    pub fn username(&self) -> (username: &str)
        ensures
            username@ == self@.username,
    {
        self.username.as_str()
    }

    /// The password to authenticate with.
    pub fn password(&self) -> (password: &str)
        ensures
            password@ == self@.password,
    {
        self.password.as_str()
    }

    /// The JSON payload, when the call has one.
    pub fn body(&self) -> (body: Option<&str>)
        ensures
            body is None <==> self@.body is None,
            body matches Some(text) ==> self@.body == Some(text@),
    {
        match &self.body {
            Some(text) => Some(text.as_str()),
            None => None,
        }
    }
}

/// What came back for one call.
#[derive(Debug)]
pub struct ResponseEnvelope {
    pub status: u16,
    pub body: String,
}

/// `path` without the slashes it starts with.
pub open spec fn trim_leading_slashes(path: Seq<char>) -> Seq<char>
    decreases path.len(),
{
    if path.len() > 0 && path[0] == '/' {
        trim_leading_slashes(path.drop_first())
    } else {
        path
    }
}

/// Address of `path` below the versioned API root at `base`.
pub open spec fn url_of(base: Seq<char>, path: Seq<char>) -> Seq<char> {
    base + seq!['/'] + API_VERSION@ + seq!['/'] + trim_leading_slashes(path)
}

/// Whether a status code is in the 2xx class.
pub open spec fn is_success(status: u16) -> bool {
    200 <= status < 300
}

/// What a trimmed path looks like: it is the end of the path as given, only
/// slashes were removed in front of it, and it does not start with one.
pub proof fn lemma_trim_leading_slashes(path: Seq<char>)
    ensures
        trim_leading_slashes(path).len() <= path.len(),
        trim_leading_slashes(path) == path.skip(path.len() - trim_leading_slashes(path).len()),
        forall|i: int|
            0 <= i < path.len() - trim_leading_slashes(path).len() ==> path[i] == '/',
        trim_leading_slashes(path).len() > 0 ==> trim_leading_slashes(path)[0] != '/',
    decreases path.len(),
{
    if path.len() > 0 && path[0] == '/' {
        let rest = path.drop_first();
        lemma_trim_leading_slashes(rest);
        let t = trim_leading_slashes(rest);
        let k = rest.len() - t.len();
        assert(rest.skip(k) =~= path.skip(k + 1));
        assert forall|i: int| 0 <= i < path.len() - t.len() implies path[i] == '/' by {
            if i > 0 {
                assert(path[i] == rest[i - 1]);
            }
        }
    } else {
        assert(path.skip(0) =~= path);
    }
}

/// A path without a leading slash is left as it is.
pub proof fn lemma_trim_without_slash(path: Seq<char>)
    requires
        path.len() == 0 || path[0] != '/',
    ensures
        trim_leading_slashes(path) == path,
{
}

/// Trimming a trimmed path changes nothing.
pub proof fn lemma_trim_is_idempotent(path: Seq<char>)
    ensures
        trim_leading_slashes(trim_leading_slashes(path)) == trim_leading_slashes(path),
{
    lemma_trim_leading_slashes(path);
}

/// A slash in front of a path makes no difference to its address.
pub proof fn lemma_leading_slash_is_optional(base: Seq<char>, path: Seq<char>)
    ensures
        url_of(base, seq!['/'] + path) == url_of(base, path),
{
    assert((seq!['/'] + path).drop_first() =~= path);
}

/// In every address exactly one slash stands between the version segment and
/// the path, however many slashes the path started with.
pub proof fn lemma_url_has_no_double_slash(base: Seq<char>, path: Seq<char>)
    ensures
        ({
            let url = url_of(base, path);
            let slash: int = (base.len() + 1 + API_VERSION@.len()) as int;
            &&& url.len() > slash
            &&& url.subrange(0, slash) == base + seq!['/'] + API_VERSION@
            &&& url[slash] == '/'
            &&& url.len() > slash + 1 ==> url[slash + 1] != '/'
            &&& url.skip(slash + 1) == trim_leading_slashes(path)
        }),
{
    lemma_trim_leading_slashes(path);
    let url = url_of(base, path);
    let slash: int = (base.len() + 1 + API_VERSION@.len()) as int;
    assert(url.subrange(0, slash) =~= base + seq!['/'] + API_VERSION@);
    assert(url.skip(slash + 1) =~= trim_leading_slashes(path));
}

/// `path` without the slashes it starts with.
pub fn trim_start_slashes(path: &str) -> (rest: &str)
    ensures
        rest@ == trim_leading_slashes(path@),
{
    let n = path.unicode_len();
    let mut i: usize = 0;
    proof {
        assert(path@.subrange(0, n as int) =~= path@);
    }
    while i < n && path.get_char(i) == '/'
        invariant
            i <= n,
            n == path@.len(),
            trim_leading_slashes(path@) == trim_leading_slashes(path@.subrange(i as int, n as int)),
        decreases n - i,
    {
        proof {
            let here = path@.subrange(i as int, n as int);
            assert(here.drop_first() =~= path@.subrange(i + 1, n as int));
        }
        i += 1;
    }
    path.substring_char(i, n)
}

impl ResponseEnvelope {
    /// Splits answers into payloads and refusals by the status code alone.
    ///
    /// A 2xx answer yields its body, any other an `ApiError` with the status
    /// and the body as message. The body is never looked into.
    pub fn classify(self) -> (outcome: Result<String, SdkError>)
        ensures
            is_success(self.status) ==> outcome == Ok::<String, SdkError>(self.body),
            !is_success(self.status) ==> outcome == Err::<String, SdkError>(
                SdkError::ApiError { status: self.status, message: self.body },
            ),
    {
        if 200 <= self.status && self.status < 300 {
            Ok(self.body)
        } else {
            Err(SdkError::ApiError { status: self.status, message: self.body })
        }
    }
}

/// Holds the configuration and prepares every call from it.
#[derive(Clone)]
pub struct Client {
    config: Config,
}

impl View for Client {
    type V = Config;

    closed spec fn view(&self) -> Config {
        self.config
    }
}

impl Client {
    /// Host that this client's requests go to.
    pub open spec fn spec_base_url(&self) -> Seq<char> {
        match self@.base_url {
            Some(url) => url@,
            None => API_BASE_URL@,
        }
    }

    /// The call that this client prepares for a verb, a path and a body.
    pub open spec fn call(&self, method: Method, path: Seq<char>, body: Option<String>) -> Call {
        Call {
            method,
            url: url_of(self.spec_base_url(), path),
            username: self@.username@,
            password: self@.password@,
            body: text_of(body),
        }
    }

    /// Client for the credentials found in the environment, given as read:
    /// `None` stands for a variable that is not set.
    pub fn new(username: Option<String>, password: Option<String>) -> (made: Result<
        Client,
        SdkError,
    >)
        ensures
            username is None ==> (made matches Err(SdkError::ConfigError(m)) && m@
                == "UPCLOUD_USERNAME environment variable not set"@),
            username is Some && password is None ==> (made matches Err(SdkError::ConfigError(m))
                && m@ == "UPCLOUD_PASSWORD environment variable not set"@),
            username is Some && password is Some ==> (made matches Ok(client) && client@ == (Config {
                username: username->0,
                password: password->0,
                base_url: None,
                timeout: None,
            })),
    {
        match username {
            None => Err(
                SdkError::ConfigError(
                    String::from_str("UPCLOUD_USERNAME environment variable not set"),
                ),
            ),
            Some(username) => match password {
                None => Err(
                    SdkError::ConfigError(
                        String::from_str("UPCLOUD_PASSWORD environment variable not set"),
                    ),
                ),
                Some(password) => Ok(
                    Client { config: Config { username, password, base_url: None, timeout: None } },
                ),
            },
        }
    }

    /// Client for `config`.
    pub fn with_config(config: Config) -> (client: Client)
        ensures
            client@ == config,
    {
        Client { config }
    }

    /// The configuration this client was built with.
    pub fn config(&self) -> (config: &Config)
        ensures
            *config == self@,
    {
        &self.config
    }

    /// What this library calls itself towards the provider.
    pub fn user_agent() -> (agent: String)
        ensures
            agent@ == USER_AGENT_PRODUCT@ + VERSION@,
    {
        let mut agent = String::from_str(USER_AGENT_PRODUCT);
        agent.append(VERSION);
        agent
    }

    /// Host that requests go to: the configured one, else the provider's.
    pub fn base_url(&self) -> (base: &str)
        ensures
            base@ == self.spec_base_url(),
    {
        match &self.config.base_url {
            Some(url) => url.as_str(),
            None => API_BASE_URL,
        }
    }

    /// Prepares one call.
    ///
    /// The address is the base URL, the API version and `path` without its
    /// leading slashes, joined by single slashes. The credentials are the
    /// client's own, and method and body are passed on as given.
    pub fn request(&self, method: Method, path: &str, body: Option<String>) -> (req:
        RequestEnvelope)
        ensures
            req@ == self.call(method, path@, body),
    {
        proof {
            reveal_strlit("/");
        }
        let mut url = String::from_str(self.base_url());
        url.append("/");
        url.append(API_VERSION);
        url.append("/");
        url.append(trim_start_slashes(path));
        assert(url@ =~= url_of(self.spec_base_url(), path@));
        RequestEnvelope {
            method,
            url,
            username: self.config.username.clone(),
            password: self.config.password.clone(),
            body,
        }
    }

    /// Prepares a `GET` of `path`.
    pub fn get(&self, path: &str) -> (req: RequestEnvelope)
        ensures
            req@ == self.call(Method::Get, path@, None),
    {
        self.request(Method::Get, path, None)
    }

    /// Prepares a `POST` to `path`.
    pub fn post(&self, path: &str, body: Option<String>) -> (req: RequestEnvelope)
        ensures
            req@ == self.call(Method::Post, path@, body),
    {
        self.request(Method::Post, path, body)
    }

    /// Prepares a `PUT` to `path`.
    pub fn put(&self, path: &str, body: Option<String>) -> (req: RequestEnvelope)
        ensures
            req@ == self.call(Method::Put, path@, body),
    {
        self.request(Method::Put, path, body)
    }

    /// Prepares a `DELETE` of `path`.
    pub fn delete(&self, path: &str) -> (req: RequestEnvelope)
        ensures
            req@ == self.call(Method::Delete, path@, None),
    {
        self.request(Method::Delete, path, None)
    }
}

} // verus!
