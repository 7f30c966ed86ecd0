//! The Hermes HTTP API as plain data: the client's configuration, the URLs
//! and headers of its requests, the records the server returns, and the
//! decoding of the server-sent-event stream of a chat completion.

use vstd::prelude::*;
use vstd::string::*;

use crate::text::{decimal, push_decimal, to_chars, trim_end_char, trim_end_matching};

verus! {

/// One message of a chat completion request.
#[derive(Debug, Clone)]
pub struct Message {
    pub role: String,
    pub content: String,
}

/// Session summary from /v1/sessions (the timestamps the server also
/// sends are not used by the client and are not kept).
#[derive(Debug, Clone)]
pub struct SessionInfo {
    pub id: String,
    pub source: Option<String>,
    pub model: Option<String>,
    pub title: Option<String>,
    pub message_count: Option<u32>,
    pub preview: Option<String>,
}

/// Session message from /v1/sessions/{id}/messages.
#[derive(Debug, Clone)]
pub struct SessionMessage {
    pub role: String,
    pub content: String,
}

/// Server status from /v1/status.
#[derive(Debug, Clone)]
pub struct ServerStatus {
    pub model: String,
    pub model_display: String,
}

/// Connection settings of the OpenAI-compatible Hermes API.
#[derive(Debug, Clone)]
pub struct HermesClient {
    base_url: String,
    api_key: String,
    model: String,
}

/// What a [`HermesClient`] holds.
pub struct ClientView {
    pub base_url: Seq<char>,
    pub api_key: Seq<char>,
    pub model: Seq<char>,
}

impl View for HermesClient {
    type V = ClientView;

    closed spec fn view(&self) -> ClientView {
        ClientView { base_url: self.base_url@, api_key: self.api_key@, model: self.model@ }
    }
}

impl HermesClient {
    /// A client for the server at `base_url`; trailing slashes of the URL are dropped.
    pub fn new(base_url: &str, api_key: &str, model: &str) -> (c: Self)
        ensures
            c@.base_url == trim_end_char(base_url@, '/'),
            c@.api_key == api_key@,
            c@.model == model@,
    {
        let chars = to_chars(base_url);
        HermesClient {
            base_url: trim_end_matching(chars.as_slice(), '/'),
            api_key: api_key.to_owned(),
            model: model.to_owned(),
        }
    }

    pub fn base_url(&self) -> (r: &str)
        ensures
            r@ == self@.base_url,
    {
        self.base_url.as_str()
    }

    pub fn api_key(&self) -> (r: &str)
        ensures
            r@ == self@.api_key,
    {
        self.api_key.as_str()
    }

    pub fn model(&self) -> (r: &str)
        ensures
            r@ == self@.model,
    {
        self.model.as_str()
    }

    /// The value of the `Authorization` header: none without an API key.
    pub fn auth_header(&self) -> (r: Option<String>)
        ensures
            r is None <==> self@.api_key.len() == 0,
            r matches Some(h) ==> h@ == "Bearer "@ + self@.api_key,
    {
        if self.api_key.as_str().is_empty() {
            None
        } else {
            let mut h = String::from_str("Bearer ");
            h.append(self.api_key.as_str());
            Some(h)
        }
    }

    /// The base URL followed by `path`.
    fn url(&self, path: &str) -> (r: String)
        ensures
            r@ == self@.base_url + path@,
    {
        let mut u = self.base_url.clone();
        u.append(path);
        u
    }

    /// URL of the streaming chat completions endpoint.
    pub fn chat_url(&self) -> (r: String)
        ensures
            r@ == self@.base_url + "/v1/chat/completions"@,
    {
        self.url("/v1/chat/completions")
    }

    /// URL that lists the `limit` most recent sessions.
    pub fn sessions_url(&self, limit: u32) -> (r: String)
        ensures
            r@ == self@.base_url + "/v1/sessions?limit="@ + decimal(limit as nat),
    {
        let mut u = self.url("/v1/sessions?limit=");
        push_decimal(&mut u, limit as u64);
        u
    }

    /// URL of the messages of the session with id (or id prefix) `session_id`.
    pub fn session_messages_url(&self, session_id: &str) -> (r: String)
        ensures
            r@ == self@.base_url + "/v1/sessions/"@ + session_id@ + "/messages"@,
    {
        let mut u = self.url("/v1/sessions/");
        u.append(session_id);
        u.append("/messages");
        u
    }

    /// URL of the server status endpoint.
    pub fn status_url(&self) -> (r: String)
        ensures
            r@ == self@.base_url + "/v1/status"@,
    {
        self.url("/v1/status")
    }

    /// URL that approves a pending dangerous command.
    pub fn approve_url(&self) -> (r: String)
        ensures
            r@ == self@.base_url + "/v1/approve"@,
    {
        self.url("/v1/approve")
    }

    /// URL that denies a pending dangerous command.
    pub fn deny_url(&self) -> (r: String)
        ensures
            r@ == self@.base_url + "/v1/deny"@,
    {
        self.url("/v1/deny")
    }
}

/// The id of a fetched session: the one the server reports, else the one
/// that was asked for (an id prefix resolves to the full id).
pub fn resolved_session_id(reported: Option<&str>, requested: &str) -> (r: String)
    ensures
        r@ == match reported {
            Some(s) => s@,
            None => requested@,
        },
{
    match reported {
        Some(s) => s.to_owned(),
        None => requested.to_owned(),
    }
}

/// The error a failed chat request reports: `API error <status>: <body>`.
pub fn api_error_text(status: &str, body: &str) -> (r: String)
    ensures
        r@ == "API error "@ + status@ + ": "@ + body@,
{
    let mut r = String::from_str("API error ");
    r.append(status);
    r.append(": ");
    r.append(body);
    r
}

} // verus!
