//! The four exchanges with the server: what is sent, and what an answer
//! means.
//!
//! Each exchange is one request and one answer. Nothing here retries: an
//! exchange that fails is over, and the next cycle is the retry.
//!
//! | exchange | request | built by |
//! |---|---|---|
//! | registration | `POST /client/register` | [`register`] |
//! | poll | `GET /client/ping` | [`ping`] |
//! | upload | `POST /client/upload/result/{id}` | [`upload_file`] |
//! | command result | `POST /client/commands/result/{id}` | [`execute_command`] |

use crate::config::{Config, ConfigView};
use crate::error::{AgentError, AgentErrorView};
use crate::task::{ObjectId, PollResponse};
use vstd::prelude::*;

verus! {

/// Name of the header that carries the pre-shared key.
pub const SERVER_KEY_HEADER: &'static str = "X-Server-Key";

/// The identifier under which the agent registers.
pub const AGENT_GUID: &'static str = "some-unique-guid";

/// The name under which the agent registers.
pub const AGENT_NAME: &'static str = "horizon-client-rust";

/// Name of the form part that holds an uploaded file.
pub const UPLOAD_PART: &'static str = "file";

pub const REGISTER_PATH: &'static str = "/client/register";

pub const POLL_PATH: &'static str = "/client/ping";

pub const UPLOAD_PATH: &'static str = "/client/upload/result/";

pub const COMMAND_RESULT_PATH: &'static str = "/client/commands/result/";

/// The sixteen digits of [`hex`], by value.
pub const HEX_DIGITS: &'static str = "0123456789abcdef";

#[derive(Clone, Copy, Debug, PartialEq, Eq)]
pub enum Method {
    Get,
    Post,
}

/// The body of a request.
#[derive(Clone, Debug, PartialEq, Eq)]
pub enum Payload {
    Empty,
    /// A structured body with the fields `guid` and `agent`.
    Registration { guid: String, agent: String },
    /// A form with one binary part.
    File { part: String, file_name: String, content: Vec<u8> },
    /// A structured body with the field `result`.
    CommandResult { result: String },
}

/// A [`Payload`] with its texts as sequences.
pub enum PayloadView {
    Empty,
    Registration { guid: Seq<char>, agent: Seq<char> },
    File { part: Seq<char>, file_name: Seq<char>, content: Seq<u8> },
    CommandResult { result: Seq<char> },
}

impl View for Payload {
    type V = PayloadView;

    open spec fn view(&self) -> PayloadView {
        match *self {
            Payload::Empty => PayloadView::Empty,
            Payload::Registration { guid, agent } => PayloadView::Registration {
                guid: guid@,
                agent: agent@,
            },
            Payload::File { part, file_name, content } => PayloadView::File {
                part: part@,
                file_name: file_name@,
                content: content@,
            },
            Payload::CommandResult { result } => PayloadView::CommandResult { result: result@ },
        }
    }
}

/// A request, ready to be sent.
#[derive(Clone, Debug, PartialEq, Eq)]
pub struct Request {
    pub method: Method,
    pub url: String,
    /// Value of the [`SERVER_KEY_HEADER`] header.
    pub server_key: String,
    /// The credential, sent as a bearer token, on every exchange but the
    /// registration.
    pub bearer: Option<String>,
    pub payload: Payload,
}

/// A [`Request`] with its texts as sequences.
pub struct RequestView {
    pub method: Method,
    pub url: Seq<char>,
    pub server_key: Seq<char>,
    pub bearer: Option<Seq<char>>,
    pub payload: PayloadView,
}

impl View for Request {
    type V = RequestView;

    open spec fn view(&self) -> RequestView {
        RequestView {
            method: self.method,
            url: self.url@,
            server_key: self.server_key@,
            bearer: match self.bearer {
                Some(token) => Some(token@),
                None => None,
            },
            payload: self.payload@,
        }
    }
}

/// The bytes written as lower-case hexadecimal digits, two for each byte,
/// the high half first.
pub open spec fn hex(bytes: Seq<u8>) -> Seq<char> {
    Seq::new(
        (2 * bytes.len()) as nat,
        |i: int|
            HEX_DIGITS@[if i % 2 == 0 {
                bytes[i / 2] as int / 16
            } else {
                bytes[i / 2] as int % 16
            }],
    )
}

/// The registration request: it carries the pre-shared key and no
/// credential, since it is the exchange that obtains one.
pub open spec fn register_request(config: ConfigView) -> RequestView {
    RequestView {
        method: Method::Post,
        url: config.server_url + REGISTER_PATH@,
        server_key: config.server_key,
        bearer: None,
        payload: PayloadView::Registration { guid: AGENT_GUID@, agent: AGENT_NAME@ },
    }
}

/// The poll request.
pub open spec fn poll_request(config: ConfigView, token: Seq<char>) -> RequestView {
    RequestView {
        method: Method::Get,
        url: config.server_url + POLL_PATH@,
        server_key: config.server_key,
        bearer: Some(token),
        payload: PayloadView::Empty,
    }
}

/// The request that submits the content of the file at `path` for the
/// upload task `upload_id`. The attachment is named after the source file.
pub open spec fn upload_request(
    config: ConfigView,
    token: Seq<char>,
    upload_id: ObjectId,
    path: Seq<char>,
    content: Seq<u8>,
) -> RequestView {
    RequestView {
        method: Method::Post,
        url: config.server_url + UPLOAD_PATH@ + hex(upload_id.bytes@),
        server_key: config.server_key,
        bearer: Some(token),
        payload: PayloadView::File { part: UPLOAD_PART@, file_name: path, content },
    }
}

/// The request that reports `result` for the command task `command_id`.
pub open spec fn command_result_request(
    config: ConfigView,
    token: Seq<char>,
    command_id: ObjectId,
    result: Seq<char>,
) -> RequestView {
    RequestView {
        method: Method::Post,
        url: config.server_url + COMMAND_RESULT_PATH@ + hex(command_id.bytes@),
        server_key: config.server_key,
        bearer: Some(token),
        payload: PayloadView::CommandResult { result },
    }
}

/// Calls `bson::oid::ObjectId::from_bytes` and `to_hex` on the result. The
/// contract claims what `hex::encode` is documented and seen to do for
/// `to_hex`: two lower-case digits for each of the twelve bytes, in order,
/// the high four bits first.
#[verifier::external_body]
fn object_id_hex(id: &ObjectId) -> (text: String)
    ensures
        text@ == hex(id.bytes@),
{
    bson::oid::ObjectId::from_bytes(id.bytes).to_hex()
}

/// Builds the registration request.
pub fn register(config: &Config) -> (request: Request)
    ensures
        request@ == register_request(config@),
{
    let mut url = config.server_url.clone();
    url.append(REGISTER_PATH);
    Request {
        method: Method::Post,
        url,
        server_key: config.server_key.clone(),
        bearer: None,
        payload: Payload::Registration {
            guid: AGENT_GUID.to_owned(),
            agent: AGENT_NAME.to_owned(),
        },
    }
}

/// Builds the poll request for the credential `token`.
pub fn ping(config: &Config, token: &str) -> (request: Request)
    ensures
        request@ == poll_request(config@, token@),
{
    let mut url = config.server_url.clone();
    url.append(POLL_PATH);
    Request {
        method: Method::Get,
        url,
        server_key: config.server_key.clone(),
        bearer: Some(token.to_owned()),
        payload: Payload::Empty,
    }
}

/// Builds the request that submits `content`, read from the file at `path`,
/// for the upload task `upload_id`.
pub fn upload_file(
    config: &Config,
    token: &str,
    upload_id: ObjectId,
    path: &str,
    content: Vec<u8>,
) -> (request: Request)
    ensures
        request@ == upload_request(config@, token@, upload_id, path@, content@),
{
    let mut url = config.server_url.clone();
    url.append(UPLOAD_PATH);
    let id_text = object_id_hex(&upload_id);
    url.append(id_text.as_str());
    Request {
        method: Method::Post,
        url,
        server_key: config.server_key.clone(),
        bearer: Some(token.to_owned()),
        payload: Payload::File {
            part: UPLOAD_PART.to_owned(),
            file_name: path.to_owned(),
            content,
        },
    }
}

/// Builds the request that reports `result` for the command task
/// `command_id`.
pub fn execute_command(config: &Config, token: &str, command_id: ObjectId, result: &str) -> (request:
    Request)
    ensures
        request@ == command_result_request(config@, token@, command_id, result@),
{
    let mut url = config.server_url.clone();
    url.append(COMMAND_RESULT_PATH);
    let id_text = object_id_hex(&command_id);
    url.append(id_text.as_str());
    Request {
        method: Method::Post,
        url,
        server_key: config.server_key.clone(),
        bearer: Some(token.to_owned()),
        payload: Payload::CommandResult { result: result.to_owned() },
    }
}

/// What the caller made of the body of an answer. It decodes the body of a
/// successful registration or poll, and passes any other body on as text.
#[derive(Clone, Debug, PartialEq, Eq)]
pub enum Content {
    Text(String),
    /// The credential that a registration returned.
    Token(String),
    /// The pending tasks that a poll returned.
    Tasks(PollResponse),
}

impl Content {
    /// The text of the body, kept for diagnostics; empty for a decoded body.
    pub open spec fn text(self) -> Seq<char> {
        match self {
            Content::Text(text) => text@,
            _ => Seq::empty(),
        }
    }

    /// The text of the body, kept for diagnostics; empty for a decoded body.
    pub fn into_text(self) -> (text: String)
        ensures
            text@ == self.text(),
    {
        match self {
            Content::Text(text) => text,
            _ => String::new(),
        }
    }
}

/// How an exchange ended.
#[derive(Clone, Debug, PartialEq, Eq)]
pub enum Reply {
    /// No answer arrived, or the body of a successful one could not be
    /// decoded.
    NoAnswer,
    Answer { status: u16, content: Content },
}

/// Whether a status code stands for success: the codes from 200 to 299.
pub open spec fn success_status(status: u16) -> bool {
    200 <= status < 300
}

/// Calls `reqwest::StatusCode::from_u16` and, on a code that it accepts,
/// `is_success`. The first accepts the codes from 100 to 999, the second
/// holds of 200 to 299, so the contract claims that the result is true for
/// exactly those.
#[verifier::external_body]
fn status_is_success(status: u16) -> (success: bool)
    ensures
        success == success_status(status),
{
    match reqwest::StatusCode::from_u16(status) {
        Ok(code) => code.is_success(),
        Err(_) => false,
    }
}

/// Whether a status code stands for success. Any other code means that the
/// server declined the exchange.
pub fn is_success(status: u16) -> (success: bool)
    ensures
        success == success_status(status),
{
    status_is_success(status)
}

/// The credential that a registration yields, or why there is none.
pub open spec fn registration_result(reply: Reply) -> Result<Seq<char>, AgentErrorView> {
    match reply {
        Reply::NoAnswer => Err(AgentErrorView::Transport),
        Reply::Answer { status, content } => if !success_status(status) {
            Err(AgentErrorView::RegistrationRejected(content.text()))
        } else {
            match content {
                Content::Token(token) => Ok(token@),
                _ => Err(AgentErrorView::Transport),
            }
        },
    }
}

/// The tasks that a poll yields, or why there are none.
pub open spec fn poll_result(reply: Reply) -> Result<PollResponse, AgentErrorView> {
    match reply {
        Reply::NoAnswer => Err(AgentErrorView::Transport),
        Reply::Answer { status, content } => if !success_status(status) {
            Err(AgentErrorView::PollRejected(content.text()))
        } else {
            match content {
                Content::Tasks(tasks) => Ok(tasks),
                _ => Err(AgentErrorView::Transport),
            }
        },
    }
}

/// Why an upload was not accepted, if it was not. The body of a successful
/// answer is not looked at.
pub open spec fn upload_failure(reply: Reply) -> Option<AgentErrorView> {
    match reply {
        Reply::NoAnswer => Some(AgentErrorView::Transport),
        Reply::Answer { status, content } => if !success_status(status) {
            Some(AgentErrorView::UploadRejected(content.text()))
        } else {
            None
        },
    }
}

/// Why a command result was not accepted, if it was not. The body of a
/// successful answer is not looked at.
pub open spec fn command_result_failure(reply: Reply) -> Option<AgentErrorView> {
    match reply {
        Reply::NoAnswer => Some(AgentErrorView::Transport),
        Reply::Answer { status, content } => if !success_status(status) {
            Some(AgentErrorView::CommandReportRejected(content.text()))
        } else {
            None
        },
    }
}

/// Reads the answer to a registration.
pub fn registration_outcome(reply: Reply) -> (result: Result<String, AgentError>)
    ensures
        match result {
            Ok(token) => registration_result(reply) == Ok::<Seq<char>, AgentErrorView>(token@),
            Err(error) => registration_result(reply) == Err::<Seq<char>, AgentErrorView>(error@),
        },
{
    match reply {
        Reply::NoAnswer => Err(AgentError::Transport),
        Reply::Answer { status, content } => {
            if !status_is_success(status) {
                Err(AgentError::RegistrationRejected(content.into_text()))
            } else {
                match content {
                    Content::Token(token) => Ok(token),
                    _ => Err(AgentError::Transport),
                }
            }
        },
    }
}

/// Reads the answer to a poll.
pub fn poll_outcome(reply: Reply) -> (result: Result<PollResponse, AgentError>)
    ensures
        match result {
            Ok(tasks) => poll_result(reply) == Ok::<PollResponse, AgentErrorView>(tasks),
            Err(error) => poll_result(reply) == Err::<PollResponse, AgentErrorView>(error@),
        },
{
    match reply {
        Reply::NoAnswer => Err(AgentError::Transport),
        Reply::Answer { status, content } => {
            if !status_is_success(status) {
                Err(AgentError::PollRejected(content.into_text()))
            } else {
                match content {
                    Content::Tasks(tasks) => Ok(tasks),
                    _ => Err(AgentError::Transport),
                }
            }
        },
    }
}

/// Reads the answer to an upload.
pub fn upload_outcome(reply: Reply) -> (result: Result<(), AgentError>)
    ensures
        match result {
            Ok(_) => upload_failure(reply) is None,
            Err(error) => upload_failure(reply) == Some(error@),
        },
{
    match reply {
        Reply::NoAnswer => Err(AgentError::Transport),
        Reply::Answer { status, content } => {
            if !status_is_success(status) {
                Err(AgentError::UploadRejected(content.into_text()))
            } else {
                Ok(())
            }
        },
    }
}

/// Reads the answer to a command result.
pub fn command_result_outcome(reply: Reply) -> (result: Result<(), AgentError>)
    ensures
        match result {
            Ok(_) => command_result_failure(reply) is None,
            Err(error) => command_result_failure(reply) == Some(error@),
        },
{
    match reply {
        Reply::NoAnswer => Err(AgentError::Transport),
        Reply::Answer { status, content } => {
            if !status_is_success(status) {
                Err(AgentError::CommandReportRejected(content.into_text()))
            } else {
                Ok(())
            }
        },
    }
}

} // verus!
