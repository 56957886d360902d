//! The three text-completion backends behind one interface: the HTTP
//! request that asks each for a completion, and how its response becomes a
//! reply or a failure detail.  The round trip itself is the caller's.

use vstd::prelude::*;
use crate::message::Model;

verus! {

/// The JSON string literal that stands for `s`, quotes and escapes included.
pub uninterp spec fn json_quoted(s: Seq<char>) -> Seq<char>;

/// The string found in JSON document `doc` at JSON pointer `pointer`, if the
/// document parses and a string stands there.
pub uninterp spec fn json_text_at(doc: Seq<char>, pointer: Seq<char>) -> Option<Seq<char>>;

/// Relies on `serde_json::to_string` on a `str`, which writes it as one JSON
/// string literal and cannot fail on a string.
#[verifier::external_body]
fn quote_json(s: &str) -> (r: String)
    ensures
        r@ == json_quoted(s@),
{
    serde_json::to_string(s).unwrap()
}

/// Relies on `serde_json::from_str` into a `Value`, `Value::pointer` and
/// `Value::as_str`: the string at `pointer` in the parsed document.
#[verifier::external_body]
fn text_at(doc: &str, pointer: &str) -> (r: Option<String>)
    ensures
        match r {
            Some(t) => json_text_at(doc@, pointer@) == Some(t@),
            None => json_text_at(doc@, pointer@).is_none(),
        },
{
    let v: serde_json::Value = serde_json::from_str(doc).ok()?;
    v.pointer(pointer)?.as_str().map(String::from)
}

/// An HTTP POST that asks a backend for a completion.
#[derive(Clone, Debug)]
pub struct BackendRequest {
    pub url: String,
    /// The bearer token for the `Authorization` header, where the backend
    /// takes one.
    pub bearer: Option<String>,
    /// The JSON body.
    pub body: String,
}

pub open spec fn gemini_url(key: Seq<char>) -> Seq<char> {
    "https://generativelanguage.googleapis.com/v1beta/models/gemini-1.5-flash:generateContent?key="@
        + key
}

pub open spec fn chat_url(m: Model) -> Seq<char> {
    match m {
        Model::DeepSeek => "https://api.deepseek.com/v1/chat/completions"@,
        _ => "https://api.openai.com/v1/chat/completions"@,
    }
}

/// The model that a chat-style backend is asked to run.
pub open spec fn chat_model(m: Model) -> Seq<char> {
    match m {
        Model::DeepSeek => "deepseek-chat"@,
        _ => "gpt-3.5-turbo"@,
    }
}

pub open spec fn gemini_body(prompt: Seq<char>) -> Seq<char> {
    "{\"contents\":[{\"parts\":[{\"text\":"@ + json_quoted(prompt) + "}]}]}"@
}

pub open spec fn chat_body(m: Model, prompt: Seq<char>) -> Seq<char> {
    "{\"model\":\""@ + chat_model(m)
        + "\",\"messages\":[{\"role\":\"system\",\"content\":\"You are a helpful assistant.\"},{\"role\":\"user\",\"content\":"@
        + json_quoted(prompt) + "}]}"@
}

/// The request that asks backend `m` to complete `prompt` with `key`.
pub open spec fn request_for(m: Model, prompt: Seq<char>, key: Seq<char>) -> (Seq<char>, Option<Seq<char>>, Seq<char>) {
    match m {
        Model::Gemini => (gemini_url(key), None, gemini_body(prompt)),
        _ => (chat_url(m), Some(key), chat_body(m, prompt)),
    }
}

pub open spec fn request_view(r: BackendRequest) -> (Seq<char>, Option<Seq<char>>, Seq<char>) {
    (r.url@, match r.bearer {
        Some(b) => Some(b@),
        None => None,
    }, r.body@)
}

/// Where the reply text stands in each backend's response.
pub open spec fn reply_pointer(m: Model) -> Seq<char> {
    match m {
        Model::Gemini => "/candidates/0/content/parts/0/text"@,
        _ => "/choices/0/message/content"@,
    }
}

/// How each backend is named in failure details.
pub open spec fn label(m: Model) -> Seq<char> {
    match m {
        Model::Gemini => "Gemini"@,
        Model::OpenAi => "OpenAI"@,
        Model::DeepSeek => "DeepSeek"@,
    }
}

pub open spec fn status_detail(m: Model, status: Seq<char>, body: Seq<char>) -> Seq<char> {
    label(m) + " API returned an error. Status: "@ + status + ". Body: "@ + body
}

pub open spec fn unreadable_detail(m: Model) -> Seq<char> {
    "Could not parse text from "@ + label(m) + " response"@
}

pub open spec fn is_success(status: u16) -> bool {
    200 <= status < 300
}

/// The outcome of a call whose response came back with `status`, shown as
/// `status_text`, and `body`.
pub open spec fn response_outcome(m: Model, status: u16, status_text: Seq<char>, body: Seq<char>) -> Result<Seq<char>, Seq<char>> {
    if !is_success(status) {
        Err(status_detail(m, status_text, body))
    } else {
        match json_text_at(body, reply_pointer(m)) {
            Some(t) => Ok(t),
            None => Err(unreadable_detail(m)),
        }
    }
}

pub open spec fn outcome_view(r: Result<String, String>) -> Result<Seq<char>, Seq<char>> {
    match r {
        Ok(t) => Ok(t@),
        Err(d) => Err(d@),
    }
}

impl Model {
    fn label(&self) -> (r: &'static str)
        ensures
            r@ == label(*self),
    {
        match self {
            Model::Gemini => "Gemini",
            Model::OpenAi => "OpenAI",
            Model::DeepSeek => "DeepSeek",
        }
    }

    fn reply_pointer(&self) -> (r: &'static str)
        ensures
            r@ == reply_pointer(*self),
    {
        match self {
            Model::Gemini => "/candidates/0/content/parts/0/text",
            _ => "/choices/0/message/content",
        }
    }
}

/// The request that asks backend `m` to complete `prompt`, authenticated
/// with `key`: a key in the query for Gemini, a bearer token for the chat
/// backends.
pub fn backend_request(m: Model, prompt: &str, key: &str) -> (r: BackendRequest)
    ensures
        request_view(r) == request_for(m, prompt@, key@),
{
    let quoted = quote_json(prompt);
    match m {
        Model::Gemini => {
            let url = String::from_str(
                "https://generativelanguage.googleapis.com/v1beta/models/gemini-1.5-flash:generateContent?key=",
            ).concat(key);
            let body = String::from_str("{\"contents\":[{\"parts\":[{\"text\":").concat(
                quoted.as_str(),
            ).concat("}]}]}");
            BackendRequest { url, bearer: None, body }
        },
        _ => {
            let (url, model) = match m {
                Model::DeepSeek => ("https://api.deepseek.com/v1/chat/completions", "deepseek-chat"),
                _ => ("https://api.openai.com/v1/chat/completions", "gpt-3.5-turbo"),
            };
            let body = String::from_str("{\"model\":\"").concat(model).concat(
                "\",\"messages\":[{\"role\":\"system\",\"content\":\"You are a helpful assistant.\"},{\"role\":\"user\",\"content\":",
            ).concat(quoted.as_str()).concat("}]}");
            BackendRequest { url: String::from_str(url), bearer: Some(String::from_str(key)), body }
        },
    }
}

/// The failure detail for a response whose status is not a success.
pub fn status_failure(m: Model, status_text: &str, body: &str) -> (r: String)
    ensures
        r@ == status_detail(m, status_text@, body@),
{
    String::from_str(m.label()).concat(" API returned an error. Status: ").concat(status_text).concat(
        ". Body: ",
    ).concat(body)
}

/// The outcome for a successful response, given the text found at the
/// backend's reply pointer, if any.
pub fn reply_outcome(m: Model, found: Option<String>) -> (r: Result<String, String>)
    ensures
        outcome_view(r) == match found {
            Some(t) => Ok(t@),
            None => Err(unreadable_detail(m)),
        },
{
    match found {
        Some(t) => Ok(t),
        None => Err(String::from_str("Could not parse text from ").concat(m.label()).concat(" response")),
    }
}

/// What a backend's response means: its reply text, or the failure detail
/// that names the backend and carries the status and body.
pub fn read_response(m: Model, status: u16, status_text: &str, body: &str) -> (r: Result<String, String>)
    ensures
        outcome_view(r) == response_outcome(m, status, status_text@, body@),
{
    if !(200 <= status && status < 300) {
        Err(status_failure(m, status_text, body))
    } else {
        reply_outcome(m, text_at(body, m.reply_pointer()))
    }
}

} // verus!
