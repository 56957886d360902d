//! Backend identifiers and the text lines that the relay publishes.

use vstd::prelude::*;

verus! {

/// The known text-completion backends.
#[derive(Clone, Copy, Debug, PartialEq, Eq, Structural)]
pub enum Model {
    Gemini,
    OpenAi,
    DeepSeek,
}

/// The identifier under which a client selects each backend.
pub open spec fn model_name(m: Model) -> Seq<char> {
    match m {
        Model::Gemini => "gemini"@,
        Model::OpenAi => "openai"@,
        Model::DeepSeek => "deepseek"@,
    }
}

/// The backend that an identifier names: an exact match, or none.
pub open spec fn resolve(id: Seq<char>) -> Option<Model> {
    if id == model_name(Model::Gemini) {
        Some(Model::Gemini)
    } else if id == model_name(Model::OpenAi) {
        Some(Model::OpenAi)
    } else if id == model_name(Model::DeepSeek) {
        Some(Model::DeepSeek)
    } else {
        None
    }
}

/// `You: {text}`
pub open spec fn echo_text(text: Seq<char>) -> Seq<char> {
    "You: "@ + text
}

/// `\u{1F916} {model}: {reply}`
pub open spec fn reply_text(model: Seq<char>, reply: Seq<char>) -> Seq<char> {
    "\u{1F916} "@ + model + ": "@ + reply
}

/// `\u{1F916} Error with {model}: {detail}`
pub open spec fn error_text(model: Seq<char>, detail: Seq<char>) -> Seq<char> {
    "\u{1F916} Error with "@ + model + ": "@ + detail
}

impl Model {
    /// The identifier of this backend.
    pub fn name(&self) -> (r: &'static str)
        ensures
            r@ == model_name(*self),
    {
        match self {
            Model::Gemini => "gemini",
            Model::OpenAi => "openai",
            Model::DeepSeek => "deepseek",
        }
    }
}

/// Looks up the backend that `id` names, by exact match.
pub fn resolve_model(id: &str) -> (r: Option<Model>)
    ensures
        r == resolve(id@),
{
    let s = String::from_str(id);
    if s == String::from_str(Model::Gemini.name()) {
        Some(Model::Gemini)
    } else if s == String::from_str(Model::OpenAi.name()) {
        Some(Model::OpenAi)
    } else if s == String::from_str(Model::DeepSeek.name()) {
        Some(Model::DeepSeek)
    } else {
        None
    }
}

/// The line that echoes a client's prompt: `You: {text}`.
pub fn echo_line(text: &str) -> (r: String)
    ensures
        r@ == echo_text(text@),
{
    String::from_str("You: ").concat(text)
}

/// The fixed reply given to a request that names no known backend.
pub open spec fn advisory_text() -> Seq<char> {
    "Please select a valid AI model."@
}

/// The fixed reply given to a request that names no known backend.
pub fn advisory() -> (r: &'static str)
    ensures
        r@ == advisory_text(),
{
    "Please select a valid AI model."
}

/// The line that carries a backend's reply: `\u{1F916} {model}: {reply}`.
pub fn reply_line(model: &str, reply: &str) -> (r: String)
    ensures
        r@ == reply_text(model@, reply@),
{
    String::from_str("\u{1F916} ").concat(model).concat(": ").concat(reply)
}

/// The line that reports a failed backend call:
/// `\u{1F916} Error with {model}: {detail}`.
pub fn error_line(model: &str, detail: &str) -> (r: String)
    ensures
        r@ == error_text(model@, detail@),
{
    String::from_str("\u{1F916} Error with ").concat(model).concat(": ").concat(detail)
}

} // verus!
