//! Prompt polishing: which system prompt goes with which mode, what request is
//! sent to the chat-completion service, and what text comes back to the user.

use vstd::prelude::*;
use crate::text::{trim, trimmed};
use vstd::string::StringExecFns;

verus! {

/// How a transcript is rewritten before it is pasted.
#[derive(Debug, Clone, Copy, PartialEq, Eq, Structural)]
pub enum PromptMode {
    /// No polishing: the raw transcription.
    Direct,
    /// A prompt for an AI coding assistant.
    Coding,
    /// A professional email.
    Email,
    /// Grammar and punctuation only.
    General,
    /// A casual, conversational tone.
    Casual,
    /// The user's own system prompt.
    Custom,
}

impl Default for PromptMode {
    fn default() -> (mode: Self)
        ensures
            mode == PromptMode::Direct,
    {
        PromptMode::Direct
    }
}

/// The model used when the settings name none.
pub open spec fn fallback_model() -> Seq<char> {
    "llama-3.1-8b-instant"@
}

/// The most tokens the service may produce for one rewrite.
pub const MAX_TOKENS: u32 = 1024;

/// The system prompt that instructs the model for `mode`; `custom` is the
/// user's own prompt. `Direct` has none.
pub open spec fn system_prompt(mode: PromptMode, custom: Seq<char>) -> Seq<char> {
    match mode {
        PromptMode::Direct => Seq::empty(),
        PromptMode::Coding => "You are a prompt editor. Rewrite the user's voice dictation as a clear, concise \
             prompt for an AI coding assistant. Only use information the user explicitly stated \
             — do NOT add languages, frameworks, test strategies, or any requirements they did \
             not mention. Fix grammar and sentence structure only. Output ONLY the rewritten \
             prompt, nothing else."@,
        PromptMode::Email => "You are an email editor. Rewrite the user's voice dictation as a polished, \
             professional email. Only use content the user explicitly stated — do NOT add \
             greetings, sign-offs, or any information not mentioned by the user unless it is \
             purely grammatical. Output ONLY the email text, nothing else."@,
        PromptMode::General => "Clean up the following voice dictation: fix grammar, punctuation, and sentence \
             structure while keeping every idea the user stated and adding nothing they did not \
             say. Output ONLY the cleaned text, nothing else."@,
        PromptMode::Casual => "Rewrite this voice dictation in a casual, friendly tone — natural and \
             conversational, like a Slack message or chat to a teammate. Fix grammar \
             and punctuation but keep it relaxed and human. Output ONLY the rewritten \
             text, nothing else."@,
        PromptMode::Custom => custom,
    }
}

/// The system prompt for a polishing mode (every mode but `Direct`).
pub fn system_prompt_for_mode(mode: &PromptMode, custom: &str) -> (prompt: String)
    requires
        *mode != PromptMode::Direct,
    ensures
        prompt@ == system_prompt(*mode, custom@),
{
    match mode {
        PromptMode::Direct => String::new(),
        PromptMode::Coding => "You are a prompt editor. Rewrite the user's voice dictation as a clear, concise \
             prompt for an AI coding assistant. Only use information the user explicitly stated \
             — do NOT add languages, frameworks, test strategies, or any requirements they did \
             not mention. Fix grammar and sentence structure only. Output ONLY the rewritten \
             prompt, nothing else.".to_owned(),
        PromptMode::Email => "You are an email editor. Rewrite the user's voice dictation as a polished, \
             professional email. Only use content the user explicitly stated — do NOT add \
             greetings, sign-offs, or any information not mentioned by the user unless it is \
             purely grammatical. Output ONLY the email text, nothing else.".to_owned(),
        PromptMode::General => "Clean up the following voice dictation: fix grammar, punctuation, and sentence \
             structure while keeping every idea the user stated and adding nothing they did not \
             say. Output ONLY the cleaned text, nothing else.".to_owned(),
        PromptMode::Casual => "Rewrite this voice dictation in a casual, friendly tone — natural and \
             conversational, like a Slack message or chat to a teammate. Fix grammar \
             and punctuation but keep it relaxed and human. Output ONLY the rewritten \
             text, nothing else.".to_owned(),
        PromptMode::Custom => custom.to_owned(),
    }
}

/// One message of a chat-completion request.
pub struct ChatMessage {
    pub role: String,
    pub content: String,
}

/// A chat-completion request, but for its sampling temperature, which is always zero.
pub struct GroqRequest {
    pub model: String,
    pub messages: Vec<ChatMessage>,
    pub max_tokens: u32,
}

/// The text of the service's reply message.
pub struct ResponseMessage {
    pub content: String,
}

/// One candidate answer of the service.
pub struct Choice {
    pub message: ResponseMessage,
}

/// The part of the service's reply that is read.
pub struct GroqResponse {
    pub choices: Vec<Choice>,
}

/// Either the text is left as it is, or this request is sent.
pub enum PolishPlan {
    Unchanged(String),
    Request(GroqRequest),
}

/// Polishing is skipped in `Direct` mode and without an API key.
pub open spec fn skips_polish(api_key: Seq<char>, mode: PromptMode) -> bool {
    mode == PromptMode::Direct || api_key.len() == 0
}

/// The model asked for: the configured one, or the fallback when none is configured.
pub open spec fn chosen_model(model: Seq<char>) -> Seq<char> {
    if model.len() == 0 {
        fallback_model()
    } else {
        model
    }
}

/// `req` is the request that rewrites `raw` in `mode` with `model`.
pub open spec fn is_polish_request(
    req: GroqRequest,
    raw: Seq<char>,
    mode: PromptMode,
    custom: Seq<char>,
    model: Seq<char>,
) -> bool {
    &&& req.model@ == chosen_model(model)
    &&& req.max_tokens == MAX_TOKENS
    &&& req.messages@.len() == 2
    &&& req.messages@[0].role@ == "system"@
    &&& req.messages@[0].content@ == system_prompt(mode, custom)
    &&& req.messages@[1].role@ == "user"@
    &&& req.messages@[1].content@ == raw
}

/// Decides whether `raw_text` is sent for polishing, and builds the request if so.
pub fn plan_polish(
    api_key: &str,
    raw_text: &str,
    mode: &PromptMode,
    custom_prompt: &str,
    model: &str,
) -> (plan: PolishPlan)
    ensures
        skips_polish(api_key@, *mode) ==> (plan matches PolishPlan::Unchanged(t) && t@ == raw_text@),
        !skips_polish(api_key@, *mode) ==> (plan matches PolishPlan::Request(req) && is_polish_request(
            req,
            raw_text@,
            *mode,
            custom_prompt@,
            model@,
        )),
{
    if *mode == PromptMode::Direct || api_key.is_empty() {
        return PolishPlan::Unchanged(raw_text.to_owned());
    }
    let system = system_prompt_for_mode(mode, custom_prompt);
    let model_id = if model.is_empty() {
        "llama-3.1-8b-instant".to_owned()
    } else {
        model.to_owned()
    };
    let mut messages: Vec<ChatMessage> = Vec::new();
    messages.push(ChatMessage { role: "system".to_owned(), content: system });
    messages.push(ChatMessage { role: "user".to_owned(), content: raw_text.to_owned() });
    PolishPlan::Request(GroqRequest { model: model_id, messages, max_tokens: MAX_TOKENS })
}

/// The text the user gets back: the first answer, trimmed, when the service
/// answered with at least one; `raw` otherwise.
pub open spec fn polish_result(raw: Seq<char>, reply: Option<GroqResponse>) -> Seq<char> {
    match reply {
        Some(r) => if r.choices@.len() > 0 {
            trimmed(r.choices@[0].message.content@)
        } else {
            raw
        },
        None => raw,
    }
}

/// The outcome of a polishing request; `reply` is `None` when the request
/// failed, the service answered with an error status, or its reply could not be read.
pub fn polished_text(raw_text: &str, reply: Option<GroqResponse>) -> (text: String)
    ensures
        text@ == polish_result(raw_text@, reply),
{
    match reply {
        Some(r) => {
            if r.choices.len() > 0 {
                trim(r.choices[0].message.content.as_str())
            } else {
                raw_text.to_owned()
            }
        },
        None => raw_text.to_owned(),
    }
}

/// The chat-completion endpoint that polishing requests are sent to.
pub open spec fn chat_completions_url_text() -> Seq<char> {
    "https://api.groq.com/openai/v1/chat/completions"@
}

/// The address polishing requests are sent to.
pub fn chat_completions_url() -> (url: String)
    ensures
        url@ == chat_completions_url_text(),
{
    "https://api.groq.com/openai/v1/chat/completions".to_owned()
}

/// The value of the `Authorization` header for an API key.
pub fn bearer_value(api_key: &str) -> (v: String)
    ensures
        v@ == "Bearer "@ + api_key@,
{
    let mut v = "Bearer ".to_owned();
    v.append(api_key);
    v
}

} // verus!
