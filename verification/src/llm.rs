//! The decisions around an exchange with the hosted assistant: what is sent,
//! and what an answer means.  The exchange itself is the caller's business.
//!
//! A caller reads the stored credential, asks `begin_exchange` for the
//! request, sends it to `COMPLETIONS_URL` with the credential as bearer
//! token, and hands the answer's status and body to `finish_exchange`, which
//! yields the assistant's structured answer as JSON text.

use vstd::prelude::*;
use vstd::string::*;
use crate::error::CommandError;
use crate::json::{
    Json, JsonView, element, element_of, from_json, json_document, json_failure, member,
    member_of,
    parse_document, string_of, text_of,
};

verus! {

/// Where a request is sent.
pub const COMPLETIONS_URL: &'static str = "https://api.openai.com/v1/chat/completions";

/// The model that every request names.
pub const MODEL: &'static str = "gpt-4-turbo-preview";

/// The instruction for enriching a task.
pub const ENRICH_PROMPT: &'static str =
    "You are a helpful assistant. The user will provide a task title, and you will enrich it by generating a short description (1-2 sentences) and suggesting 3-5 relevant tags. Format the output as a JSON object with 'notes' and 'tags' keys.";

/// The instruction for planning a day.
pub const PLAN_PROMPT: &'static str =
    "You are a helpful assistant. The user will provide a list of tasks. Your job is to suggest a plausible schedule by assigning a 'start_slot' and 'end_slot' for each task. Today is a normal workday. The user wants to start work at 9am. Slots are 30-minute intervals, so 9am is slot 18, 9:30am is 19, etc. The output should be a JSON object with a 'blocks' key, containing a list of objects, each with 'task_id', 'start_slot', and 'end_slot'.";

/// The instruction for refining a schedule.
pub const REFINE_PROMPT: &'static str =
    "You are a helpful assistant. The user will provide an existing schedule and an instruction. You will refine the schedule based on the instruction. The output should be a JSON object with a 'blocks' key, containing the new list of blocks.";

/// The diagnostic for an exchange without a stored credential.
pub const MISSING_KEY: &'static str = "OpenAI API key not found in settings";

/// The diagnostic for an answer without text, when enriching or planning.
pub const NO_CONTENT: &'static str = "No content in response";

/// The diagnostic for an answer without text, when refining.
pub const NO_CHOICES: &'static str = "No choices in response";

/// What the assistant is asked for.
#[derive(Debug, Clone, Copy, PartialEq, Eq, Structural)]
pub enum Assistance {
    Enrich,
    Plan,
    Refine,
}

impl Assistance {
    /// The instruction that opens the conversation.
    pub open spec fn prompt_of(self) -> Seq<char> {
        match self {
            Assistance::Enrich => ENRICH_PROMPT@,
            Assistance::Plan => PLAN_PROMPT@,
            Assistance::Refine => REFINE_PROMPT@,
        }
    }

    /// The diagnostic for an answer that holds no text.
    pub open spec fn missing_of(self) -> Seq<char> {
        match self {
            Assistance::Enrich => NO_CONTENT@,
            Assistance::Plan => NO_CONTENT@,
            Assistance::Refine => NO_CHOICES@,
        }
    }

    /// The instruction that opens the conversation.
    pub fn prompt(self) -> (text: &'static str)
        ensures
            text@ == self.prompt_of(),
    {
        match self {
            Assistance::Enrich => ENRICH_PROMPT,
            Assistance::Plan => PLAN_PROMPT,
            Assistance::Refine => REFINE_PROMPT,
        }
    }

    /// The diagnostic for an answer that holds no text.
    pub fn missing(self) -> (text: &'static str)
        ensures
            text@ == self.missing_of(),
    {
        match self {
            Assistance::Enrich => NO_CONTENT,
            Assistance::Plan => NO_CONTENT,
            Assistance::Refine => NO_CHOICES,
        }
    }
}

/// One turn of a conversation.
#[derive(Debug)]
pub struct Message {
    pub role: String,
    pub content: String,
}

/// A request for a completion.
#[derive(Debug)]
pub struct ChatRequest {
    pub model: String,
    pub messages: Vec<Message>,
}

/// The request for `kind` that carries `content` as the user's turn: the
/// model, the system's instruction, the user's content.
pub open spec fn is_request_for(request: ChatRequest, kind: Assistance, content: Seq<char>) -> bool {
    &&& request.model@ == MODEL@
    &&& request.messages@.len() == 2
    &&& request.messages@[0].role@ == "system"@
    &&& request.messages@[0].content@ == kind.prompt_of()
    &&& request.messages@[1].role@ == "user"@
    &&& request.messages@[1].content@ == content
}

/// Builds the request for `kind` that carries `content` as the user's turn.
pub fn chat_request(kind: Assistance, content: String) -> (request: ChatRequest)
    ensures
        is_request_for(request, kind, content@),
{
    let mut messages: Vec<Message> = Vec::new();
    messages.push(Message { role: "system".to_string(), content: kind.prompt().to_string() });
    messages.push(Message { role: "user".to_string(), content });
    ChatRequest { model: MODEL.to_string(), messages }
}

/// The user's turn of a request to refine a schedule.
pub open spec fn refine_content_of(existing: Seq<char>, instruction: Seq<char>) -> Seq<char> {
    "Existing schedule: "@ + existing + ". Instruction: "@ + instruction
}

/// Builds the user's turn of a request to refine a schedule.
pub fn refine_content(existing: &str, instruction: &str) -> (content: String)
    ensures
        content@ == refine_content_of(existing@, instruction@),
{
    let mut content = String::from_str("Existing schedule: ");
    content.append(existing);
    content.append(". Instruction: ");
    content.append(instruction);
    content
}

/// Opens an exchange: with a stored credential, the credential and the
/// request to send; without one, the failure that names what is missing.
pub fn begin_exchange(kind: Assistance, stored_key: Option<String>, content: String) -> (r: Result<
    (String, ChatRequest),
    CommandError,
>)
    ensures
        match r {
            Ok((key, request)) => stored_key matches Some(k) && key@ == k@ && is_request_for(
                request,
                kind,
                content@,
            ),
            Err(e) => stored_key is None && e.message@ == MISSING_KEY@,
        },
{
    match stored_key {
        Some(key) => Ok((key, chat_request(kind, content))),
        None => Err(CommandError::new(MISSING_KEY)),
    }
}

/// The diagnostic for an answer whose status is no success.
pub open spec fn api_failure_of(status: Seq<char>, body: Seq<char>) -> Seq<char> {
    "API Error: "@ + status + " - "@ + body
}

/// The failure for an answer whose status is no success.
pub fn api_failure(status: &str, body: &str) -> (e: CommandError)
    ensures
        e.message@ == api_failure_of(status@, body@),
{
    let mut message = String::from_str("API Error: ");
    message.append(status);
    message.append(" - ");
    message.append(body);
    CommandError { message }
}

/// The text of an answer where it holds one, and for `kind` the failure that
/// says it holds none.
pub fn content_or_missing(kind: Assistance, found: Option<&str>) -> (r: Result<String, CommandError>)
    ensures
        match r {
            Ok(text) => found matches Some(t) && text@ == t@,
            Err(e) => found is None && e.message@ == kind.missing_of(),
        },
{
    match found {
        Some(text) => Ok(text.to_string()),
        None => Err(CommandError::new(kind.missing())),
    }
}

/// The assistant's text in a document: the content of the message of its
/// first choice, where the document has one and it is a string.
pub open spec fn content_in(doc: JsonView) -> Option<Seq<char>> {
    match member_of(doc, "choices"@) {
        Some(choices) => match element_of(choices, 0) {
            Some(first) => match member_of(first, "message"@) {
                Some(message) => match member_of(message, "content"@) {
                    Some(content) => text_of(content),
                    None => None,
                },
                None => None,
            },
            None => None,
        },
        None => None,
    }
}

/// Finds the assistant's text in a document.
pub fn find_content<'a>(doc: &'a Json) -> (found: Option<&'a str>)
    ensures
        match found {
            Some(text) => content_in(doc@) == Some(text@),
            None => content_in(doc@) is None,
        },
{
    match member(doc, "choices") {
        Some(choices) => match element(choices, 0) {
            Some(first) => match member(first, "message") {
                Some(message) => match member(message, "content") {
                    Some(content) => string_of(content),
                    None => None,
                },
                None => None,
            },
            None => None,
        },
        None => None,
    }
}

/// Whether `r` is what the body of a successful answer yields for `kind`: the
/// assistant's text where the body is a document that holds one, the failure
/// that says it holds none where it is a document without, and the JSON
/// reader's failure where the body is no JSON document.
pub open spec fn is_completion(kind: Assistance, body: Seq<char>, r: Result<String, CommandError>) -> bool {
    match json_document(body) {
        Some(doc) => match content_in(doc) {
            Some(text) => r matches Ok(t) && t@ == text,
            None => r matches Err(e) && e.message@ == kind.missing_of(),
        },
        None => r matches Err(e) && from_json(e),
    }
}

/// Reads the assistant's text out of the body of a successful answer: the
/// content of the message of its first choice.  Fails where the body is no
/// JSON document, and for `kind` where the document holds no such text.
pub fn completion_content(kind: Assistance, body: &str) -> (r: Result<String, CommandError>)
    ensures
        is_completion(kind, body@, r),
{
    let document = match parse_document(body) {
        Ok(document) => document,
        Err(e) => {
            return Err(json_failure(e));
        },
    };
    content_or_missing(kind, find_content(&document))
}

/// Closes an exchange.  An answer whose status is no success fails with the
/// status and the body in its diagnostic; a successful one yields the
/// assistant's text, which the caller reads as the structured answer.
pub fn finish_exchange(kind: Assistance, success: bool, status: &str, body: &str) -> (r: Result<
    String,
    CommandError,
>)
    ensures
        success ==> is_completion(kind, body@, r),
        !success ==> (r matches Err(e) && e.message@ == api_failure_of(status@, body@)),
{
    if success {
        completion_content(kind, body)
    } else {
        Err(api_failure(status, body))
    }
}

} // verus!
