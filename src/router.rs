//! Choosing a backend model for a prompt.

use vstd::prelude::*;
use crate::ollama::Message;

verus! {

/// The closed set of prompt categories.
#[derive(Debug, Clone, Copy, PartialEq, Eq, Structural)]
pub enum Model {
    Tool,
    Chat,
    Coding,
}

/// The model that answers prompts of each category.
pub open spec fn model_name(m: Model) -> Seq<char> {
    match m {
        Model::Tool => "gpt-oss:20b"@,
        Model::Chat => "llama3.1:8b"@,
        Model::Coding => "gpt-oss:20b"@,
    }
}

/// The model identifier for a category.
pub fn get_model_name(model: &Model) -> (r: &str)
    ensures
        r@ == model_name(*model),
{
    match model {
        Model::Tool => "gpt-oss:20b",
        Model::Chat => "llama3.1:8b",
        Model::Coding => "gpt-oss:20b",
    }
}


/// The system instruction of the classification request.
pub const CLASSIFIER_INSTRUCTION: &'static str = "You are an expert at categorizing user prompts. Your only task is to classify the user's prompt into one of the following three categories: 'tool', 'chat', or 'coding'. Respond with only a single word: tool, chat, or coding. Do not provide any other text or explanation.";

/// The model that classifies prompts.
pub const CLASSIFIER_MODEL: &'static str = "llama3.1:8b";

/// The text of the user message that asks for a classification of `prompt`.
pub open spec fn classification_request_text(prompt: Seq<char>) -> Seq<char> {
    "Categorize the following prompt: \""@ + prompt + "\""@
}

/// The two messages sent to the classifier for a prompt: the fixed system
/// instruction, then the prompt quoted in a user message.
pub fn create_classification_prompt(prompt: &str) -> (r: Vec<Message>)
    ensures
        r@.len() == 2,
        r@[0].role@ == "system"@,
        r@[0].content@ == CLASSIFIER_INSTRUCTION@,
        r@[1].role@ == "user"@,
        r@[1].content@ == classification_request_text(prompt@),
{
    let mut user_prompt = String::from_str("Categorize the following prompt: \"");
    user_prompt.append(prompt);
    user_prompt.append("\"");
    let system = Message::new("system", CLASSIFIER_INSTRUCTION);
    let user = Message { role: String::from_str("user"), content: user_prompt };
    let mut r: Vec<Message> = Vec::new();
    r.push(system);
    r.push(user);
    r
}

/// Whether `p` occurs in `s` as a contiguous run.
pub open spec fn occurs_in(s: Seq<char>, p: Seq<char>) -> bool {
    exists|i: int| 0 <= i && i + p.len() <= s.len() && #[trigger] s.subrange(i, i + p.len()) == p
}

/// The category named by a lower-cased classifier reply: "tool" wins over
/// "coding", and anything else is a chat.
pub open spec fn category_of(folded: Seq<char>) -> Model {
    if occurs_in(folded, "tool"@) {
        Model::Tool
    } else if occurs_in(folded, "coding"@) {
        Model::Coding
    } else {
        Model::Chat
    }
}

/// Whether a character is white space in the sense of Unicode's
/// `White_Space` property.
pub open spec fn is_white_space(c: char) -> bool {
    ('\u{9}' <= c && c <= '\u{d}') || c == ' ' || c == '\u{85}' || c == '\u{a0}' || c == '\u{1680}'
        || ('\u{2000}' <= c && c <= '\u{200a}') || c == '\u{2028}' || c == '\u{2029}' || c
        == '\u{202f}' || c == '\u{205f}' || c == '\u{3000}'
}

pub open spec fn trim_start_of(s: Seq<char>) -> Seq<char>
    decreases s.len(),
{
    if s.len() > 0 && is_white_space(s[0]) {
        trim_start_of(s.drop_first())
    } else {
        s
    }
}

pub open spec fn trim_end_of(s: Seq<char>) -> Seq<char>
    decreases s.len(),
{
    if s.len() > 0 && is_white_space(s.last()) {
        trim_end_of(s.drop_last())
    } else {
        s
    }
}

/// A text without its leading and trailing white space.
pub open spec fn trimmed(s: Seq<char>) -> Seq<char> {
    trim_end_of(trim_start_of(s))
}

/// The lower-case form of a text, as `str::to_lowercase` gives it.
pub uninterp spec fn lower_of(s: Seq<char>) -> Seq<char>;

/// Relies on `str::contains` with a `&str` pattern: whether the pattern
/// occurs in the text.
#[verifier::external_body]
fn str_contains(s: &str, p: &str) -> (r: bool)
    ensures
        r == occurs_in(s@, p@),
{
    s.contains(p)
}

/// Relies on `str::to_lowercase`: the result depends on the characters alone.
#[verifier::external_body]
fn lowercase(s: &str) -> (r: String)
    ensures
        r@ == lower_of(s@),
{
    s.to_lowercase()
}

/// Relies on `str::trim`: the text without leading and trailing characters
/// that have Unicode's `White_Space` property.
#[verifier::external_body]
pub(crate) fn trim(s: &str) -> (r: &str)
    ensures
        r@ == trimmed(s@),
{
    s.trim()
}

/// The category of an already lower-cased classifier reply.
pub fn resolve_category(folded: &str) -> (r: Model)
    ensures
        r == category_of(folded@),
{
    if str_contains(folded, "tool") {
        Model::Tool
    } else if str_contains(folded, "coding") {
        Model::Coding
    } else {
        Model::Chat
    }
}

/// A classifier reply without surrounding white space, in lower case.
pub fn normalize_reply(reply: &str) -> (r: String)
    ensures
        r@ == lower_of(trimmed(reply@)),
{
    lowercase(trim(reply))
}

/// The category of a classifier reply, read without regard to case or to
/// surrounding white space.
pub fn classify_reply(reply: &str) -> (r: Model)
    ensures
        r == category_of(lower_of(trimmed(reply@))),
{
    let folded = normalize_reply(reply);
    resolve_category(folded.as_str())
}

/// The category chosen for a prompt from the classifier's reply; when the
/// classifier could not be reached (`None`), the prompt is a chat.
pub fn route_from_reply(reply: Option<&str>) -> (r: Model)
    ensures
        reply.is_none() ==> r == Model::Chat,
        reply.is_some() ==> r == category_of(lower_of(trimmed(reply.unwrap()@))),
{
    match reply {
        Some(text) => classify_reply(text),
        None => Model::Chat,
    }
}

} // verus!
