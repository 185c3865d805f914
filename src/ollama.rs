//! The values exchanged with the inference server.

use vstd::prelude::*;

verus! {

/// One message of a conversation: who speaks (`system`, `user` or
/// `assistant`) and what is said.
#[derive(Debug, Clone)]
pub struct Message {
    pub role: String,
    pub content: String,
}

/// A chat request for one model over an ordered list of messages.
#[derive(Debug)]
pub struct OllamaRequest {
    pub model: String,
    pub messages: Vec<Message>,
    pub stream: bool,
}

/// A complete, non-streamed answer with its performance counters.
#[derive(Debug)]
pub struct OllamaResponse {
    pub message: Message,
    /// Total time of the request, in nanoseconds.
    pub total_duration: u64,
    /// Number of tokens in the answer.
    pub eval_count: usize,
    /// Time spent producing the answer, in nanoseconds.
    pub eval_duration: u64,
}

/// One incremental piece of a streamed answer. Only the final piece
/// (`done`) carries the performance counters.
#[derive(Debug)]
pub struct StreamChunk {
    pub message: Message,
    pub done: bool,
    pub total_duration: Option<u64>,
    pub eval_count: Option<usize>,
    pub eval_duration: Option<u64>,
}

/// Performance counters reported at the end of an answer.
#[derive(Debug, Clone, Copy, PartialEq, Eq, Structural)]
pub struct TerminalMetrics {
    pub total_duration_ns: u64,
    pub eval_token_count: usize,
    pub eval_duration_ns: u64,
}

pub open spec fn or_zero_u64(v: Option<u64>) -> u64 {
    match v {
        Some(x) => x,
        None => 0,
    }
}

pub open spec fn or_zero_usize(v: Option<usize>) -> usize {
    match v {
        Some(x) => x,
        None => 0,
    }
}

/// The counters of a chunk, each absent one read as zero.
pub open spec fn chunk_metrics(c: StreamChunk) -> TerminalMetrics {
    TerminalMetrics {
        total_duration_ns: or_zero_u64(c.total_duration),
        eval_token_count: or_zero_usize(c.eval_count),
        eval_duration_ns: or_zero_u64(c.eval_duration),
    }
}

impl Message {
    /// A message with the given role and content.
    pub fn new(role: &str, content: &str) -> (r: Message)
        ensures
            r.role@ == role@,
            r.content@ == content@,
    {
        Message { role: String::from_str(role), content: String::from_str(content) }
    }
}

impl OllamaRequest {
    /// The request that asks `model` to answer `messages`, streamed or not.
    pub fn new(model: &str, messages: Vec<Message>, stream: bool) -> (r: OllamaRequest)
        ensures
            r.model@ == model@,
            r.messages@ == messages@,
            r.stream == stream,
    {
        OllamaRequest { model: String::from_str(model), messages, stream }
    }
}

impl OllamaResponse {
    /// The performance counters of a complete answer.
    pub fn metrics(&self) -> (r: TerminalMetrics)
        ensures
            r.total_duration_ns == self.total_duration,
            r.eval_token_count == self.eval_count,
            r.eval_duration_ns == self.eval_duration,
    {
        TerminalMetrics {
            total_duration_ns: self.total_duration,
            eval_token_count: self.eval_count,
            eval_duration_ns: self.eval_duration,
        }
    }
}

impl StreamChunk {
    /// The counters carried by this chunk; an absent counter reads as zero.
    pub fn metrics(&self) -> (r: TerminalMetrics)
        ensures
            r == chunk_metrics(*self),
    {
        let total_duration_ns = match self.total_duration {
            Some(x) => x,
            None => 0,
        };
        let eval_token_count = match self.eval_count {
            Some(x) => x,
            None => 0,
        };
        let eval_duration_ns = match self.eval_duration {
            Some(x) => x,
            None => 0,
        };
        TerminalMetrics { total_duration_ns, eval_token_count, eval_duration_ns }
    }
}

} // verus!
