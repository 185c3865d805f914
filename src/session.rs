//! The decisions of the streaming session controller.
//!
//! The controller runs a spinner while it waits for the first piece of an
//! answer, then writes each piece as it arrives and keeps the whole text and
//! the final performance counters. The waiting, the spinner task and the
//! terminal belong to the caller; this module decides, for each event of the
//! stream, what the caller does and what the session keeps.

use vstd::prelude::*;
use crate::ollama::{chunk_metrics, StreamChunk, TerminalMetrics};

verus! {

/// What a session has kept so far.
pub struct SessionView {
    pub content: Seq<char>,
    pub metrics: Option<TerminalMetrics>,
    pub stop_sent: bool,
}

/// The state of a session before any chunk has come.
pub open spec fn initial_view() -> SessionView {
    SessionView { content: Seq::empty(), metrics: None, stop_sent: false }
}

/// Whether a chunk carries text.
pub open spec fn has_text(c: StreamChunk) -> bool {
    c.message.content@.len() > 0
}

/// Whether a chunk makes the session stop the spinner: the first chunk with
/// text does.
pub open spec fn chunk_stops(s: SessionView, c: StreamChunk) -> bool {
    !s.stop_sent && has_text(c)
}

/// The session after one chunk: its text is appended, and a final chunk's
/// counters are kept.
pub open spec fn step(s: SessionView, c: StreamChunk) -> SessionView {
    SessionView {
        content: s.content + c.message.content@,
        metrics: if c.done { Some(chunk_metrics(c)) } else { s.metrics },
        stop_sent: s.stop_sent || has_text(c),
    }
}

/// The session after a sequence of chunks, in arrival order.
pub open spec fn run(chunks: Seq<StreamChunk>) -> SessionView
    decreases chunks.len(),
{
    if chunks.len() == 0 {
        initial_view()
    } else {
        step(run(chunks.drop_last()), chunks.last())
    }
}

/// How many stop signals the chunks themselves trigger.
pub open spec fn stops_during(chunks: Seq<StreamChunk>) -> nat
    decreases chunks.len(),
{
    if chunks.len() == 0 {
        0
    } else {
        stops_during(chunks.drop_last()) + if chunk_stops(
            run(chunks.drop_last()),
            chunks.last(),
        ) {
            1nat
        } else {
            0nat
        }
    }
}

/// The concatenation of the chunks' text deltas, in order.
pub open spec fn concat_deltas(chunks: Seq<StreamChunk>) -> Seq<char>
    decreases chunks.len(),
{
    if chunks.len() == 0 {
        Seq::empty()
    } else {
        concat_deltas(chunks.drop_last()) + chunks.last().message.content@
    }
}

/// Whether some chunk is marked final.
pub open spec fn has_final(chunks: Seq<StreamChunk>) -> bool {
    exists|i: int| 0 <= i < chunks.len() && #[trigger] chunks[i].done
}

/// The frames the spinner cycles through while it waits.
pub open spec fn spinner_frames() -> Seq<char> {
    seq!['⠋', '⠙', '⠹', '⠸', '⠼', '⠴', '⠦', '⠧', '⠇', '⠏']
}

/// The frame the spinner shows at a given tick: the frames in turn, over and
/// over.
pub fn spinner_frame(tick: usize) -> (r: char)
    ensures
        r == spinner_frames()[(tick % 10) as int],
{
    let frames: [char; 10] = ['⠋', '⠙', '⠹', '⠸', '⠼', '⠴', '⠦', '⠧', '⠇', '⠏'];
    proof {
        assert(frames@ =~= spinner_frames());
    }
    frames[tick % 10]
}

/// What the caller does for one chunk.
#[derive(Debug, Clone, Copy, PartialEq, Eq, Structural)]
pub struct ChunkStep {
    /// Signal the spinner to stop and wait until it has cleared its line,
    /// before anything is written.
    pub stop_spinner: bool,
    /// Write the chunk's text to the output.
    pub write: bool,
}

/// What a session hands back when its stream has ended.
#[derive(Debug)]
pub struct SessionOutcome {
    /// The whole answer.
    pub content: String,
    /// The counters of the final chunk, if one came.
    pub metrics: Option<TerminalMetrics>,
    /// Signal the spinner to stop: no chunk with text has done so.
    pub stop_spinner: bool,
}

/// The state of one streamed answer.
pub struct StreamSession {
    /// The text of all chunks so far, in arrival order.
    pub content: String,
    /// The counters of the last final chunk so far.
    pub metrics: Option<TerminalMetrics>,
    /// Whether the spinner has been told to stop.
    pub stop_sent: bool,
}

impl View for StreamSession {
    type V = SessionView;

    open spec fn view(&self) -> SessionView {
        SessionView { content: self.content@, metrics: self.metrics, stop_sent: self.stop_sent }
    }
}

impl StreamSession {
    /// A session that has seen no chunk.
    pub fn new() -> (r: StreamSession)
        ensures
            r@ == initial_view(),
    {
        StreamSession { content: String::new(), metrics: None, stop_sent: false }
    }

    /// Takes in the next chunk of the stream and says what to do with it.
    /// When `stop_spinner` is set the caller stops the spinner, and waits for
    /// it, before it writes.
    pub fn on_chunk(&mut self, chunk: &StreamChunk) -> (r: ChunkStep)
        ensures
            final(self)@ == step(old(self)@, *chunk),
            r.stop_spinner == chunk_stops(old(self)@, *chunk),
            r.write == has_text(*chunk),
    {
        let has_text = !chunk.message.content.as_str().is_empty();
        let stop_spinner = has_text && !self.stop_sent;
        if has_text {
            self.stop_sent = true;
            self.content.append(chunk.message.content.as_str());
        } else {
            proof {
                assert(self.content@ + chunk.message.content@ =~= self.content@);
            }
        }
        if chunk.done {
            self.metrics = Some(chunk.metrics());
        }
        ChunkStep { stop_spinner, write: has_text }
    }

    /// Ends a stream that ended normally. The spinner is told to stop here
    /// when no chunk had text.
    pub fn finish(self) -> (r: SessionOutcome)
        ensures
            r.content@ == self@.content,
            r.metrics == self@.metrics,
            r.stop_spinner == !self@.stop_sent,
    {
        SessionOutcome { content: self.content, metrics: self.metrics, stop_spinner: !self.stop_sent }
    }

    /// Ends a stream that failed. The text kept so far is dropped; the result
    /// says whether the spinner has yet to be told to stop.
    pub fn abort(self) -> (r: bool)
        ensures
            r == !self@.stop_sent,
    {
        !self.stop_sent
    }
}

/// Runs a session over a complete sequence of chunks.
pub fn collect_chunks(chunks: &[StreamChunk]) -> (r: SessionOutcome)
    ensures
        r.content@ == concat_deltas(chunks@),
        r.content@ == run(chunks@).content,
        r.metrics == run(chunks@).metrics,
        r.stop_spinner == !run(chunks@).stop_sent,
{
    let mut session = StreamSession::new();
    let mut i: usize = 0;
    while i < chunks.len()
        invariant
            i <= chunks@.len(),
            session@ == run(chunks@.subrange(0, i as int)),
        decreases chunks@.len() - i,
    {
        proof {
            assert(chunks@.subrange(0, i + 1).drop_last() =~= chunks@.subrange(0, i as int));
        }
        let _ = session.on_chunk(&chunks[i]);
        i = i + 1;
    }
    proof {
        assert(chunks@.subrange(0, i as int) =~= chunks@);
        lemma_text_is_concatenation(chunks@);
    }
    session.finish()
}

/// The text a session keeps is the concatenation of all deltas, in arrival
/// order, for any number of chunks, none included.
pub proof fn lemma_text_is_concatenation(chunks: Seq<StreamChunk>)
    ensures
        run(chunks).content == concat_deltas(chunks),
    decreases chunks.len(),
{
    if chunks.len() > 0 {
        lemma_text_is_concatenation(chunks.drop_last());
    }
}

/// Whatever the chunks, the spinner is told to stop exactly once: by the
/// first chunk with text, or at the end of the stream when none had text.
pub proof fn lemma_spinner_stopped_once(chunks: Seq<StreamChunk>)
    ensures
        stops_during(chunks) + (if run(chunks).stop_sent { 0nat } else { 1nat }) == 1,
    decreases chunks.len(),
{
    lemma_stops_match_flag(chunks);
}

proof fn lemma_stops_match_flag(chunks: Seq<StreamChunk>)
    ensures
        stops_during(chunks) == if run(chunks).stop_sent { 1nat } else { 0nat },
    decreases chunks.len(),
{
    if chunks.len() > 0 {
        lemma_stops_match_flag(chunks.drop_last());
    }
}

/// The kept counters are present exactly when a final chunk came; they are
/// then those of the last final chunk, an absent counter read as zero.
pub proof fn lemma_metrics_iff_final(chunks: Seq<StreamChunk>)
    ensures
        run(chunks).metrics.is_some() <==> has_final(chunks),
        chunks.len() > 0 && chunks.last().done ==> run(chunks).metrics == Some(
            chunk_metrics(chunks.last()),
        ),
    decreases chunks.len(),
{
    if chunks.len() > 0 {
        let init = chunks.drop_last();
        lemma_metrics_iff_final(init);
        if has_final(init) {
            let i = choose|i: int| 0 <= i < init.len() && #[trigger] init[i].done;
            assert(chunks[i].done);
        }
        if has_final(chunks) && !chunks.last().done {
            let i = choose|i: int| 0 <= i < chunks.len() && #[trigger] chunks[i].done;
            assert(init[i].done);
        }
        if chunks.last().done {
            assert(chunks[chunks.len() - 1].done);
        }
    }
}

} // verus!
