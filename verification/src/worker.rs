//! The search worker: one query at a time, from request to repaint. The
//! worker decides; whoever drives it performs the transfer and reports back.
//!
//! Nothing is cancelled and nothing is skipped: a query that was queued is
//! fetched and painted even where the user has typed on since, so a result
//! may show for a term that is no longer on the prompt line.

use vstd::prelude::*;
use vstd::utf8::encode_utf8;
use crate::channel::{QueryChannel, Received};
use crate::dimension::{content_height, Dimension};
use crate::request::{percent_encoded, search_url, ResponseBuffer, SearchRequest, MAX_TERM_BYTES};
use crate::results::SearchResult;
use crate::screen::{
    content, content_frame, info, info_frame, results_status, results_text, zero_results,
    zero_results_frame, zero_results_text,
};
use crate::state::State;

verus! {

/// Where the worker stands.
#[derive(Clone, Copy, Debug, PartialEq, Eq, Structural)]
pub enum Phase {
    /// Ready for the next query.
    Idle,
    /// A request is under way and its body is being collected.
    Fetching,
    /// The queue was closed and drained; the worker is done.
    Stopped,
    /// A search failed; the session cannot go on.
    Failed,
}

/// What the driver reports to the worker.
#[derive(Debug, PartialEq, Eq)]
pub enum WorkerEvent {
    /// The next query from the queue.
    Query(State),
    /// The queue is closed and empty.
    Closed,
    /// A piece of the response body arrived.
    Data(Vec<u8>),
    /// The transfer ended; the body as decoded, or `None` where it cannot
    /// be decoded.
    Complete(Option<SearchResult>),
    /// The transfer broke off, with the reason.
    Broken(String),
}

/// What the worker asks of the driver.
#[derive(Debug, PartialEq, Eq)]
pub enum WorkerAction {
    /// Write `status` to the terminal and start fetching `url`.
    Fetch { url: String, status: String },
    /// Keep the transfer going.
    Continue,
    /// Write `frame` to the terminal, then take the next query. `content`
    /// says whether the frame repaints the content area.
    Paint { frame: String, content: bool },
    /// Write `status` to the terminal and `diagnostics` to the diagnostics
    /// stream, then end the session.
    Abort { status: String, diagnostics: Vec<u8> },
    /// Leave the loop: there is nothing more to do.
    Stop,
    /// The event does not fit the worker's phase. It is handed back and
    /// nothing has changed.
    Refused(WorkerEvent),
}

/// The search worker.
#[derive(Debug)]
pub struct SearchWorker {
    phase: Phase,
    buffer: ResponseBuffer,
}

/// The status shown while a request is under way.
pub open spec fn searching_text() -> Seq<char> {
    "searching ..."@
}

/// The status shown for a term that no request can carry.
pub open spec fn oversized_text() -> Seq<char> {
    "search term too long"@
}

/// What is painted for a decoded response: without matches the status line
/// alone, else the status line and the whole content area.
pub open spec fn response_frame(result: SearchResult) -> Seq<char> {
    let height = result.meta.dimension.height;
    if result.crates@.len() == 0 {
        zero_results_frame(result.meta.total, height)
    } else {
        info_frame(results_text(result.meta.total, height)) + content_frame(result.crates@, height)
    }
}

/// Whether `event` is one that the worker acts on in `phase`.
pub open spec fn fits(phase: Phase, event: WorkerEvent) -> bool {
    match phase {
        Phase::Idle => event is Query || event is Closed,
        Phase::Fetching => event is Data || event is Complete || event is Broken,
        Phase::Stopped => false,
        Phase::Failed => false,
    }
}

/// The phase after `event`.
pub open spec fn next_phase(phase: Phase, event: WorkerEvent) -> Phase {
    if !fits(phase, event) {
        phase
    } else {
        match event {
            WorkerEvent::Query(query) => if encode_utf8(query.term@).len() <= MAX_TERM_BYTES {
                Phase::Fetching
            } else {
                Phase::Failed
            },
            WorkerEvent::Closed => Phase::Stopped,
            WorkerEvent::Data(_) => Phase::Fetching,
            WorkerEvent::Complete(Some(_)) => Phase::Idle,
            WorkerEvent::Complete(None) => Phase::Failed,
            WorkerEvent::Broken(_) => Phase::Failed,
        }
    }
}

/// The body collected after `event`.
pub open spec fn next_body(phase: Phase, body: Seq<u8>, event: WorkerEvent) -> Seq<u8> {
    if !fits(phase, event) {
        body
    } else {
        match event {
            WorkerEvent::Data(data) => body + data@,
            _ => Seq::empty(),
        }
    }
}

/// Whether `action` is what the worker owes for `event`, in `phase` with
/// `body` collected, on a terminal of size `terminal`.
pub open spec fn answers(
    action: WorkerAction,
    phase: Phase,
    body: Seq<u8>,
    event: WorkerEvent,
    terminal: Dimension,
) -> bool {
    if !fits(phase, event) {
        action == WorkerAction::Refused(event)
    } else {
        match event {
            WorkerEvent::Query(query) => if encode_utf8(query.term@).len() <= MAX_TERM_BYTES {
                action matches WorkerAction::Fetch { url, status } && url@ == search_url(
                    content_height(terminal.height),
                    percent_encoded(encode_utf8(query.term@)),
                ) && status@ == info_frame(searching_text())
            } else {
                action matches WorkerAction::Abort { status, diagnostics } && status@
                    == info_frame(oversized_text()) && diagnostics@ == Seq::<u8>::empty()
            },
            WorkerEvent::Closed => action is Stop,
            WorkerEvent::Data(_) => action is Continue,
            WorkerEvent::Complete(Some(result)) => action matches WorkerAction::Paint {
                frame,
                content,
            } && frame@ == response_frame(result) && content == (result.crates@.len() > 0),
            WorkerEvent::Complete(None) => action matches WorkerAction::Abort {
                status,
                diagnostics,
            } && status@ == Seq::<char>::empty() && diagnostics@ == body,
            WorkerEvent::Broken(reason) => action matches WorkerAction::Abort {
                status,
                diagnostics,
            } && status@ == info_frame(reason@) && diagnostics@ == Seq::<u8>::empty(),
        }
    }
}

impl SearchWorker {
    /// The worker's phase.
    pub closed spec fn phase(&self) -> Phase {
        self.phase
    }

    /// The response body collected so far.
    pub closed spec fn body(&self) -> Seq<u8> {
        self.buffer@
    }

    /// A worker that waits for its first query.
    pub fn new() -> (worker: SearchWorker)
        ensures
            worker.phase() == Phase::Idle,
            worker.body() == Seq::<u8>::empty(),
    {
        SearchWorker { phase: Phase::Idle, buffer: ResponseBuffer::new() }
    }

    /// The worker's phase.
    pub fn current_phase(&self) -> (phase: Phase)
        ensures
            phase == self.phase(),
    {
        self.phase
    }

    /// The response body collected so far, for decoding.
    pub fn collected(&self) -> (bytes: &[u8])
        ensures
            bytes@ == self.body(),
    {
        self.buffer.as_slice()
    }

    /// Looks to the queue for the next event. Only an idle worker takes
    /// anything from it: the oldest query, or the news that the queue is
    /// closed and drained. `None` means that there is nothing to act on yet.
    pub fn poll(&self, channel: &mut QueryChannel) -> (event: Option<WorkerEvent>)
        ensures
            final(channel).capacity() == old(channel).capacity(),
            final(channel).is_closed() == old(channel).is_closed(),
            old(channel).well_formed() ==> final(channel).well_formed(),
            match event {
                Some(WorkerEvent::Query(query)) => self.phase() == Phase::Idle && old(channel).pending().len() > 0 && query@ == old(channel).pending().first() && final(channel).pending() == old(channel).pending().drop_first(),
                Some(WorkerEvent::Closed) => self.phase() == Phase::Idle && old(channel).pending().len() == 0 && old(channel).is_closed() && final(channel).pending()
                    == old(channel).pending(),
                Some(_) => false,
                None => (self.phase() != Phase::Idle || (old(channel).pending().len() == 0 && !old(channel).is_closed())) && final(channel).pending() == old(channel).pending(),
            },
    {
        if self.phase != Phase::Idle {
            return None;
        }
        match channel.recv() {
            Received::Query(query) => Some(WorkerEvent::Query(query)),
            Received::Closed => Some(WorkerEvent::Closed),
            Received::Empty => None,
        }
    }

    /// Takes one event and says what to do about it.
    pub fn step(&mut self, event: WorkerEvent, terminal: Dimension) -> (action: WorkerAction)
        ensures
            final(self).phase() == next_phase(old(self).phase(), event),
            final(self).body() == next_body(old(self).phase(), old(self).body(), event),
            answers(action, old(self).phase(), old(self).body(), event, terminal),
    {
        match self.phase {
            Phase::Idle => match event {
                WorkerEvent::Query(query) => {
                    self.buffer = ResponseBuffer::new();
                    match SearchRequest::new(&query, terminal) {
                        Some(request) => {
                            self.phase = Phase::Fetching;
                            let status = info("searching ...");
                            WorkerAction::Fetch { url: request.url(), status: status.frame }
                        },
                        None => {
                            self.phase = Phase::Failed;
                            let status = info("search term too long");
                            WorkerAction::Abort { status: status.frame, diagnostics: Vec::new() }
                        },
                    }
                },
                WorkerEvent::Closed => {
                    self.phase = Phase::Stopped;
                    self.buffer = ResponseBuffer::new();
                    WorkerAction::Stop
                },
                other => WorkerAction::Refused(other),
            },
            Phase::Fetching => match event {
                WorkerEvent::Data(data) => {
                    self.buffer.write(data.as_slice());
                    WorkerAction::Continue
                },
                WorkerEvent::Complete(Some(result)) => {
                    self.phase = Phase::Idle;
                    self.buffer = ResponseBuffer::new();
                    let height: u16 = result.meta.dimension.height;
                    if result.crates.len() == 0 {
                        WorkerAction::Paint {
                            frame: zero_results(result.meta.total, height),
                            content: false,
                        }
                    } else {
                        let status = results_status(result.meta.total, height);
                        let mut frame = info(status.as_str()).frame;
                        let body = content(&result);
                        frame.push_str(body.as_str());
                        assert(frame@ =~= response_frame(result));
                        WorkerAction::Paint { frame, content: true }
                    }
                },
                WorkerEvent::Complete(None) => {
                    self.phase = Phase::Failed;
                    let mut taken = ResponseBuffer::new();
                    std::mem::swap(&mut self.buffer, &mut taken);
                    WorkerAction::Abort { status: String::new(), diagnostics: taken.into_bytes() }
                },
                WorkerEvent::Broken(reason) => {
                    self.phase = Phase::Failed;
                    self.buffer = ResponseBuffer::new();
                    let status = info(reason.as_str());
                    WorkerAction::Abort { status: status.frame, diagnostics: Vec::new() }
                },
                other => WorkerAction::Refused(other),
            },
            Phase::Stopped => WorkerAction::Refused(event),
            Phase::Failed => WorkerAction::Refused(event),
        }
    }
}

/// A request is issued only by an idle worker, for a query. While one is
/// under way no event makes the worker issue another, and the worker is idle
/// again only once the response has been decoded and painted.
pub proof fn one_request_at_a_time(
    action: WorkerAction,
    phase: Phase,
    body: Seq<u8>,
    event: WorkerEvent,
    terminal: Dimension,
)
    requires
        answers(action, phase, body, event, terminal),
    ensures
        action is Fetch ==> phase == Phase::Idle && event is Query,
        phase == Phase::Fetching && event is Query ==> action == WorkerAction::Refused(event)
            && next_phase(phase, event) == Phase::Fetching,
        phase == Phase::Fetching && next_phase(phase, event) == Phase::Idle ==> action is Paint,
{
}

/// A response without matches paints a status that ends in the remark that
/// nothing was found, and leaves the content area alone.
pub proof fn no_matches_leave_content(
    action: WorkerAction,
    body: Seq<u8>,
    result: SearchResult,
    terminal: Dimension,
)
    requires
        result.crates@.len() == 0,
        answers(action, Phase::Fetching, body, WorkerEvent::Complete(Some(result)), terminal),
    ensures
        action matches WorkerAction::Paint { frame, content } && !content && frame@.len()
            >= zero_results_text().len() && frame@.subrange(
            frame@.len() - zero_results_text().len(),
            frame@.len() as int,
        ) == zero_results_text(),
{
    let frame = action->Paint_frame;
    let tail = zero_results_text();
    let height = result.meta.dimension.height;
    assert(frame@ == zero_results_frame(result.meta.total, height));
    assert(frame@.subrange(frame@.len() - tail.len(), frame@.len() as int) =~= tail);
}

} // verus!
