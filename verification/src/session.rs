//! The session as a whole: keys come in, repaints and queries go out, and
//! Esc ends it.

use vstd::prelude::*;
use crate::dimension::{content_height, dimension, Dimension};
use crate::results::{Crate, SearchResult};
use crate::screen::{
    content, content_frame, goto_sequence, info, info_frame, open_screen, opening_frame,
    prompt_frame, promptf, reset_frame, show_sequence, usage, usage_text,
};
use crate::state::{is_edit, term_after_key, unsupported_message, Key, KeyOutcome, State};

verus! {

/// Where the session stands.
#[derive(Clone, Copy, Debug, PartialEq, Eq, Structural)]
pub enum SessionPhase {
    /// Keys are read and acted on.
    Prompting,
    /// Esc was pressed; only the teardown is left.
    Terminated,
}

/// One step of the teardown.
#[derive(Clone, Copy, Debug, PartialEq, Eq, Structural)]
pub enum TeardownStep {
    /// Drop the sending end of the queue, so that the worker ends once the
    /// queue is drained.
    CloseChannel,
    /// Wait for the worker to finish.
    JoinWorker,
    /// Show the cursor, clear the screen, leave raw mode.
    RestoreTerminal,
}

/// What the key reader has to do after a key.
#[derive(Debug, PartialEq, Eq)]
pub enum SessionAction {
    /// Write `frame` to the terminal.
    Paint { frame: String },
    /// Write `frame` to the terminal and queue `query` for the worker.
    Submit { frame: String, query: State },
    /// Stop reading keys and tear the session down.
    Terminate,
}

/// The session: its phase and the state that the keys edit.
#[derive(Debug)]
pub struct Session {
    pub phase: SessionPhase,
    pub state: State,
}

/// The phase after `key`: Esc ends a running session, and nothing brings an
/// ended one back.
pub open spec fn phase_after(phase: SessionPhase, key: Key) -> SessionPhase {
    if key is Esc {
        SessionPhase::Terminated
    } else {
        phase
    }
}

/// What is painted when the term has become empty: the empty prompt, the
/// hint, and a content area of blank lines.
pub open spec fn cleared_frame(terminal: Dimension) -> Seq<char> {
    prompt_frame(Seq::empty()) + info_frame(usage_text()) + content_frame(
        Seq::empty(),
        content_height(terminal.height),
    )
}

/// The teardown, in the one order that is safe.
pub open spec fn teardown_order() -> Seq<TeardownStep> {
    seq![TeardownStep::CloseChannel, TeardownStep::JoinWorker, TeardownStep::RestoreTerminal]
}

impl Session {
    /// A new session with an empty term, and what to write to the terminal
    /// to open it.
    pub fn start() -> (opened: (Session, String))
        ensures
            opened.0.phase == SessionPhase::Prompting,
            opened.0.state.term@ == Seq::<char>::empty(),
            opened.0.state.well_formed(),
            opened.1@ == opening_frame(),
    {
        (Session { phase: SessionPhase::Prompting, state: State::default() }, open_screen())
    }

    /// Takes one key. An ended session takes none: it answers `Terminate`
    /// and stays as it is.
    pub fn on_key(&mut self, key: &Key, terminal: Dimension) -> (action: SessionAction)
        ensures
            old(self).phase == SessionPhase::Terminated ==> *final(self) == *old(self)
                && action is Terminate,
            old(self).phase == SessionPhase::Prompting ==> {
                &&& final(self).phase == phase_after(old(self).phase, *key)
                &&& final(self).state.mode == old(self).state.mode
                &&& final(self).state.term@ == term_after_key(old(self).state.term@, *key)
                &&& old(self).state.well_formed() ==> final(self).state.well_formed()
                &&& match action {
                    SessionAction::Terminate => *key is Esc,
                    SessionAction::Submit { frame, query } => is_edit(*key) && query@ == final(self).state@ && query.term@.len() > 0 && frame@ == prompt_frame(query.term@),
                    SessionAction::Paint { frame } => if is_edit(*key) {
                        final(self).state.term@.len() == 0 && frame@ == cleared_frame(terminal)
                    } else {
                        !(*key is Esc) && frame@ == info_frame(unsupported_message(*key))
                    },
                }
            },
    {
        if self.phase == SessionPhase::Terminated {
            return SessionAction::Terminate;
        }
        match self.state.apply_key(key) {
            KeyOutcome::Quit => {
                self.phase = SessionPhase::Terminated;
                SessionAction::Terminate
            },
            KeyOutcome::Unsupported(message) => SessionAction::Paint {
                frame: info(message.as_str()).frame,
            },
            KeyOutcome::Cleared => {
                let mut frame = promptf(self.state.term.as_str());
                let hint = usage();
                frame.push_str(hint.frame.as_str());
                let blank = SearchResult::with_dimension(dimension(terminal));
                let area = content(&blank);
                frame.push_str(area.as_str());
                assert(blank.crates@ =~= Seq::<Crate>::empty());
                assert(frame@ =~= cleared_frame(terminal));
                SessionAction::Paint { frame }
            },
            KeyOutcome::Submit(query) => SessionAction::Submit {
                frame: promptf(self.state.term.as_str()),
                query,
            },
        }
    }

    /// The steps that end a session, in order: the queue is closed before
    /// the worker is waited for, and the terminal is restored last.
    pub fn teardown() -> (steps: Vec<TeardownStep>)
        ensures
            steps@ == teardown_order(),
    {
        let mut steps: Vec<TeardownStep> = Vec::new();
        steps.push(TeardownStep::CloseChannel);
        steps.push(TeardownStep::JoinWorker);
        steps.push(TeardownStep::RestoreTerminal);
        assert(steps@ =~= teardown_order());
        steps
    }
}

/// Esc ends the session from wherever it stands, whatever the worker is
/// doing; the teardown that follows ends by restoring the terminal, and what
/// is written then shows the cursor.
pub proof fn esc_ends_session(phase: SessionPhase)
    ensures
        phase_after(phase, Key::Esc) == SessionPhase::Terminated,
        teardown_order().last() == TeardownStep::RestoreTerminal,
        reset_frame().subrange(
            goto_sequence(1, 1).len() as int,
            (goto_sequence(1, 1).len() + show_sequence().len()) as int,
        ) == show_sequence(),
{
    let start = goto_sequence(1, 1).len() as int;
    assert(reset_frame().subrange(start, start + show_sequence().len()) =~= show_sequence());
}

} // verus!
