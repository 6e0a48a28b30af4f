use crates_io_cli::channel::{QueryChannel, Received, SendError, QUERY_CAPACITY};
use crates_io_cli::dimension::Dimension;
use crates_io_cli::request::{ResponseBuffer, SearchRequest, MAX_TERM_BYTES};
use crates_io_cli::results::{Crate, Meta, SearchResult};
use crates_io_cli::session::{Session, SessionAction, SessionPhase, TeardownStep};
use crates_io_cli::state::{Key, Mode, State};
use crates_io_cli::worker::{Phase, SearchWorker, WorkerAction, WorkerEvent};

const USAGE: &str =
    "(<ESC> to quit, <enter> to clear, Ctrl+o to open) Please enter your search term.";
const SEARCHING: &str = "\x1b[?25l\x1b[2;1H\x1b[2Ksearching ...";

fn terminal() -> Dimension {
    Dimension { width: 80, height: 24 }
}

fn query(term: &str) -> State {
    State { mode: Mode::Searching, term: term.to_string() }
}

fn url(per_page: u16, encoded: &str) -> String {
    format!("https://crates.io/api/v1/crates?page=1&per_page={}&q={}&sort=", per_page, encoded)
}

fn package(name: &str) -> Crate {
    Crate {
        name: name.to_string(),
        description: Some("text".to_string()),
        downloads: 12,
        max_version: "1.0.2".to_string(),
    }
}

fn result(total: u64, height: u16, rows: &[&str]) -> SearchResult {
    SearchResult {
        meta: Meta { total, dimension: Dimension { width: 80, height } },
        crates: rows.iter().map(|name| package(name)).collect(),
    }
}

#[test]
fn request_asks_for_the_content_height() {
    let request = SearchRequest::new(&query("serde"), terminal()).unwrap();
    assert_eq!(request.page, 1);
    assert_eq!(request.per_page, 22);
    assert_eq!(request.query, "serde");
    assert_eq!(request.url(), "https://crates.io/api/v1/crates?page=1&per_page=22&q=serde&sort=");
}

#[test]
fn request_on_a_tiny_terminal_asks_for_nothing() {
    let request = SearchRequest::new(&query("a"), Dimension { width: 80, height: 1 }).unwrap();
    assert_eq!(request.per_page, 0);
    assert_eq!(request.url(), url(0, "a"));
}

#[test]
fn term_is_percent_encoded() {
    let request = SearchRequest::new(&query("a b&c=d/é"), terminal()).unwrap();
    assert_eq!(request.query, "a%20b%26c%3Dd%2F%C3%A9");
    let request = SearchRequest::new(&query("Az09-._~"), terminal()).unwrap();
    assert_eq!(request.query, "Az09-._~");
    let request = SearchRequest::new(&query("%+*"), terminal()).unwrap();
    assert_eq!(request.query, "%25%2B%2A");
}

#[test]
fn empty_term_encodes_to_nothing() {
    let request = SearchRequest::new(&query(""), terminal()).unwrap();
    assert_eq!(request.query, "");
    assert_eq!(request.url(), url(22, ""));
}

#[test]
fn url_shows_page_and_page_size() {
    let request = SearchRequest { page: 3, per_page: 10, query: "x".to_string() };
    assert_eq!(request.url(), "https://crates.io/api/v1/crates?page=3&per_page=10&q=x&sort=");
    assert_eq!(MAX_TERM_BYTES, 2147483647);
}

#[test]
fn buffer_collects_in_arrival_order() {
    let mut buffer = ResponseBuffer::new();
    assert_eq!(buffer.write(b"{\"crates\""), 9);
    assert_eq!(buffer.write(b""), 0);
    assert_eq!(buffer.write(b":[]}"), 4);
    assert_eq!(buffer.as_slice(), b"{\"crates\":[]}");
    assert_eq!(buffer.into_bytes(), b"{\"crates\":[]}".to_vec());
}

#[test]
fn channel_keeps_submission_order() {
    let mut channel = QueryChannel::new(QUERY_CAPACITY);
    assert_eq!(channel.send(query("a")), Ok(()));
    assert_eq!(channel.send(query("ab")), Ok(()));
    assert_eq!(channel.len(), 2);
    assert_eq!(channel.recv(), Received::Query(query("a")));
    assert_eq!(channel.recv(), Received::Query(query("ab")));
    assert_eq!(channel.recv(), Received::Empty);
}

#[test]
fn full_channel_hands_the_query_back() {
    assert_eq!(QUERY_CAPACITY, 10);
    let mut channel = QueryChannel::new(2);
    assert_eq!(channel.send(query("a")), Ok(()));
    assert_eq!(channel.send(query("b")), Ok(()));
    assert_eq!(channel.send(query("c")), Err(SendError::Full(query("c"))));
    assert_eq!(channel.len(), 2);
    assert_eq!(channel.recv(), Received::Query(query("a")));
    assert_eq!(channel.send(query("c")), Ok(()));
    assert_eq!(channel.recv(), Received::Query(query("b")));
    assert_eq!(channel.recv(), Received::Query(query("c")));
}

#[test]
fn closed_channel_drains_and_takes_nothing_new() {
    let mut channel = QueryChannel::new(QUERY_CAPACITY);
    assert_eq!(channel.send(query("a")), Ok(()));
    assert!(!channel.closed());
    channel.close();
    assert!(channel.closed());
    assert_eq!(channel.send(query("b")), Err(SendError::Closed(query("b"))));
    assert_eq!(channel.recv(), Received::Query(query("a")));
    assert_eq!(channel.recv(), Received::Closed);
}

#[test]
fn worker_fetches_then_paints() {
    let mut worker = SearchWorker::new();
    assert_eq!(worker.current_phase(), Phase::Idle);
    let action = worker.step(WorkerEvent::Query(query("serde json")), terminal());
    assert_eq!(
        action,
        WorkerAction::Fetch { url: url(22, "serde%20json"), status: SEARCHING.to_string() }
    );
    assert_eq!(worker.current_phase(), Phase::Fetching);
    assert_eq!(worker.step(WorkerEvent::Data(b"{\"a\"".to_vec()), terminal()), WorkerAction::Continue);
    assert_eq!(worker.step(WorkerEvent::Data(b":1}".to_vec()), terminal()), WorkerAction::Continue);
    assert_eq!(worker.collected(), b"{\"a\":1}");
    let action = worker.step(WorkerEvent::Complete(Some(result(402, 2, &["serde"]))), terminal());
    assert_eq!(
        action,
        WorkerAction::Paint {
            frame: "\x1b[?25l\x1b[2;1H\x1b[2K402 results in total, showing 2 max\x1b[3;1H\x1b[2Kserde | text | 12 | 1.0.2\r\n\x1b[2K"
                .to_string(),
            content: true,
        }
    );
    assert_eq!(worker.current_phase(), Phase::Idle);
    assert_eq!(worker.collected(), b"");
}

#[test]
fn empty_match_list_leaves_content_alone() {
    let mut worker = SearchWorker::new();
    worker.step(WorkerEvent::Query(query("zzz")), terminal());
    let action = worker.step(WorkerEvent::Complete(Some(result(0, 22, &[]))), terminal());
    let expected = format!(
        "\x1b[?25l\x1b[2;1H\x1b[2K0 results in total, showing 22 max\x1b[?25l\x1b[2;1H\x1b[2K{}\x1b[2;80H - 0 results found",
        USAGE
    );
    assert_eq!(action, WorkerAction::Paint { frame: expected, content: false });
    match action {
        WorkerAction::Paint { frame, content } => {
            assert!(frame.ends_with("0 results found"));
            assert!(!frame.contains("\x1b[3;1H"));
            assert!(!content);
        }
        other => panic!("unexpected action: {:?}", other),
    }
    assert_eq!(worker.current_phase(), Phase::Idle);
}

#[test]
fn undecodable_body_is_fatal_and_dumped() {
    let mut worker = SearchWorker::new();
    worker.step(WorkerEvent::Query(query("a")), terminal());
    worker.step(WorkerEvent::Data(b"<html>".to_vec()), terminal());
    worker.step(WorkerEvent::Data(b"oops".to_vec()), terminal());
    let action = worker.step(WorkerEvent::Complete(None), terminal());
    assert_eq!(
        action,
        WorkerAction::Abort { status: String::new(), diagnostics: b"<html>oops".to_vec() }
    );
    assert_eq!(worker.current_phase(), Phase::Failed);
    assert_eq!(
        worker.step(WorkerEvent::Query(query("b")), terminal()),
        WorkerAction::Refused(WorkerEvent::Query(query("b")))
    );
}

#[test]
fn broken_transfer_is_fatal_and_shown() {
    let mut worker = SearchWorker::new();
    worker.step(WorkerEvent::Query(query("a")), terminal());
    let action = worker.step(WorkerEvent::Broken("timeout".to_string()), terminal());
    assert_eq!(
        action,
        WorkerAction::Abort {
            status: "\x1b[?25l\x1b[2;1H\x1b[2Ktimeout".to_string(),
            diagnostics: Vec::new(),
        }
    );
    assert_eq!(worker.current_phase(), Phase::Failed);
}

#[test]
fn worker_takes_no_second_query_while_fetching() {
    let mut worker = SearchWorker::new();
    worker.step(WorkerEvent::Query(query("a")), terminal());
    worker.step(WorkerEvent::Data(b"x".to_vec()), terminal());
    assert_eq!(
        worker.step(WorkerEvent::Query(query("ab")), terminal()),
        WorkerAction::Refused(WorkerEvent::Query(query("ab")))
    );
    assert_eq!(
        worker.step(WorkerEvent::Closed, terminal()),
        WorkerAction::Refused(WorkerEvent::Closed)
    );
    assert_eq!(worker.current_phase(), Phase::Fetching);
    assert_eq!(worker.collected(), b"x");
}

#[test]
fn idle_worker_refuses_transfer_events() {
    let mut worker = SearchWorker::new();
    assert_eq!(
        worker.step(WorkerEvent::Data(b"x".to_vec()), terminal()),
        WorkerAction::Refused(WorkerEvent::Data(b"x".to_vec()))
    );
    assert_eq!(
        worker.step(WorkerEvent::Complete(None), terminal()),
        WorkerAction::Refused(WorkerEvent::Complete(None))
    );
    assert_eq!(worker.current_phase(), Phase::Idle);
}

#[test]
fn closed_queue_stops_the_worker() {
    let mut worker = SearchWorker::new();
    assert_eq!(worker.step(WorkerEvent::Closed, terminal()), WorkerAction::Stop);
    assert_eq!(worker.current_phase(), Phase::Stopped);
    assert_eq!(
        worker.step(WorkerEvent::Query(query("a")), terminal()),
        WorkerAction::Refused(WorkerEvent::Query(query("a")))
    );
}

#[test]
fn session_opens_with_prompt_and_hint() {
    let (session, frame) = Session::start();
    assert_eq!(session.phase, SessionPhase::Prompting);
    assert_eq!(session.state, State::default());
    assert_eq!(
        frame,
        format!(
            "\x1b[1;1H\x1b[2J\x1b[?25h\x1b[1;1H\x1b[2Kregistry: \x1b[?25l\x1b[2;1H\x1b[2K{}",
            USAGE
        )
    );
}

#[test]
fn typing_redraws_the_prompt_and_submits() {
    let (mut session, _) = Session::start();
    let action = session.on_key(&Key::Char('a'), terminal());
    assert_eq!(
        action,
        SessionAction::Submit {
            frame: "\x1b[?25h\x1b[1;1H\x1b[2Kregistry: a".to_string(),
            query: query("a"),
        }
    );
    assert_eq!(session.phase, SessionPhase::Prompting);
}

#[test]
fn emptied_term_clears_content_and_submits_nothing() {
    let (mut session, _) = Session::start();
    session.on_key(&Key::Char('a'), Dimension { width: 80, height: 4 });
    let action = session.on_key(&Key::Backspace, Dimension { width: 80, height: 4 });
    assert_eq!(
        action,
        SessionAction::Paint {
            frame: format!(
                "\x1b[?25h\x1b[1;1H\x1b[2Kregistry: \x1b[?25l\x1b[2;1H\x1b[2K{}\x1b[3;1H\x1b[2K\r\n\x1b[2K",
                USAGE
            ),
        }
    );
    assert_eq!(session.state.term, "");
}

#[test]
fn unsupported_key_goes_to_the_status_line() {
    let (mut session, _) = Session::start();
    session.on_key(&Key::Char('a'), terminal());
    let action = session.on_key(&Key::Other("Left".to_string()), terminal());
    assert_eq!(
        action,
        SessionAction::Paint {
            frame: "\x1b[?25l\x1b[2;1H\x1b[2Kunsupported key sequence: Left".to_string(),
        }
    );
    assert_eq!(session.state.term, "a");
    assert_eq!(session.phase, SessionPhase::Prompting);
}

#[test]
fn esc_terminates_for_good() {
    let (mut session, _) = Session::start();
    session.on_key(&Key::Char('a'), terminal());
    assert_eq!(session.on_key(&Key::Esc, terminal()), SessionAction::Terminate);
    assert_eq!(session.phase, SessionPhase::Terminated);
    assert_eq!(session.on_key(&Key::Char('b'), terminal()), SessionAction::Terminate);
    assert_eq!(session.state.term, "a");
    assert_eq!(session.phase, SessionPhase::Terminated);
}

#[test]
fn teardown_restores_the_terminal_last() {
    assert_eq!(
        Session::teardown(),
        vec![TeardownStep::CloseChannel, TeardownStep::JoinWorker, TeardownStep::RestoreTerminal]
    );
}

#[test]
fn two_queries_then_esc_are_processed_in_order() {
    let (mut session, _) = Session::start();
    let mut channel = QueryChannel::new(QUERY_CAPACITY);
    let mut worker = SearchWorker::new();
    for key in [Key::Char('a'), Key::Char('b'), Key::Esc] {
        match session.on_key(&key, terminal()) {
            SessionAction::Submit { query, .. } => assert_eq!(channel.send(query), Ok(())),
            SessionAction::Paint { .. } => panic!("nothing but queries and the end is expected"),
            SessionAction::Terminate => break,
        }
    }
    assert_eq!(session.phase, SessionPhase::Terminated);
    assert_eq!(channel.len(), 2);
    let steps = Session::teardown();
    assert_eq!(steps[0], TeardownStep::CloseChannel);
    channel.close();

    let mut fetched = Vec::new();
    loop {
        let event = worker.poll(&mut channel).expect("a closed queue is never merely empty");
        match worker.step(event, terminal()) {
            WorkerAction::Fetch { url, .. } => {
                fetched.push(url);
                assert_eq!(worker.current_phase(), Phase::Fetching);
                let done = WorkerEvent::Complete(Some(result(1, 22, &["row"])));
                match worker.step(done, terminal()) {
                    WorkerAction::Paint { content, .. } => assert!(content),
                    other => panic!("unexpected action: {:?}", other),
                }
            }
            WorkerAction::Stop => break,
            other => panic!("unexpected action: {:?}", other),
        }
    }
    assert_eq!(fetched, vec![url(22, "a"), url(22, "ab")]);
    assert_eq!(worker.current_phase(), Phase::Stopped);
    assert_eq!(channel.len(), 0);
    assert_eq!(channel.recv(), Received::Closed);
}

#[test]
fn only_an_idle_worker_takes_from_the_queue() {
    let mut channel = QueryChannel::new(QUERY_CAPACITY);
    let mut worker = SearchWorker::new();
    assert_eq!(worker.poll(&mut channel), None);
    assert_eq!(channel.send(query("a")), Ok(()));
    assert_eq!(channel.send(query("ab")), Ok(()));
    let first = worker.poll(&mut channel);
    assert_eq!(first, Some(WorkerEvent::Query(query("a"))));
    worker.step(WorkerEvent::Query(query("a")), terminal());
    assert_eq!(worker.poll(&mut channel), None);
    assert_eq!(channel.len(), 1);
    worker.step(WorkerEvent::Complete(Some(result(0, 22, &[]))), terminal());
    assert_eq!(worker.poll(&mut channel), Some(WorkerEvent::Query(query("ab"))));
    channel.close();
    assert_eq!(worker.poll(&mut channel), Some(WorkerEvent::Closed));
}
