//! The three regions of the screen and the escape sequences that repaint
//! them: the prompt on line 1, the status on line 2, the content from line 3
//! down. Every function here returns the text to write to the terminal.

use vstd::prelude::*;
use vstd::string::*;
use crate::results::{row_text, Crate, SearchResult};
use crate::text::{decimal, push_decimal};

verus! {

/// The line of the prompt.
pub const PROMPT_LINE: u16 = 1;

/// The line of the status.
pub const INFO_LINE: u16 = 2;

/// The first line of the content area.
pub const CONTENT_LINE: u16 = 3;

/// The sequence that moves the cursor to column `x` of line `y`, both
/// counted from one.
pub open spec fn goto_sequence(x: u16, y: u16) -> Seq<char> {
    "\x1B["@ + decimal(y as nat) + ";"@ + decimal(x as nat) + "H"@
}

/// The sequence that clears the whole screen.
pub open spec fn clear_all_sequence() -> Seq<char> {
    "\x1B[2J"@
}

/// The sequence that clears the line of the cursor.
pub open spec fn clear_line_sequence() -> Seq<char> {
    "\x1B[2K"@
}

/// The sequence that hides the cursor.
pub open spec fn hide_sequence() -> Seq<char> {
    "\x1B[?25l"@
}

/// The sequence that shows the cursor.
pub open spec fn show_sequence() -> Seq<char> {
    "\x1B[?25h"@
}

/// `termion::cursor::Goto` as it displays: the introducer, the line in
/// decimal, a semicolon, the column in decimal, and `H`. In a debug build it
/// refuses the position where both are zero.
#[verifier::external_body]
fn goto(x: u16, y: u16) -> (sequence: String)
    requires
        x != 0 || y != 0,
    ensures
        sequence@ == goto_sequence(x, y),
{
    format!("{}", termion::cursor::Goto(x, y))
}

/// `termion::clear::All` as text: the introducer and `2J`.
#[verifier::external_body]
fn clear_all() -> (sequence: &'static str)
    ensures
        sequence@ == clear_all_sequence(),
{
    termion::clear::All.as_ref()
}

/// `termion::clear::CurrentLine` as text: the introducer and `2K`.
#[verifier::external_body]
fn clear_line() -> (sequence: &'static str)
    ensures
        sequence@ == clear_line_sequence(),
{
    termion::clear::CurrentLine.as_ref()
}

/// `termion::cursor::Hide` as text: the introducer and `?25l`.
#[verifier::external_body]
fn cursor_hide() -> (sequence: &'static str)
    ensures
        sequence@ == hide_sequence(),
{
    termion::cursor::Hide.as_ref()
}

/// `termion::cursor::Show` as text: the introducer and `?25h`.
#[verifier::external_body]
fn cursor_show() -> (sequence: &'static str)
    ensures
        sequence@ == show_sequence(),
{
    termion::cursor::Show.as_ref()
}

/// A repaint of the status line, and the length in bytes of the message it
/// shows.
#[derive(Debug, PartialEq, Eq)]
pub struct Info {
    pub frame: String,
    pub length: usize,
}

/// The repaint of the prompt line: cursor shown and moved to the start of
/// the line, the line cleared, then the label and the term.
pub open spec fn prompt_frame(term: Seq<char>) -> Seq<char> {
    show_sequence() + goto_sequence(1, PROMPT_LINE) + clear_line_sequence() + "registry: "@ + term
}

/// The repaint of the status line: cursor hidden and moved to the start of
/// the line, the line cleared, then the message.
pub open spec fn info_frame(message: Seq<char>) -> Seq<char> {
    hide_sequence() + goto_sequence(1, INFO_LINE) + clear_line_sequence() + message
}

/// The hint shown while there is nothing to search for.
pub open spec fn usage_text() -> Seq<char> {
    "(<ESC> to quit, <enter> to clear, Ctrl+o to open) Please enter your search term."@
}

/// The length of the hint.
pub const USAGE_LENGTH: u16 = 80;

/// What is written when the session opens: the screen cleared from the top
/// left corner, an empty prompt, and the hint.
pub open spec fn opening_frame() -> Seq<char> {
    goto_sequence(1, 1) + clear_all_sequence() + prompt_frame(Seq::empty()) + info_frame(
        usage_text(),
    )
}

/// What is written when the session closes: cursor to the top left corner
/// and shown again, the screen cleared.
pub open spec fn reset_frame() -> Seq<char> {
    goto_sequence(1, 1) + show_sequence() + clear_all_sequence()
}

/// The status of a search that found something.
pub open spec fn results_text(total: u64, height: u16) -> Seq<char> {
    decimal(total as nat) + " results in total, showing "@ + decimal(height as nat) + " max"@
}

/// What a search without matches adds behind the hint.
pub open spec fn zero_results_text() -> Seq<char> {
    " - 0 results found"@
}

/// The repaint of the status line after a search without matches: the
/// figures, then the hint over them, then the remark at the hint's end.
pub open spec fn zero_results_frame(total: u64, height: u16) -> Seq<char> {
    info_frame(results_text(total, height)) + info_frame(usage_text()) + goto_sequence(
        USAGE_LENGTH,
        INFO_LINE,
    ) + zero_results_text()
}

/// The first `lines` lines of the content area: each one cleared and holding
/// its row, if there is one; a line break between two lines.
pub open spec fn content_text(rows: Seq<Crate>, lines: nat) -> Seq<char>
    decreases lines,
{
    if lines == 0 {
        Seq::empty()
    } else {
        let row = if lines - 1 < rows.len() {
            row_text(rows[lines - 1])
        } else {
            Seq::empty()
        };
        let gap = if lines > 1 {
            "\r\n"@
        } else {
            Seq::empty()
        };
        content_text(rows, (lines - 1) as nat) + gap + clear_line_sequence() + row
    }
}

/// The repaint of the whole content area: as many lines as the area is
/// tall, whatever the number of rows.
pub open spec fn content_frame(rows: Seq<Crate>, height: u16) -> Seq<char> {
    goto_sequence(1, CONTENT_LINE) + content_text(rows, height as nat)
}

/// Repaints the prompt line with `term`.
pub fn promptf(term: &str) -> (frame: String)
    ensures
        frame@ == prompt_frame(term@),
{
    let mut frame = String::new();
    frame.push_str(cursor_show());
    let origin = goto(1, PROMPT_LINE);
    frame.push_str(origin.as_str());
    frame.push_str(clear_line());
    frame.push_str("registry: ");
    frame.push_str(term);
    assert(frame@ =~= prompt_frame(term@));
    frame
}

/// Repaints the status line with `message`, and gives the message's length
/// in bytes.
pub fn info(message: &str) -> (painted: Info)
    ensures
        painted.frame@ == info_frame(message@),
        painted.length == message.spec_bytes().len(),
{
    let mut frame = String::new();
    frame.push_str(cursor_hide());
    let origin = goto(1, INFO_LINE);
    frame.push_str(origin.as_str());
    frame.push_str(clear_line());
    frame.push_str(message);
    assert(frame@ =~= info_frame(message@));
    Info { frame, length: message.as_bytes().len() }
}

/// Repaints the status line with the hint.
pub fn usage() -> (painted: Info)
    ensures
        painted.frame@ == info_frame(usage_text()),
        painted.length == USAGE_LENGTH,
{
    let text = "(<ESC> to quit, <enter> to clear, Ctrl+o to open) Please enter your search term.";
    proof {
        reveal_strlit(
            "(<ESC> to quit, <enter> to clear, Ctrl+o to open) Please enter your search term.",
        );
        assert(text@.len() == 80);
        assert(is_ascii(text));
        is_ascii_spec_bytes(text);
    }
    info(text)
}

/// What to write when the session opens.
pub fn open_screen() -> (frame: String)
    ensures
        frame@ == opening_frame(),
{
    let mut frame = goto(1, 1);
    frame.push_str(clear_all());
    let prompt = promptf("");
    frame.push_str(prompt.as_str());
    let hint = usage();
    frame.push_str(hint.frame.as_str());
    proof {
        reveal_strlit("");
        assert(""@ =~= Seq::<char>::empty());
        assert(frame@ =~= opening_frame());
    }
    frame
}

/// What to write when the session closes.
pub fn reset_terminal() -> (frame: String)
    ensures
        frame@ == reset_frame(),
{
    let mut frame = goto(1, 1);
    frame.push_str(cursor_show());
    frame.push_str(clear_all());
    assert(frame@ =~= reset_frame());
    frame
}

/// The status of a search that found `total` packages, of which at most
/// `height` are shown.
pub fn results_status(total: u64, height: u16) -> (message: String)
    ensures
        message@ == results_text(total, height),
{
    let mut message = String::new();
    push_decimal(&mut message, total);
    message.push_str(" results in total, showing ");
    push_decimal(&mut message, height as u64);
    message.push_str(" max");
    assert(message@ =~= results_text(total, height));
    message
}

/// Repaints the status line after a search without matches.
pub fn zero_results(total: u64, height: u16) -> (frame: String)
    ensures
        frame@ == zero_results_frame(total, height),
{
    let status = results_status(total, height);
    let figures = info(status.as_str());
    let hint = usage();
    let mut frame = figures.frame;
    frame.push_str(hint.frame.as_str());
    let end = goto(hint.length as u16, INFO_LINE);
    frame.push_str(end.as_str());
    frame.push_str(" - 0 results found");
    assert(frame@ =~= zero_results_frame(total, height));
    frame
}

/// Repaints the content area with the rows of `result`.
pub fn content(result: &SearchResult) -> (frame: String)
    ensures
        frame@ == content_frame(result.crates@, result.meta.dimension.height),
{
    let height: u16 = result.meta.dimension.height;
    let mut frame = goto(1, CONTENT_LINE);
    let mut line: u16 = 0;
    assert(frame@ =~= goto_sequence(1, CONTENT_LINE) + content_text(result.crates@, 0));
    while line < height
        invariant
            line <= height,
            frame@ == goto_sequence(1, CONTENT_LINE) + content_text(result.crates@, line as nat),
        decreases height - line,
    {
        if line > 0 {
            frame.push_str("\r\n");
        }
        frame.push_str(clear_line());
        if (line as usize) < result.crates.len() {
            let row = result.crates[line as usize].row();
            frame.push_str(row.as_str());
        }
        line = line + 1;
        proof {
            reveal_strlit("\r\n");
            assert(frame@ =~= goto_sequence(1, CONTENT_LINE) + content_text(
                result.crates@,
                line as nat,
            ));
        }
    }
    frame
}

} // verus!
