//! The query being typed, and what each key does to it.

use vstd::prelude::*;
use crate::text::{decimal, push_decimal};

verus! {

/// What the session is doing. There is one mode today; the tag leaves room
/// for more.
#[derive(Clone, Copy, Debug, PartialEq, Eq, Structural)]
pub enum Mode {
    Searching,
}

/// The session's mode and the search term typed so far.
#[derive(Debug, PartialEq, Eq)]
pub struct State {
    pub mode: Mode,
    pub term: String,
}

/// A `State` as contracts see it.
pub ghost struct Query {
    pub mode: Mode,
    pub term: Seq<char>,
}

/// One key event. `Other` carries a description of a key that has no variant
/// of its own here.
#[derive(Debug, PartialEq, Eq)]
pub enum Key {
    Char(char),
    Backspace,
    Esc,
    Other(String),
}

/// What the caller owes the user after a key.
#[derive(Debug, PartialEq, Eq)]
pub enum KeyOutcome {
    /// The session ends.
    Quit,
    /// The term changed and is not empty: the prompt is redrawn and this
    /// snapshot of the state is queued for the search worker.
    Submit(State),
    /// The term is empty: the prompt is redrawn, the usage hint shown and the
    /// content area blanked; nothing is queued.
    Cleared,
    /// The key is not acted on; the message goes to the status line.
    Unsupported(String),
}

/// Control characters: U+0000 to U+001F and U+007F to U+009F.
pub open spec fn is_control(c: char) -> bool {
    c as u32 <= 0x1f || (0x7f <= c as u32 && c as u32 <= 0x9f)
}

/// No control character occurs in `term`.
pub open spec fn is_clean(term: Seq<char>) -> bool {
    forall|i: int| 0 <= i < term.len() ==> !is_control(#[trigger] term[i])
}

/// The Enter key.
pub open spec fn is_enter(key: Key) -> bool {
    key matches Key::Char(c) && c == '\n'
}

/// A printable character: any character but Enter and the control
/// characters.
pub open spec fn is_printable(key: Key) -> bool {
    key matches Key::Char(c) && !is_control(c)
}

/// The keys that change the term: printable characters, Backspace, Enter.
pub open spec fn is_edit(key: Key) -> bool {
    is_printable(key) || is_enter(key) || key is Backspace
}

/// The term after one key.
pub open spec fn term_after_key(term: Seq<char>, key: Key) -> Seq<char> {
    if is_enter(key) {
        Seq::empty()
    } else if is_printable(key) {
        term.push(key->Char_0)
    } else if key is Backspace && term.len() > 0 {
        term.drop_last()
    } else {
        term
    }
}

/// The term after a run of keys, first key first.
pub open spec fn term_after_keys(term: Seq<char>, keys: Seq<Key>) -> Seq<char>
    decreases keys.len(),
{
    if keys.len() == 0 {
        term
    } else {
        term_after_key(term_after_keys(term, keys.drop_last()), keys.last())
    }
}

/// How an unsupported key is called on the status line: its own description,
/// or for a control character its code point in decimal.
pub open spec fn key_description(key: Key) -> Seq<char> {
    match key {
        Key::Char(c) => "Char("@ + decimal(c as u32 as nat) + ")"@,
        Key::Backspace => "Backspace"@,
        Key::Esc => "Esc"@,
        Key::Other(name) => name@,
    }
}

/// The status line for a key that is not acted on.
pub open spec fn unsupported_message(key: Key) -> Seq<char> {
    "unsupported key sequence: "@ + key_description(key)
}

/// Whether `c` is a control character.
pub fn char_is_control(c: char) -> (control: bool)
    ensures
        control == is_control(c),
{
    let code: u32 = c as u32;
    code <= 0x1f || (0x7f <= code && code <= 0x9f)
}

impl View for State {
    type V = Query;

    open spec fn view(&self) -> Query {
        Query { mode: self.mode, term: self.term@ }
    }
}

impl Clone for State {
    fn clone(&self) -> (copy: State)
        ensures
            copy@ == self@,
    {
        State { mode: self.mode, term: self.term.clone() }
    }
}

impl Default for State {
    fn default() -> (state: State)
        ensures
            state.mode == Mode::Searching,
            state.term@ == Seq::<char>::empty(),
            state.well_formed(),
    {
        State { mode: Mode::Searching, term: String::new() }
    }
}

impl State {
    /// The term holds no control character.
    pub open spec fn well_formed(&self) -> bool {
        is_clean(self.term@)
    }

    /// Applies one key to the term and says what the caller has to do next.
    pub fn apply_key(&mut self, key: &Key) -> (outcome: KeyOutcome)
        ensures
            final(self).mode == old(self).mode,
            final(self).term@ == term_after_key(old(self).term@, *key),
            old(self).well_formed() ==> final(self).well_formed(),
            match outcome {
                KeyOutcome::Quit => *key is Esc,
                KeyOutcome::Submit(query) => is_edit(*key) && final(self).term@.len() > 0
                    && query@ == final(self)@,
                KeyOutcome::Cleared => is_edit(*key) && final(self).term@.len() == 0,
                KeyOutcome::Unsupported(message) => !is_edit(*key) && !(*key is Esc)
                    && message@ == unsupported_message(*key),
            },
    {
        match key {
            Key::Esc => {
                return KeyOutcome::Quit;
            },
            Key::Backspace => {
                self.term.pop();
            },
            Key::Char(c) => {
                if *c == '\n' {
                    self.term.clear();
                } else if char_is_control(*c) {
                    let mut message = String::new();
                    message.push_str("unsupported key sequence: ");
                    message.push_str("Char(");
                    push_decimal(&mut message, *c as u32 as u64);
                    message.push_str(")");
                    assert(message@ =~= unsupported_message(*key));
                    return KeyOutcome::Unsupported(message);
                } else {
                    self.term.push(*c);
                }
            },
            Key::Other(name) => {
                let mut message = String::new();
                message.push_str("unsupported key sequence: ");
                message.push_str(name.as_str());
                assert(message@ =~= unsupported_message(*key));
                return KeyOutcome::Unsupported(message);
            },
        }
        if self.term.as_str().is_empty() {
            KeyOutcome::Cleared
        } else {
            KeyOutcome::Submit(self.clone())
        }
    }
}

/// Every key of `keys` is Backspace.
pub open spec fn all_backspace(keys: Seq<Key>) -> bool {
    forall|i: int| 0 <= i < keys.len() ==> #[trigger] keys[i] is Backspace
}

/// Every key of `keys` is a printable character.
pub open spec fn all_printable(keys: Seq<Key>) -> bool {
    forall|i: int| 0 <= i < keys.len() ==> is_printable(#[trigger] keys[i])
}

/// The characters that a run of printable keys carries.
pub open spec fn typed(keys: Seq<Key>) -> Seq<char> {
    Seq::new(keys.len(), |i: int| keys[i]->Char_0)
}

/// However often Backspace is pressed on an empty term, the term stays
/// empty.
pub proof fn backspace_on_empty_term_is_idle(keys: Seq<Key>)
    requires
        all_backspace(keys),
    ensures
        term_after_keys(Seq::empty(), keys) == Seq::<char>::empty(),
    decreases keys.len(),
{
    if keys.len() > 0 {
        backspace_on_empty_term_is_idle(keys.drop_last());
    }
}

/// Enter leaves the term empty, whatever the term was and whatever was typed
/// before.
pub proof fn enter_clears_term(term: Seq<char>, keys: Seq<Key>)
    ensures
        term_after_keys(term, keys.push(Key::Char('\n'))) == Seq::<char>::empty(),
{
    let all = keys.push(Key::Char('\n'));
    assert(is_enter(all.last()));
}

/// Printable characters are appended to the term in the order typed.
pub proof fn typing_appends(term: Seq<char>, keys: Seq<Key>)
    requires
        all_printable(keys),
    ensures
        term_after_keys(term, keys) == term + typed(keys),
    decreases keys.len(),
{
    if keys.len() == 0 {
        assert(term + typed(keys) =~= term);
    } else {
        let front = keys.drop_last();
        typing_appends(term, front);
        assert(term + typed(keys) =~= (term + typed(front)).push(keys.last()->Char_0));
    }
}

/// No run of keys brings a control character into a term that had none.
pub proof fn keys_keep_term_clean(term: Seq<char>, keys: Seq<Key>)
    requires
        is_clean(term),
    ensures
        is_clean(term_after_keys(term, keys)),
    decreases keys.len(),
{
    if keys.len() > 0 {
        keys_keep_term_clean(term, keys.drop_last());
    }
}

} // verus!
