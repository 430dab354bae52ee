//! The prompt itself: a rope for the line being edited, the committed lines
//! with their results, and the key handler that drives both.

use crate::bounds::safe_addition;
use crate::events::Key;
use crate::rope::{remove_range, rope_chars, rope_text};
use crate::state::State;
use ropey::Rope;
use vstd::prelude::*;

verus! {

/// A single-line prompt whose committed lines each carry a result of type `T`.
pub struct Prompt<T> {
    /// The committed lines, oldest first, each with its result.
    pub history: Vec<(String, T)>,
    /// The line being edited.
    pub current: Rope,
    /// The position in `current`, counted in characters.
    pub cursor: usize,
    /// The history entry being browsed, counted from `1` for the oldest, or
    /// `None` while no entry is browsed.
    pub history_cursor: Option<usize>,
}

/// The committed lines as sequences of characters, each with its result.
pub open spec fn lines_of<T>(history: Seq<(String, T)>) -> Seq<(Seq<char>, T)> {
    history.map_values(|entry: (String, T)| (entry.0@, entry.1))
}

impl<T> View for Prompt<T> {
    type V = State<T>;

    open spec fn view(&self) -> State<T> {
        State {
            history: lines_of(self.history@),
            current: rope_chars(self.current),
            cursor: self.cursor as nat,
            history_cursor: match self.history_cursor {
                Some(entry) => Some(entry as nat),
                None => None,
            },
        }
    }
}

impl<T> Prompt<T> {
    /// Whether `self` is what `before` becomes when `key` is handled with
    /// `process`. Enter appends the line to the history, together with a
    /// result that `process` gives for it, and empties the line; any other key
    /// leaves the history alone and changes the rest as `State::step` says.
    pub open spec fn follows<F: FnOnce(&String) -> T>(
        self,
        before: Self,
        key: Key,
        process: F,
    ) -> bool {
        if key == Key::Char('\n') {
            let (line, result) = self.history@.last();
            &&& self.history@ == before.history@.push((line, result))
            &&& line@ == before@.current
            &&& call_ensures(process, (&line,), result)
            &&& self@ == before@.commit(result)
        } else {
            &&& self.history == before.history
            &&& self@ == before@.step(key)
        }
    }

    /// A prompt with an empty line and no history.
    pub fn new() -> (prompt: Prompt<T>)
        ensures
            prompt@ == State::<T>::empty(),
            prompt@.wf(),
    {
        let prompt = Prompt {
            history: Vec::new(),
            current: Rope::new(),
            cursor: 0,
            history_cursor: None,
        };
        assert(prompt@.history =~= Seq::empty());
        prompt
    }

    /// The line being edited, as a string to display.
    pub fn text(&self) -> (text: String)
        ensures
            text@ == self@.current,
    {
        rope_text(&self.current)
    }

    /// Turns a browsed history entry into the line, with the cursor at its
    /// end, and ends the browsing.
    fn maybe_clone_from_history(&mut self)
        ensures
            final(self)@ == old(self)@.materialize(),
            final(self).history == old(self).history,
    {
        if let Some(history_cursor) = self.history_cursor {
            if history_cursor > 0 {
                if history_cursor <= self.history.len() {
                    self.current = Rope::from_str(self.history[history_cursor - 1].0.as_str());
                    self.history_cursor = None;
                    self.cursor = self.current.len_chars();
                }
            }
        }
    }

    /// Moves the cursor, stopping at either end of the line.
    fn move_cursor(&mut self, by_how_much: i64)
        ensures
            final(self)@ == old(self)@.move_cursor(by_how_much as int),
            final(self).history == old(self).history,
    {
        self.maybe_clone_from_history();
        self.cursor = safe_addition(self.cursor, by_how_much, self.current.len_chars());
    }

    /// Moves the history pointer while the line is empty, and drops it while
    /// the line holds text.
    fn move_history_cursor(&mut self, by_how_much: i64)
        ensures
            final(self)@ == old(self)@.move_history_cursor(by_how_much as int),
            final(self).history == old(self).history,
    {
        let len: usize = self.current.len_chars();
        if len > 0 {
            self.history_cursor = None;
            return;
        }
        let browsed: usize = match self.history_cursor {
            Some(entry) => entry,
            None => 0,
        };
        let history_cursor: usize = safe_addition(browsed, by_how_much, self.history.len());
        if history_cursor == 0 {
            self.history_cursor = None;
        } else {
            self.history_cursor = Some(history_cursor);
        }
    }

    /// Deletes forwards from the cursor for a positive `selection`, backwards
    /// for a negative one, as far as the line has characters.
    fn remove(&mut self, selection: i64)
        requires
            old(self)@.cursor <= old(self)@.current.len(),
        ensures
            final(self)@ == old(self)@.remove(selection as int),
            final(self).history == old(self).history,
    {
        self.maybe_clone_from_history();
        let len: usize = self.current.len_chars();
        let reach: usize = safe_addition(self.cursor, selection, len);
        if selection < 0 {
            remove_range(&mut self.current, reach, self.cursor);
            self.cursor = reach;
        } else {
            remove_range(&mut self.current, self.cursor, reach);
            let rest: usize = self.current.len_chars();
            if self.cursor > rest {
                self.cursor = rest;
            }
        }
    }

    /// Puts `ch` at the cursor and moves the cursor past it.
    fn insert(&mut self, ch: char)
        requires
            old(self)@.cursor <= old(self)@.current.len(),
        ensures
            final(self)@ == old(self)@.insert(ch),
            final(self).history == old(self).history,
    {
        self.maybe_clone_from_history();
        self.current.insert_char(self.cursor, ch);
        self.cursor = safe_addition(self.cursor, 1, self.current.len_chars());
    }

    /// Commits the line: takes it out of the prompt, has `process` compute
    /// its result, and appends both to the history.
    fn execute<F>(&mut self, process: F) where F: FnOnce(&String) -> T
        requires
            forall|line: String|
                line@ == old(self)@.current ==> call_requires(process, (&line,)),
        ensures
            final(self).follows(*old(self), Key::Char('\n'), process),
    {
        let mut current = Rope::new();
        std::mem::swap(&mut current, &mut self.current);
        let current = rope_text(&current);
        self.cursor = 0;
        let result = process(&current);
        self.history.push((current, result));
        proof {
            let (line, result) = self.history@.last();
            assert(self@.history =~= old(self)@.history.push((line@, result)));
        }
    }

    /// Handles one key press. Enter commits the line: `process` computes its
    /// result, and the line joins the history with it. Every other key edits
    /// the line, moves the cursor, or browses the history, and leaves
    /// `process` alone.
    ///
    /// The cursor must lie within the line, as it does after `new` and after
    /// every key; `checked_key` serves a prompt whose fields were set by hand.
    pub fn key<F>(&mut self, key: Key, process: F) where F: FnOnce(&String) -> T
        requires
            old(self)@.cursor <= old(self)@.current.len(),
            key == Key::Char('\n') ==> forall|line: String|
                line@ == old(self)@.current ==> call_requires(process, (&line,)),
        ensures
            final(self).follows(*old(self), key, process),
            final(self)@.cursor <= final(self)@.current.len(),
            old(self)@.wf() ==> final(self)@.wf(),
    {
        match key {
            Key::Up => self.move_history_cursor(1),
            Key::Down => self.move_history_cursor(-1),
            Key::Left => self.move_cursor(-1),
            Key::Right => self.move_cursor(1),
            Key::Backspace => self.remove(-1),
            Key::Delete => self.remove(1),
            Key::Char('\n') => self.execute(process),
            Key::Char(ch) => self.insert(ch),
            _ => {},
        }
    }

    /// Handles one key press if the cursor lies within the line, and says
    /// whether it did. A prompt whose cursor lies past the end of the line is
    /// left as it is.
    pub fn checked_key<F>(&mut self, key: Key, process: F) -> (handled: bool) where
        F: FnOnce(&String) -> T,

        requires
            key == Key::Char('\n') ==> forall|line: String|
                line@ == old(self)@.current ==> call_requires(process, (&line,)),
        ensures
            handled == (old(self)@.cursor <= old(self)@.current.len()),
            handled ==> final(self).follows(*old(self), key, process),
            handled ==> final(self)@.cursor <= final(self)@.current.len(),
            handled && old(self)@.wf() ==> final(self)@.wf(),
            !handled ==> *final(self) == *old(self),
    {
        if self.cursor <= self.current.len_chars() {
            self.key(key, process);
            true
        } else {
            false
        }
    }
}

} // verus!
