//! The prompt as a mathematical value, and each key press as a function from
//! one such value to the next.

use crate::bounds::saturating_offset;
use crate::events::Key;
use crate::rope::without_range;
use vstd::prelude::*;

verus! {

/// Everything a prompt holds, as sequences and numbers.
pub struct State<T> {
    /// The committed lines, oldest first, each with the value computed from it.
    pub history: Seq<(Seq<char>, T)>,
    /// The line being edited.
    pub current: Seq<char>,
    /// The position in `current` at which the next character goes.
    pub cursor: nat,
    /// The history entry being browsed, counted from `1` for the oldest; `None`
    /// while no entry is browsed.
    pub history_cursor: Option<nat>,
}

impl<T> State<T> {
    /// The prompt before anything was typed.
    pub open spec fn empty() -> Self {
        State {
            history: Seq::empty(),
            current: Seq::empty(),
            cursor: 0,
            history_cursor: None,
        }
    }

    /// The cursor lies within the line; a browsed entry exists, and the line
    /// is empty for as long as one is browsed.
    pub open spec fn wf(self) -> bool {
        &&& self.cursor <= self.current.len()
        &&& self.history_cursor matches Some(entry) ==> {
            &&& 1 <= entry <= self.history.len()
            &&& self.current.len() == 0
        }
    }

    /// The number that history navigation counts from: the browsed entry, or
    /// `0` while none is browsed.
    pub open spec fn browsed(self) -> nat {
        match self.history_cursor {
            Some(entry) => entry,
            None => 0,
        }
    }

    /// Whether the history pointer names a line that the history holds.
    pub open spec fn browses_entry(self) -> bool {
        0 < self.browsed() <= self.history.len()
    }

    /// This prompt with its history pointer at `entry`, where `0` stands for
    /// browsing nothing.
    pub open spec fn browsing_at(self, entry: nat) -> Self {
        State {
            history_cursor: if entry == 0 {
                None
            } else {
                Some(entry)
            },
            ..self
        }
    }

    /// This prompt with the text of the history's line number `entry` as its
    /// line, the cursor at the end of it, and nothing browsed.
    pub open spec fn editing_entry(self, entry: nat) -> Self {
        let text = self.history[entry - 1].0;
        State { current: text, cursor: text.len(), history_cursor: None, ..self }
    }

    /// Turns browsing into editing: the browsed entry's text becomes the line,
    /// with the cursor at its end. Without a browsed entry nothing changes.
    pub open spec fn materialize(self) -> Self {
        if self.browses_entry() {
            self.editing_entry(self.browsed())
        } else {
            self
        }
    }

    /// Moves the cursor by `by_how_much` characters, stopping at either end of
    /// the line.
    pub open spec fn move_cursor(self, by_how_much: int) -> Self {
        let edited = self.materialize();
        State {
            cursor: saturating_offset(
                edited.cursor as int,
                by_how_much,
                edited.current.len() as int,
            ) as nat,
            ..edited
        }
    }

    /// Moves the history pointer by `by_how_much` entries, stopping at the
    /// newest entry and leaving the history at `0`. While the line holds text
    /// the pointer is dropped instead.
    pub open spec fn move_history_cursor(self, by_how_much: int) -> Self {
        if self.current.len() > 0 {
            State { history_cursor: None, ..self }
        } else {
            self.browsing_at(
                saturating_offset(
                    self.browsed() as int,
                    by_how_much,
                    self.history.len() as int,
                ) as nat,
            )
        }
    }

    /// Deletes `selection` characters after the cursor, or `-selection`
    /// characters before it, as far as the line has them. Deleting backwards
    /// takes the cursor along; deleting forwards leaves it, within the shorter
    /// line.
    pub open spec fn remove(self, selection: int) -> Self {
        let edited = self.materialize();
        let reach = saturating_offset(
            edited.cursor as int,
            selection,
            edited.current.len() as int,
        );
        if selection < 0 {
            State {
                current: without_range(edited.current, reach, edited.cursor as int),
                cursor: reach as nat,
                ..edited
            }
        } else {
            let rest = without_range(edited.current, edited.cursor as int, reach);
            State {
                current: rest,
                cursor: if edited.cursor <= rest.len() {
                    edited.cursor
                } else {
                    rest.len()
                },
                ..edited
            }
        }
    }

    /// Puts `ch` at the cursor and moves the cursor past it.
    pub open spec fn insert(self, ch: char) -> Self {
        let edited = self.materialize();
        State {
            current: edited.current.insert(edited.cursor as int, ch),
            cursor: edited.cursor + 1,
            ..edited
        }
    }

    /// Commits the line: it joins the history together with `result`, and the
    /// prompt starts over with an empty line. The history pointer stays.
    pub open spec fn commit(self, result: T) -> Self {
        State {
            history: self.history.push((self.current, result)),
            current: Seq::empty(),
            cursor: 0,
            ..self
        }
    }

    /// The state after a key that does not commit. Keys without a meaning
    /// here change nothing. A character is inserted whatever it is: that Enter
    /// commits instead is said by `apply`.
    pub open spec fn step(self, key: Key) -> Self {
        match key {
            Key::Up => self.move_history_cursor(1),
            Key::Down => self.move_history_cursor(-1),
            Key::Left => self.move_cursor(-1),
            Key::Right => self.move_cursor(1),
            Key::Backspace => self.remove(-1),
            Key::Delete => self.remove(1),
            Key::Char(ch) => self.insert(ch),
            _ => self,
        }
    }

    /// The state after any key, where `result` is what the line gives when the
    /// key commits it.
    pub open spec fn apply(self, key: Key, result: T) -> Self {
        if key == Key::Char('\n') {
            self.commit(result)
        } else {
            self.step(key)
        }
    }

    /// The state after a run of keys, where `process` gives the value of each
    /// committed line.
    pub open spec fn run(self, keys: Seq<Key>, process: spec_fn(Seq<char>) -> T) -> Self
        decreases keys.len(),
    {
        if keys.len() == 0 {
            self
        } else {
            let before = self.run(keys.drop_last(), process);
            before.apply(keys.last(), process(before.current))
        }
    }
}

} // verus!
