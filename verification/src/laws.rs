//! What holds of every prompt, whatever keys it receives, and of the rules
//! that turn terminal reports into events.

use crate::events::{Event, Key, SystemEvent, TerminalEvent};
use crate::state::State;
use vstd::prelude::*;

verus! {

/// Whether every key of `keys` types a character: none is Enter, and none is
/// a key of another kind.
pub open spec fn all_typed(keys: Seq<Key>) -> bool {
    forall|i: int| 0 <= i < keys.len() ==> keys[i] is Char && keys[i] != Key::Char('\n')
}

/// The characters that the keys of `keys` type, in order.
pub open spec fn typed_text(keys: Seq<Key>) -> Seq<char> {
    Seq::new(keys.len(), |i: int| keys[i]->Char_0)
}

/// `count` presses of the same key.
pub open spec fn presses(key: Key, count: nat) -> Seq<Key> {
    Seq::new(count, |i: int| key)
}

/// `text` with `chars` put in at `position`.
pub open spec fn spliced(text: Seq<char>, position: int, chars: Seq<char>) -> Seq<char> {
    text.subrange(0, position) + chars + text.subrange(position, text.len() as int)
}

/// Of all that the terminal reports, Ctrl-C alone becomes the request to
/// exit; a change of the terminal's size never does.
pub proof fn lemma_only_ctrl_c_exits(report: TerminalEvent, last: (u16, u16), now: (u16, u16))
    ensures
        (Event::of_terminal(report) == Event::System(SystemEvent::Exit)) == (report
            == TerminalEvent::Key(Key::Ctrl('c'))),
        Event::of_size(last, now) != Some(Event::System(SystemEvent::Exit)),
{
}

/// A valid prompt stays valid under every key, whatever a commit yields.
pub proof fn lemma_apply_keeps_wf<T>(s: State<T>, key: Key, result: T)
    requires
        s.wf(),
    ensures
        s.apply(key, result).wf(),
{
}

/// A valid prompt stays valid over any run of keys.
pub proof fn lemma_run_keeps_wf<T>(s: State<T>, keys: Seq<Key>, process: spec_fn(Seq<char>) -> T)
    requires
        s.wf(),
    ensures
        s.run(keys, process).wf(),
    decreases keys.len(),
{
    if keys.len() > 0 {
        lemma_run_keeps_wf(s, keys.drop_last(), process);
        let before = s.run(keys.drop_last(), process);
        lemma_apply_keeps_wf(before, keys.last(), process(before.current));
    }
}

/// Whatever keys are pressed, the cursor stays within the line. In
/// particular Left and Right, however often and in whatever order, stop at
/// either end and never wrap around.
pub proof fn lemma_cursor_stays_in_line<T>(
    s: State<T>,
    keys: Seq<Key>,
    process: spec_fn(Seq<char>) -> T,
)
    requires
        s.cursor <= s.current.len(),
    ensures
        s.run(keys, process).cursor <= s.run(keys, process).current.len(),
    decreases keys.len(),
{
    if keys.len() > 0 {
        lemma_cursor_stays_in_line(s, keys.drop_last(), process);
    }
}

/// The history only grows: after any run of keys the lines committed before
/// it are still there, in their places and with their results, and every
/// Enter among the keys has added one line behind them.
pub proof fn lemma_history_only_grows<T>(
    s: State<T>,
    keys: Seq<Key>,
    process: spec_fn(Seq<char>) -> T,
)
    ensures
        s.history.is_prefix_of(s.run(keys, process).history),
        s.run(keys, process).history.len() == s.history.len() + keys.filter(
            |key: Key| key == Key::Char('\n'),
        ).len(),
    decreases keys.len(),
{
    reveal(Seq::filter);
    if keys.len() > 0 {
        lemma_history_only_grows(s, keys.drop_last(), process);
    }
}

/// Turning a browsed entry into the line ends the browsing, so doing it a
/// second time changes nothing; and a prompt that browses nothing is left as
/// it is.
pub proof fn lemma_materialize_once<T>(s: State<T>)
    ensures
        s.materialize().materialize() == s.materialize(),
        s.browses_entry() ==> s.materialize().history_cursor is None,
        !s.browses_entry() ==> s.materialize() == s,
        s.materialize().history == s.history,
{
}

/// Every key that edits the line or moves the cursor ends the browsing: a
/// valid prompt browses nothing after it.
pub proof fn lemma_editing_ends_browsing<T>(s: State<T>, key: Key)
    requires
        s.wf(),
        key == Key::Left || key == Key::Right || key == Key::Backspace || key == Key::Delete
            || key is Char,
    ensures
        s.step(key).history_cursor is None,
        s.step(key).history == s.history,
{
}

/// Backspace at the start of the line and Delete at its end change nothing,
/// as long as no history entry is browsed: a browsed entry would first become
/// the line.
pub proof fn lemma_delete_at_edge_is_noop<T>(s: State<T>)
    requires
        !s.browses_entry(),
    ensures
        s.cursor == 0 ==> s.step(Key::Backspace) == s,
        s.cursor == s.current.len() ==> s.step(Key::Delete) == s,
{
    if s.cursor == 0 {
        assert(s.step(Key::Backspace).current =~= s.current);
    }
    if s.cursor == s.current.len() {
        assert(s.step(Key::Delete).current =~= s.current);
    }
}

/// Once a character is typed, the next Up or Down finds text in the line and
/// drops the history pointer, whatever it was before. The line and the cursor
/// stay as the typing left them.
pub proof fn lemma_typing_locks_navigation<T>(s: State<T>, ch: char, navigation: Key)
    requires
        s.cursor <= s.current.len(),
        navigation == Key::Up || navigation == Key::Down,
    ensures
        s.step(Key::Char(ch)).current.len() > 0,
        s.step(Key::Char(ch)).step(navigation) == (State {
            history_cursor: None,
            ..s.step(Key::Char(ch))
        }),
{
}

/// Repeated presses of Right move the cursor one character each until it is
/// at the end of the line, and repeated presses of Left until it is at the
/// start; further presses leave it there. The first press turns a browsed
/// entry into the line.
pub proof fn lemma_cursor_moves_saturate<T>(
    s: State<T>,
    count: nat,
    process: spec_fn(Seq<char>) -> T,
)
    requires
        s.cursor <= s.current.len(),
        count > 0,
    ensures
        ({
            let edited = s.materialize();
            let length = edited.current.len();
            &&& s.run(presses(Key::Right, count), process) == State {
                cursor: if edited.cursor + count <= length {
                    edited.cursor + count
                } else {
                    length
                },
                ..edited
            }
            &&& s.run(presses(Key::Left, count), process) == State {
                cursor: if edited.cursor >= count {
                    (edited.cursor - count) as nat
                } else {
                    0
                },
                ..edited
            }
        }),
    decreases count,
{
    let rights = presses(Key::Right, count);
    let lefts = presses(Key::Left, count);
    assert(rights.drop_last() =~= presses(Key::Right, (count - 1) as nat));
    assert(lefts.drop_last() =~= presses(Key::Left, (count - 1) as nat));
    if count > 1 {
        lemma_cursor_moves_saturate(s, (count - 1) as nat, process);
    }
}

/// With an empty line, repeated presses of Up move the history pointer one
/// entry each, from the oldest line towards the newest, where it stays;
/// repeated presses of Down move it back until nothing is browsed. The line
/// itself is not touched.
pub proof fn lemma_browsing_saturates<T>(
    s: State<T>,
    count: nat,
    process: spec_fn(Seq<char>) -> T,
)
    requires
        s.current.len() == 0,
        count > 0,
    ensures
        s.run(presses(Key::Up, count), process) == s.browsing_at(
            if s.browsed() + count <= s.history.len() {
                s.browsed() + count
            } else {
                s.history.len()
            },
        ),
        s.run(presses(Key::Down, count), process) == s.browsing_at(
            if s.browsed() >= count {
                (s.browsed() - count) as nat
            } else {
                0
            },
        ),
    decreases count,
{
    let ups = presses(Key::Up, count);
    let downs = presses(Key::Down, count);
    assert(ups.drop_last() =~= presses(Key::Up, (count - 1) as nat));
    assert(downs.drop_last() =~= presses(Key::Down, (count - 1) as nat));
    if count > 1 {
        lemma_browsing_saturates(s, (count - 1) as nat, process);
    }
}

/// The history pointer counts from the oldest line. Presses of Up on an empty
/// line of a prompt that browses nothing select the line with the number of
/// the presses, as far as the history goes, and the next key that edits or
/// moves the cursor starts from that line's text: from the oldest line after
/// one press, from the newest after as many presses as the history has lines.
pub proof fn lemma_up_presses_open_entry<T>(
    s: State<T>,
    count: nat,
    process: spec_fn(Seq<char>) -> T,
)
    requires
        s.current.len() == 0,
        s.history_cursor is None,
        s.history.len() > 0,
        count > 0,
    ensures
        ({
            let entry = if count <= s.history.len() {
                count
            } else {
                s.history.len()
            };
            let browsing = s.run(presses(Key::Up, count), process);
            &&& browsing.history_cursor == Some(entry)
            &&& browsing.materialize() == s.editing_entry(entry)
            &&& browsing.step(Key::Right) == s.editing_entry(entry)
            &&& count == 1 ==> browsing.materialize().current == s.history[0].0
            &&& count == s.history.len() ==> browsing.materialize().current
                == s.history.last().0
        }),
{
    lemma_browsing_saturates(s, count, process);
}

/// Right on a browsed entry copies its text into the line, puts the cursor
/// at the end of it and ends the browsing. The history keeps the entry.
pub proof fn lemma_right_opens_browsed_entry<T>(s: State<T>)
    requires
        s.browses_entry(),
    ensures
        s.step(Key::Right) == s.editing_entry(s.browsed()),
        s.step(Key::Right).current == s.history[s.browsed() - 1].0,
        s.step(Key::Right).cursor == s.history[s.browsed() - 1].0.len(),
        s.step(Key::Right).history_cursor is None,
        s.step(Key::Right).history == s.history,
{
}

/// Typed characters go in at the cursor, in the order typed, and the cursor
/// ends up behind the last of them. The first of them turns a browsed entry
/// into the line.
pub proof fn lemma_typing_inserts_at_cursor<T>(
    s: State<T>,
    keys: Seq<Key>,
    process: spec_fn(Seq<char>) -> T,
)
    requires
        s.cursor <= s.current.len(),
        keys.len() > 0,
        all_typed(keys),
    ensures
        ({
            let edited = s.materialize();
            s.run(keys, process) == State {
                current: spliced(edited.current, edited.cursor as int, typed_text(keys)),
                cursor: edited.cursor + keys.len(),
                ..edited
            }
        }),
    decreases keys.len(),
{
    let edited = s.materialize();
    let earlier = keys.drop_last();
    assert(s.run(keys, process) == s.run(earlier, process).insert(keys.last()->Char_0));
    if earlier.len() > 0 {
        lemma_typing_inserts_at_cursor(s, earlier, process);
    } else {
        assert(spliced(edited.current, edited.cursor as int, typed_text(earlier))
            =~= edited.current);
    }
    assert(spliced(edited.current, edited.cursor as int, typed_text(earlier)).insert(
        (edited.cursor + earlier.len()) as int,
        keys.last()->Char_0,
    ) =~= spliced(edited.current, edited.cursor as int, typed_text(keys)));
}

/// Typing a line and pressing Enter adds exactly one entry to the history:
/// the line as it then stands, with what `process` makes of it. The prompt
/// starts over with an empty line and the cursor at `0`. From an empty line
/// with nothing browsed, the committed text is the typed characters in the
/// order typed.
pub proof fn lemma_typed_line_is_committed<T>(
    s: State<T>,
    keys: Seq<Key>,
    process: spec_fn(Seq<char>) -> T,
)
    requires
        s.cursor <= s.current.len(),
        all_typed(keys),
    ensures
        ({
            let edited = if keys.len() == 0 {
                s
            } else {
                s.materialize()
            };
            let line = spliced(edited.current, edited.cursor as int, typed_text(keys));
            let committed = s.run(keys.push(Key::Char('\n')), process);
            &&& committed.history == s.history.push((line, process(line)))
            &&& committed.current == Seq::<char>::empty()
            &&& committed.cursor == 0
            &&& committed.history_cursor == edited.history_cursor
            &&& s.current.len() == 0 && s.history_cursor is None ==> line == typed_text(keys)
        }),
{
    let all = keys.push(Key::Char('\n'));
    assert(all.drop_last() =~= keys);
    let edited = if keys.len() == 0 {
        s
    } else {
        s.materialize()
    };
    let line = spliced(edited.current, edited.cursor as int, typed_text(keys));
    if keys.len() > 0 {
        lemma_typing_inserts_at_cursor(s, keys, process);
    } else {
        assert(line =~= s.current);
    }
}

} // verus!
