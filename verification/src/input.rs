//! Input events and what each of them does to the application state.

use vstd::prelude::*;
use crate::command::{appended_lines, effect, execute_command, lookup, CommandView};
use crate::state::{App, AppView};
use crate::text::{appended, lines, trimmed};

verus! {

/// The keys that the console tells apart.
#[derive(Clone, Copy, Debug, PartialEq, Eq, Structural)]
pub enum KeyCode {
    /// The enter key: submits the input buffer.
    Enter,
    /// A character key.
    Char(char),
    /// The backspace key.
    Backspace,
    /// The escape key: ends the session.
    Esc,
    /// Any other key.
    Other,
}

/// What happened to a key.
#[derive(Clone, Copy, Debug, PartialEq, Eq, Structural)]
pub enum KeyEventKind {
    Press,
    Repeat,
    Release,
}

/// One key event.
#[derive(Clone, Copy, Debug, PartialEq, Eq, Structural)]
pub struct KeyEvent {
    pub code: KeyCode,
    pub kind: KeyEventKind,
}

/// One input event. Only key events carry anything the console acts on.
#[derive(Clone, Copy, Debug, PartialEq, Eq, Structural)]
pub enum Event {
    Key(KeyEvent),
    /// A resize, a mouse event, a change of focus, a paste.
    Other,
}

/// The log line that echoes a submitted command.
pub open spec fn echo_line(command: Seq<char>) -> Seq<char> {
    "> "@ + command
}

/// The state after enter. With an empty buffer nothing changes. Otherwise
/// the buffer is moved out, its echo is appended to the log, the buffer is
/// left empty, and the command runs on that state.
pub open spec fn submit_effect(app: AppView) -> AppView {
    if app.input.len() == 0 {
        app
    } else {
        effect(
            AppView {
                running: app.running,
                input: Seq::empty(),
                messages: app.messages.push(echo_line(app.input)),
            },
            lookup(trimmed(app.input)),
        )
    }
}

/// The state after one key event. Only a press acts.
pub open spec fn key_effect(app: AppView, key: KeyEvent) -> AppView {
    if key.kind != KeyEventKind::Press {
        app
    } else {
        match key.code {
            KeyCode::Enter => submit_effect(app),
            KeyCode::Char(c) => AppView { input: app.input.push(c), ..app },
            KeyCode::Backspace => if app.input.len() == 0 {
                app
            } else {
                AppView { input: app.input.drop_last(), ..app }
            },
            KeyCode::Esc => AppView { running: false, ..app },
            KeyCode::Other => app,
        }
    }
}

/// The state after one input event. Events other than key events change nothing.
pub open spec fn event_effect(app: AppView, event: Event) -> AppView {
    match event {
        Event::Key(key) => key_effect(app, key),
        Event::Other => app,
    }
}

/// Applies one key event to the state.
pub fn handle_input(app: &mut App, key: KeyEvent)
    ensures
        final(app)@ == key_effect(old(app)@, key),
{
    if key.kind != KeyEventKind::Press {
        return ;
    }
    match key.code {
        KeyCode::Enter => {
            let mut command = String::new();
            core::mem::swap(&mut app.input, &mut command);
            if !command.as_str().is_empty() {
                let ghost before = app.messages@;
                app.messages.push(appended("> ", command.as_str()));
                assert(lines(app.messages@) =~= lines(before).push(echo_line(command@)));
                execute_command(app, command.as_str());
            } else {
                assert(app.input@ =~= old(app).input@);
            }
        },
        KeyCode::Char(c) => {
            app.input.push(c);
        },
        KeyCode::Backspace => {
            let _ = app.input.pop();
        },
        KeyCode::Esc => {
            app.running = false;
        },
        KeyCode::Other => {},
    }
}

/// Applies one input event to the state.
pub fn handle_event(app: &mut App, event: Event)
    ensures
        final(app)@ == event_effect(old(app)@, event),
{
    match event {
        Event::Key(key) => handle_input(app, key),
        Event::Other => {},
    }
}

/// A press of the key `code`.
pub open spec fn press(code: KeyCode) -> KeyEvent {
    KeyEvent { code, kind: KeyEventKind::Press }
}

/// The state after a sequence of key events, applied in order.
pub open spec fn keys_effect(app: AppView, keys: Seq<KeyEvent>) -> AppView
    decreases keys.len(),
{
    if keys.len() == 0 {
        app
    } else {
        key_effect(keys_effect(app, keys.drop_last()), keys.last())
    }
}

/// Whether a key event ends the loop when it arrives in the state `app`: a
/// press of escape does, and so does a press of enter that submits the quit
/// command.
pub open spec fn ends_loop(app: AppView, key: KeyEvent) -> bool {
    key.kind == KeyEventKind::Press && (key.code == KeyCode::Esc || (key.code == KeyCode::Enter
        && app.input.len() > 0 && lookup(trimmed(app.input)) is Quit))
}

/// The state after `text` has been typed: one press of a character key for
/// each of its characters, in order.
pub open spec fn typed(app: AppView, text: Seq<char>) -> AppView
    decreases text.len(),
{
    if text.len() == 0 {
        app
    } else {
        key_effect(typed(app, text.drop_last()), press(KeyCode::Char(text.last())))
    }
}

/// The state after `count` presses of backspace.
pub open spec fn erased(app: AppView, count: nat) -> AppView
    decreases count,
{
    if count == 0 {
        app
    } else {
        key_effect(erased(app, (count - 1) as nat), press(KeyCode::Backspace))
    }
}

/// After one key event the loop is running exactly when it was running
/// before and the event does not end it.
pub proof fn law_running_after_key(app: AppView, key: KeyEvent)
    ensures
        key_effect(app, key).running == (app.running && !ends_loop(app, key)),
{
}

/// The loop keeps running through every sequence of key events that holds
/// neither a press of escape nor a submission of the quit command.
pub proof fn law_loop_keeps_running(app: AppView, keys: Seq<KeyEvent>)
    requires
        app.running,
        forall|i: int|
            0 <= i < keys.len() ==> !ends_loop(keys_effect(app, #[trigger] keys.take(i)), keys[i]),
    ensures
        keys_effect(app, keys).running,
    decreases keys.len(),
{
    if keys.len() > 0 {
        let front = keys.drop_last();
        assert forall|i: int| 0 <= i < front.len() implies !ends_loop(
            keys_effect(app, #[trigger] front.take(i)),
            front[i],
        ) by {
            assert(front.take(i) =~= keys.take(i));
        }
        law_loop_keeps_running(app, front);
        assert(keys.take(keys.len() - 1) =~= front);
        law_running_after_key(keys_effect(app, front), keys.last());
    }
}

/// A press of escape stops the loop in every state, and changes nothing else.
pub proof fn law_escape_stops(app: AppView)
    ensures
        key_effect(app, press(KeyCode::Esc)) == (AppView { running: false, ..app }),
{
}

/// Backspace on an empty buffer changes nothing, and backspace right after
/// a character key takes that character away again.
pub proof fn law_backspace_undoes_char(app: AppView, c: char)
    ensures
        app.input.len() == 0 ==> key_effect(app, press(KeyCode::Backspace)) == app,
        key_effect(key_effect(app, press(KeyCode::Char(c))), press(KeyCode::Backspace)) == app,
{
    assert(app.input.push(c).drop_last() =~= app.input);
}

/// Typing `text` appends it to the input buffer and changes nothing else.
pub proof fn lemma_typed_appends(app: AppView, text: Seq<char>)
    ensures
        typed(app, text) == (AppView { input: app.input + text, ..app }),
    decreases text.len(),
{
    if text.len() == 0 {
        assert(app.input + text =~= app.input);
    } else {
        let front = text.drop_last();
        lemma_typed_appends(app, front);
        assert((app.input + front).push(text.last()) =~= app.input + text);
    }
}

/// `count` presses of backspace take the last `count` characters off an
/// input buffer that holds at least that many, and change nothing else.
pub proof fn lemma_erased_truncates(app: AppView, count: nat)
    requires
        count <= app.input.len(),
    ensures
        erased(app, count) == (AppView { input: app.input.take(app.input.len() - count), ..app }),
    decreases count,
{
    if count == 0 {
        assert(app.input.take(app.input.len() as int) =~= app.input);
    } else {
        let fewer = (count - 1) as nat;
        lemma_erased_truncates(app, fewer);
        assert(app.input.take(app.input.len() - fewer).drop_last() =~= app.input.take(
            app.input.len() - count,
        ));
    }
}

/// Typing a text and then pressing backspace once for each of its
/// characters leaves the state as it was.
pub proof fn law_type_then_erase(app: AppView, text: Seq<char>)
    ensures
        erased(typed(app, text), text.len()) == app,
{
    lemma_typed_appends(app, text);
    lemma_erased_truncates(typed(app, text), text.len());
    assert((app.input + text).take(app.input.len() as int) =~= app.input);
}

/// Enter on an empty buffer changes nothing: the log stays as it is and no
/// command runs.
pub proof fn law_empty_submit_is_noop(app: AppView)
    requires
        app.input.len() == 0,
    ensures
        key_effect(app, press(KeyCode::Enter)) == app,
{
}

/// Enter on a non-empty buffer leaves the buffer empty and runs the
/// submitted command on the log with the echo appended: whatever the
/// command appends stands behind exactly one echo line, `clear` leaves the
/// log empty, and only `quit` lowers the running flag.
pub proof fn law_submit_echoes_then_runs(app: AppView)
    requires
        app.input.len() > 0,
    ensures
        ({
            let after = key_effect(app, press(KeyCode::Enter));
            let command = lookup(trimmed(app.input));
            &&& after.input.len() == 0
            &&& after.running == (app.running && !(command is Quit))
            &&& command is Clear ==> after.messages.len() == 0
            &&& !(command is Clear) ==> after.messages == app.messages.push(echo_line(app.input))
                + appended_lines(command)
        }),
{
    let echoed = app.messages.push(echo_line(app.input));
    assert(echoed + Seq::<Seq<char>>::empty() =~= echoed);
}

/// The log is only ever appended to or emptied: after any key event it is
/// empty or starts with the log as it was.
pub proof fn law_log_grows_or_clears(app: AppView, key: KeyEvent)
    ensures
        key_effect(app, key).messages.len() == 0 || app.messages.is_prefix_of(
            key_effect(app, key).messages,
        ),
{
    let after = key_effect(app, key);
    if after.messages.len() != 0 {
        if key.kind == KeyEventKind::Press && key.code == KeyCode::Enter && app.input.len() > 0 {
            let echoed = app.messages.push(echo_line(app.input));
            let command = lookup(trimmed(app.input));
            assert(after.messages =~= echoed + appended_lines(command));
        }
        assert(app.messages.is_prefix_of(after.messages));
    }
}

} // verus!
