use command_console::input::{handle_event, handle_input, Event, KeyCode, KeyEvent, KeyEventKind};
use command_console::state::App;

fn press(code: KeyCode) -> KeyEvent {
    KeyEvent { code, kind: KeyEventKind::Press }
}

fn type_text(app: &mut App, text: &str) {
    for c in text.chars() {
        handle_input(app, press(KeyCode::Char(c)));
    }
}

#[test]
fn character_keys_append_to_the_input() {
    let mut app = App::new();
    type_text(&mut app, "hi \u{e9}!");
    assert_eq!(app.input, "hi \u{e9}!");
    assert_eq!(app.messages.len(), 2);
    assert!(app.running);
}

#[test]
fn backspace_removes_the_last_character() {
    let mut app = App::new();
    type_text(&mut app, "ab\u{e9}");
    handle_input(&mut app, press(KeyCode::Backspace));
    assert_eq!(app.input, "ab");
    handle_input(&mut app, press(KeyCode::Backspace));
    assert_eq!(app.input, "a");
}

#[test]
fn backspace_on_empty_input_changes_nothing() {
    let mut app = App::new();
    let before = app.clone();
    handle_input(&mut app, press(KeyCode::Backspace));
    assert_eq!(app, before);
}

#[test]
fn typing_then_erasing_restores_the_input() {
    let mut app = App::new();
    type_text(&mut app, "keep");
    let before = app.clone();
    let typed = "some more text";
    type_text(&mut app, typed);
    assert_eq!(app.input, "keepsome more text");
    for _ in 0..typed.chars().count() {
        handle_input(&mut app, press(KeyCode::Backspace));
    }
    assert_eq!(app, before);
}

#[test]
fn releases_and_repeats_are_ignored() {
    let mut app = App::new();
    type_text(&mut app, "quit");
    let before = app.clone();
    for kind in [KeyEventKind::Release, KeyEventKind::Repeat] {
        for code in [
            KeyCode::Enter,
            KeyCode::Char('x'),
            KeyCode::Backspace,
            KeyCode::Esc,
            KeyCode::Other,
        ] {
            handle_input(&mut app, KeyEvent { code, kind });
            assert_eq!(app, before);
        }
    }
}

#[test]
fn other_keys_are_ignored() {
    let mut app = App::new();
    type_text(&mut app, "abc");
    let before = app.clone();
    handle_input(&mut app, press(KeyCode::Other));
    assert_eq!(app, before);
}

#[test]
fn escape_stops_the_loop_and_keeps_the_rest() {
    let mut app = App::new();
    type_text(&mut app, "half typed");
    handle_input(&mut app, press(KeyCode::Esc));
    assert!(!app.running);
    assert_eq!(app.input, "half typed");
    assert_eq!(app.messages.len(), 2);
}

#[test]
fn enter_on_empty_input_changes_nothing() {
    let mut app = App::new();
    let before = app.clone();
    handle_input(&mut app, press(KeyCode::Enter));
    assert_eq!(app, before);
}

#[test]
fn typing_help_and_enter_echoes_and_lists_commands() {
    let mut app = App::new();
    type_text(&mut app, "help");
    handle_input(&mut app, press(KeyCode::Enter));
    assert_eq!(app.input, "");
    assert_eq!(
        app.messages,
        vec![
            "Welcome! Type 'help' for available commands.".to_string(),
            "Press Esc to quit.".to_string(),
            "> help".to_string(),
            "  Available commands:".to_string(),
            "    help   \u{2014} show this message".to_string(),
            "    hello  \u{2014} say hello".to_string(),
            "    clear  \u{2014} clear the output".to_string(),
            "    quit   \u{2014} exit the app".to_string(),
        ]
    );
    assert!(app.running);
}

#[test]
fn typing_an_unknown_word_and_enter_reports_it_once() {
    let mut app = App::new();
    type_text(&mut app, "xyz");
    handle_input(&mut app, press(KeyCode::Enter));
    assert_eq!(app.input, "");
    assert_eq!(
        app.messages,
        vec![
            "Welcome! Type 'help' for available commands.".to_string(),
            "Press Esc to quit.".to_string(),
            "> xyz".to_string(),
            "  Unknown command: 'xyz'. Try 'help'.".to_string(),
        ]
    );
    assert!(app.running);
}

#[test]
fn the_echo_keeps_the_input_as_typed_and_the_command_is_trimmed() {
    let mut app = App::new();
    type_text(&mut app, "  hello ");
    handle_input(&mut app, press(KeyCode::Enter));
    assert_eq!(app.input, "");
    assert_eq!(app.messages[2], ">   hello ");
    assert_eq!(app.messages[3], "  Hello, world!");
    assert_eq!(app.messages.len(), 4);
}

#[test]
fn submitting_clear_leaves_an_empty_log_and_an_empty_input() {
    let mut app = App::new();
    type_text(&mut app, "clear");
    handle_input(&mut app, press(KeyCode::Enter));
    assert!(app.messages.is_empty());
    assert_eq!(app.input, "");
    assert!(app.running);
}

#[test]
fn submitting_quit_echoes_and_stops_the_loop() {
    let mut app = App::new();
    type_text(&mut app, "quit");
    handle_input(&mut app, press(KeyCode::Enter));
    assert!(!app.running);
    assert_eq!(app.input, "");
    assert_eq!(app.messages.len(), 3);
    assert_eq!(app.messages[2], "> quit");
}

#[test]
fn keys_without_escape_or_quit_keep_the_loop_running() {
    let mut app = App::new();
    let lines = ["help", "hello", "clear", "quit it", "QUIT", "", "xyz"];
    for line in lines {
        type_text(&mut app, line);
        handle_input(&mut app, press(KeyCode::Backspace));
        handle_input(&mut app, press(KeyCode::Other));
        handle_input(&mut app, press(KeyCode::Enter));
        assert!(app.running);
    }
}

#[test]
fn the_log_only_grows_or_is_cleared() {
    let mut app = App::new();
    for line in ["hello", "nope", "help", "clear", "hello"] {
        type_text(&mut app, line);
        let before = app.messages.clone();
        handle_input(&mut app, press(KeyCode::Enter));
        assert!(app.messages.is_empty() || app.messages.starts_with(&before));
    }
    assert_eq!(app.messages, vec!["> hello".to_string(), "  Hello, world!".to_string()]);
}

#[test]
fn events_other_than_keys_change_nothing() {
    let mut app = App::new();
    type_text(&mut app, "abc");
    let before = app.clone();
    handle_event(&mut app, Event::Other);
    assert_eq!(app, before);
}

#[test]
fn key_events_are_handled_as_keys() {
    let mut app = App::new();
    handle_event(&mut app, Event::Key(press(KeyCode::Char('z'))));
    assert_eq!(app.input, "z");
    handle_event(&mut app, Event::Key(press(KeyCode::Esc)));
    assert!(!app.running);
}
