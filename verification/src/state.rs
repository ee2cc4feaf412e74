//! The application state: a running flag, the input buffer and the message log.

use vstd::prelude::*;
use vstd::string::StringExecFns;
use crate::text::lines;

verus! {

/// The single mutable record that drives rendering.
#[derive(Clone, Debug, PartialEq, Eq)]
pub struct App {
    /// Whether the interaction loop is still running.
    pub running: bool,
    /// What the user is currently typing.
    pub input: String,
    /// The message log, oldest line first.
    pub messages: Vec<String>,
}

/// The mathematical model of an [`App`].
pub struct AppView {
    pub running: bool,
    pub input: Seq<char>,
    pub messages: Seq<Seq<char>>,
}

impl View for App {
    type V = AppView;

    open spec fn view(&self) -> AppView {
        AppView { running: self.running, input: self.input@, messages: lines(self.messages@) }
    }
}

/// The state in which every session starts: running, nothing typed, and a
/// two-line greeting in the log.
pub open spec fn initial_state() -> AppView {
    AppView {
        running: true,
        input: Seq::empty(),
        messages: seq![
            "Welcome! Type 'help' for available commands."@,
            "Press Esc to quit."@,
        ],
    }
}

impl App {
    /// Creates the initial state.
    pub fn new() -> (app: App)
        ensures
            app@ == initial_state(),
    {
        let mut messages: Vec<String> = Vec::new();
        messages.push(String::from_str("Welcome! Type 'help' for available commands."));
        messages.push(String::from_str("Press Esc to quit."));
        let app = App { running: true, input: String::new(), messages };
        assert(app@.messages =~= initial_state().messages);
        app
    }
}

} // verus!
