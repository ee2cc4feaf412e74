//! The command table: which words the console understands and what each one
//! does to the application state.

use vstd::prelude::*;
use vstd::string::StringExecFns;
use crate::state::{App, AppView};
use crate::text::{appended, lines, same_text, trimmed};

verus! {

/// A submitted command, after lookup in the command table.
#[derive(Clone, Debug, PartialEq, Eq)]
pub enum Command {
    /// Lists the available commands.
    Help,
    /// Prints a greeting.
    Hello,
    /// Empties the message log.
    Clear,
    /// Stops the interaction loop.
    Quit,
    /// Any other text, kept as it was submitted.
    Unknown(String),
}

/// The mathematical model of a [`Command`].
pub enum CommandView {
    Help,
    Hello,
    Clear,
    Quit,
    Unknown(Seq<char>),
}

impl View for Command {
    type V = CommandView;

    open spec fn view(&self) -> CommandView {
        match self {
            Command::Help => CommandView::Help,
            Command::Hello => CommandView::Hello,
            Command::Clear => CommandView::Clear,
            Command::Quit => CommandView::Quit,
            Command::Unknown(text) => CommandView::Unknown(text@),
        }
    }
}

/// The command that a name stands for. The match is exact and case
/// sensitive; a name outside the table is kept as `Unknown`.
pub open spec fn lookup(name: Seq<char>) -> CommandView {
    if name == "help"@ {
        CommandView::Help
    } else if name == "hello"@ {
        CommandView::Hello
    } else if name == "clear"@ {
        CommandView::Clear
    } else if name == "quit"@ {
        CommandView::Quit
    } else {
        CommandView::Unknown(name)
    }
}

/// The lines that `help` appends to the log.
pub open spec fn help_lines() -> Seq<Seq<char>> {
    seq![
        "  Available commands:"@,
        "    help   \u{2014} show this message"@,
        "    hello  \u{2014} say hello"@,
        "    clear  \u{2014} clear the output"@,
        "    quit   \u{2014} exit the app"@,
    ]
}

/// The line that `hello` appends to the log.
pub open spec fn hello_line() -> Seq<char> {
    "  Hello, world!"@
}

/// The line that reports `name` as a command the table does not hold.
pub open spec fn unknown_line(name: Seq<char>) -> Seq<char> {
    "  Unknown command: '"@ + name + "'. Try 'help'."@
}

/// The lines that a command appends to the log.
pub open spec fn appended_lines(command: CommandView) -> Seq<Seq<char>> {
    match command {
        CommandView::Help => help_lines(),
        CommandView::Hello => seq![hello_line()],
        CommandView::Unknown(name) => seq![unknown_line(name)],
        CommandView::Clear | CommandView::Quit => Seq::empty(),
    }
}

/// The state after a command has run: `clear` empties the log, `quit` lowers
/// the running flag, every other command appends its lines to the log.
/// No command touches the input buffer.
pub open spec fn effect(app: AppView, command: CommandView) -> AppView {
    match command {
        CommandView::Clear => AppView { messages: Seq::empty(), ..app },
        CommandView::Quit => AppView { running: false, ..app },
        _ => AppView { messages: app.messages + appended_lines(command), ..app },
    }
}

impl Command {
    /// Looks a name up in the command table.
    pub fn parse(name: &str) -> (command: Command)
        ensures
            command@ == lookup(name@),
    {
        if same_text(name, "help") {
            Command::Help
        } else if same_text(name, "hello") {
            Command::Hello
        } else if same_text(name, "clear") {
            Command::Clear
        } else if same_text(name, "quit") {
            Command::Quit
        } else {
            Command::Unknown(String::from_str(name))
        }
    }
}

impl App {
    /// Runs one command on the state.
    pub fn apply(&mut self, command: Command)
        ensures
            final(self)@ == effect(old(self)@, command@),
    {
        let ghost before = self.messages@;
        match command {
            Command::Help => {
                self.messages.push(String::from_str("  Available commands:"));
                self.messages.push(String::from_str("    help   \u{2014} show this message"));
                self.messages.push(String::from_str("    hello  \u{2014} say hello"));
                self.messages.push(String::from_str("    clear  \u{2014} clear the output"));
                self.messages.push(String::from_str("    quit   \u{2014} exit the app"));
                assert(lines(self.messages@) =~= lines(before) + help_lines());
            },
            Command::Hello => {
                self.messages.push(String::from_str("  Hello, world!"));
                assert(lines(self.messages@) =~= lines(before) + seq![hello_line()]);
            },
            Command::Clear => {
                self.messages.clear();
                assert(lines(self.messages@) =~= Seq::<Seq<char>>::empty());
            },
            Command::Quit => {
                self.running = false;
            },
            Command::Unknown(name) => {
                let quoted = appended("  Unknown command: '", name.as_str());
                let line = appended(quoted.as_str(), "'. Try 'help'.");
                self.messages.push(line);
                assert(lines(self.messages@) =~= lines(before) + seq![unknown_line(name@)]);
            },
        }
    }
}

/// Runs the command that `name` stands for. `name` is taken as it is: the
/// caller has already stripped surrounding white space.
pub fn dispatch(app: &mut App, name: &str)
    ensures
        final(app)@ == effect(old(app)@, lookup(name@)),
{
    let command = Command::parse(name);
    app.apply(command);
}

/// Runs a submitted command line: strips surrounding white space, looks the
/// rest up in the command table and applies what it finds.
pub fn execute_command(app: &mut App, cmd: &str)
    ensures
        final(app)@ == effect(old(app)@, lookup(trimmed(cmd@))),
{
    dispatch(app, cmd.trim());
}

} // verus!
