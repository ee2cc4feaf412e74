//! The lifecycle of a terminal session as a state machine. The session says
//! what has to happen next (a directive); whoever drives the terminal does it
//! and reports how it went; the session decides what follows. The terminal is
//! released exactly once on every path on which it was acquired.

use vstd::prelude::*;
use crate::input::{ends_loop, event_effect, handle_event, law_running_after_key, press, Event, KeyCode};
use crate::state::{initial_state, App, AppView};

verus! {

/// Where a session stands.
#[derive(Clone, Copy, Debug, PartialEq, Eq, Structural)]
pub enum Stage {
    /// The terminal has not been acquired yet.
    Starting,
    /// The loop runs and the next frame is due.
    Drawing,
    /// The loop runs, the frame is drawn, and the next input event is awaited.
    Awaiting,
    /// The loop has ended and the terminal has to be released.
    Releasing,
    /// Nothing is left to do but to exit.
    Finished,
}

/// The two kinds of fatal error.
#[derive(Clone, Copy, Debug, PartialEq, Eq, Structural)]
pub enum ErrorKind {
    /// The terminal could not be acquired.
    TerminalInit,
    /// Drawing a frame or reading an input event failed.
    Io,
}

/// A fatal error with the text to show for it.
#[derive(Clone, Debug, PartialEq, Eq)]
pub struct SessionError {
    pub kind: ErrorKind,
    pub message: String,
}

/// The mathematical model of a [`SessionError`].
pub struct SessionErrorView {
    pub kind: ErrorKind,
    pub message: Seq<char>,
}

impl View for SessionError {
    type V = SessionErrorView;

    open spec fn view(&self) -> SessionErrorView {
        SessionErrorView { kind: self.kind, message: self.message@ }
    }
}

/// What the session asks for next.
#[derive(Clone, Copy, Debug, PartialEq, Eq, Structural)]
pub enum Directive {
    /// Acquire the terminal.
    Acquire,
    /// Draw one frame from the state.
    Draw,
    /// Block until one input event arrives.
    AwaitInput,
    /// Release the terminal.
    Release,
    /// Exit with this code, after showing the error if there is one.
    Exit(u8),
}

/// How the last directive went.
#[derive(Clone, Debug, PartialEq, Eq)]
pub enum Report {
    /// The terminal was acquired.
    Acquired,
    /// The frame was drawn.
    Drawn,
    /// An input event arrived.
    Input(Event),
    /// The terminal was released.
    Released,
    /// The directive failed, with the text of the error.
    Failed(String),
}

/// The mathematical model of a [`Report`].
pub enum ReportView {
    Acquired,
    Drawn,
    Input(Event),
    Released,
    Failed(Seq<char>),
}

impl View for Report {
    type V = ReportView;

    open spec fn view(&self) -> ReportView {
        match self {
            Report::Acquired => ReportView::Acquired,
            Report::Drawn => ReportView::Drawn,
            Report::Input(event) => ReportView::Input(*event),
            Report::Released => ReportView::Released,
            Report::Failed(message) => ReportView::Failed(message@),
        }
    }
}

/// One terminal session: its stage, the application state that its loop
/// owns, and the fatal error that ended it, if one did.
#[derive(Clone, Debug)]
pub struct Session {
    stage: Stage,
    app: App,
    error: Option<SessionError>,
}

/// The mathematical model of a [`Session`].
pub struct SessionView {
    pub stage: Stage,
    pub app: AppView,
    pub error: Option<SessionErrorView>,
}

impl View for Session {
    type V = SessionView;

    closed spec fn view(&self) -> SessionView {
        SessionView {
            stage: self.stage,
            app: self.app@,
            error: match self.error {
                Some(error) => Some(error@),
                None => None,
            },
        }
    }
}

/// The session before anything has happened.
pub open spec fn initial_session() -> SessionView {
    SessionView { stage: Stage::Starting, app: initial_state(), error: None }
}

/// The stage in which the loop stands once its state is `app`: it goes on
/// while the running flag is up, and hands over to the release when not.
pub open spec fn loop_stage(app: AppView) -> Stage {
    if app.running {
        Stage::Drawing
    } else {
        Stage::Releasing
    }
}

/// The exit code for a session that ended with `error`: zero exactly when
/// there is none.
pub open spec fn exit_code(error: Option<SessionErrorView>) -> u8 {
    if error is None {
        0
    } else {
        1
    }
}

impl SessionView {
    /// What holds of every session that started from [`initial_session`]:
    /// before the terminal is acquired nothing has changed; while the loop
    /// runs the running flag is up and there is no error; a failure to
    /// acquire the terminal ends the session at once, with the state
    /// untouched; and a session that leaves the loop without an error has
    /// lowered the running flag.
    pub open spec fn wf(self) -> bool {
        &&& self.stage == Stage::Starting ==> self.app == initial_state() && self.error is None
        &&& self.stage == Stage::Drawing || self.stage == Stage::Awaiting ==> self.app.running
            && self.error is None
        &&& self.error is Some && self.error->0.kind == ErrorKind::TerminalInit ==> self.stage
            == Stage::Finished && self.app == initial_state()
        &&& (self.stage == Stage::Releasing || self.stage == Stage::Finished) && self.error is None
            ==> !self.app.running
    }

    /// What the session asks for in its present stage.
    pub open spec fn directive(self) -> Directive {
        match self.stage {
            Stage::Starting => Directive::Acquire,
            Stage::Drawing => Directive::Draw,
            Stage::Awaiting => Directive::AwaitInput,
            Stage::Releasing => Directive::Release,
            Stage::Finished => Directive::Exit(exit_code(self.error)),
        }
    }

    /// The session after one report. A report that does not answer the
    /// pending directive changes nothing.
    pub open spec fn step(self, report: ReportView) -> SessionView {
        match (self.stage, report) {
            (Stage::Starting, ReportView::Acquired) => SessionView {
                stage: loop_stage(self.app),
                ..self
            },
            (Stage::Starting, ReportView::Failed(message)) => SessionView {
                stage: Stage::Finished,
                error: Some(SessionErrorView { kind: ErrorKind::TerminalInit, message }),
                ..self
            },
            (Stage::Drawing, ReportView::Drawn) => SessionView { stage: Stage::Awaiting, ..self },
            (Stage::Awaiting, ReportView::Input(event)) => SessionView {
                stage: loop_stage(event_effect(self.app, event)),
                app: event_effect(self.app, event),
                ..self
            },
            (Stage::Drawing, ReportView::Failed(message))
            | (Stage::Awaiting, ReportView::Failed(message)) => SessionView {
                stage: Stage::Releasing,
                error: Some(SessionErrorView { kind: ErrorKind::Io, message }),
                ..self
            },
            (Stage::Releasing, ReportView::Released) => SessionView {
                stage: Stage::Finished,
                ..self
            },
            _ => self,
        }
    }

    /// The session after a sequence of reports, taken in order.
    pub open spec fn run(self, reports: Seq<ReportView>) -> SessionView
        decreases reports.len(),
    {
        if reports.len() == 0 {
            self
        } else {
            self.run(reports.drop_last()).step(reports.last())
        }
    }

    /// Whether a report makes the session ask for the release of the
    /// terminal: the step takes it into `Releasing` from another stage.
    pub open spec fn asks_release(self, report: ReportView) -> bool {
        self.stage != Stage::Releasing && self.step(report).stage == Stage::Releasing
    }

    /// How often the session asks for the release of the terminal along a
    /// sequence of reports.
    pub open spec fn releases(self, reports: Seq<ReportView>) -> nat
        decreases reports.len(),
    {
        if reports.len() == 0 {
            0
        } else {
            let before = self.run(reports.drop_last());
            let asked: nat = if before.asks_release(reports.last()) {
                1
            } else {
                0
            };
            self.releases(reports.drop_last()) + asked
        }
    }
}

impl Session {
    /// Creates a session that has not acquired the terminal yet.
    pub fn new() -> (session: Session)
        ensures
            session@ == initial_session(),
            session@.wf(),
    {
        Session { stage: Stage::Starting, app: App::new(), error: None }
    }

    /// The stage of the session.
    pub fn stage(&self) -> (stage: Stage)
        ensures
            stage == self@.stage,
    {
        self.stage
    }

    /// The application state.
    pub fn app(&self) -> (app: &App)
        ensures
            app@ == self@.app,
    {
        &self.app
    }

    /// The fatal error that ended the session, if one did.
    pub fn error(&self) -> (error: Option<&SessionError>)
        ensures
            error is Some <==> self@.error is Some,
            error is Some ==> error->0@ == self@.error->0,
    {
        self.error.as_ref()
    }

    /// What the session asks for in its present stage.
    pub fn pending(&self) -> (directive: Directive)
        ensures
            directive == self@.directive(),
    {
        match self.stage {
            Stage::Starting => Directive::Acquire,
            Stage::Drawing => Directive::Draw,
            Stage::Awaiting => Directive::AwaitInput,
            Stage::Releasing => Directive::Release,
            Stage::Finished => Directive::Exit(if self.error.is_none() { 0 } else { 1 }),
        }
    }

    /// Takes the report on the pending directive and returns the next one.
    pub fn advance(&mut self, report: Report) -> (next: Directive)
        ensures
            final(self)@ == old(self)@.step(report@),
            next == final(self)@.directive(),
            old(self)@.wf() ==> final(self)@.wf(),
    {
        match self.stage {
            Stage::Starting => match report {
                Report::Acquired => {
                    self.stage = if self.app.running { Stage::Drawing } else { Stage::Releasing };
                },
                Report::Failed(message) => {
                    self.error = Some(SessionError { kind: ErrorKind::TerminalInit, message });
                    self.stage = Stage::Finished;
                },
                _ => {},
            },
            Stage::Drawing => match report {
                Report::Drawn => {
                    self.stage = Stage::Awaiting;
                },
                Report::Failed(message) => {
                    self.error = Some(SessionError { kind: ErrorKind::Io, message });
                    self.stage = Stage::Releasing;
                },
                _ => {},
            },
            Stage::Awaiting => match report {
                Report::Input(event) => {
                    handle_event(&mut self.app, event);
                    self.stage = if self.app.running { Stage::Drawing } else { Stage::Releasing };
                },
                Report::Failed(message) => {
                    self.error = Some(SessionError { kind: ErrorKind::Io, message });
                    self.stage = Stage::Releasing;
                },
                _ => {},
            },
            Stage::Releasing => match report {
                Report::Released => {
                    self.stage = Stage::Finished;
                },
                _ => {},
            },
            Stage::Finished => {},
        }
        self.pending()
    }
}

/// One more report after a sequence acts on the session that the sequence
/// leaves, and adds its own request for a release to the count.
pub proof fn lemma_run_push(s: SessionView, reports: Seq<ReportView>, report: ReportView)
    ensures
        s.run(reports.push(report)) == s.run(reports).step(report),
        s.run(reports).asks_release(report) ==> s.releases(reports.push(report)) == s.releases(
            reports,
        ) + 1,
        !s.run(reports).asks_release(report) ==> s.releases(reports.push(report)) == s.releases(
            reports,
        ),
{
    assert(reports.push(report).drop_last() =~= reports);
}

/// A step keeps a well-formed session well-formed.
pub proof fn lemma_step_keeps_wf(s: SessionView, report: ReportView)
    requires
        s.wf(),
    ensures
        s.step(report).wf(),
{
}

/// Every session that started from the initial one is well-formed, whatever
/// was reported to it.
pub proof fn law_sessions_stay_wf(reports: Seq<ReportView>)
    ensures
        initial_session().run(reports).wf(),
    decreases reports.len(),
{
    if reports.len() > 0 {
        law_sessions_stay_wf(reports.drop_last());
        lemma_step_keeps_wf(initial_session().run(reports.drop_last()), reports.last());
    }
}

/// The terminal is released exactly once on every path on which it was
/// acquired, and never on another. Along any sequence of reports the
/// session asks for the release at most once: not before the loop has
/// ended; once by the time it is in `Releasing`; and a session that is
/// `Finished` has asked once, unless it failed to acquire the terminal, in
/// which case it has never asked.
pub proof fn law_released_exactly_once(reports: Seq<ReportView>)
    ensures
        ({
            let end = initial_session().run(reports);
            let asked = initial_session().releases(reports);
            let never_acquired = end.error is Some && end.error->0.kind == ErrorKind::TerminalInit;
            &&& asked <= 1
            &&& end.stage == Stage::Starting || end.stage == Stage::Drawing || end.stage
                == Stage::Awaiting ==> asked == 0
            &&& end.stage == Stage::Releasing ==> asked == 1
            &&& end.stage == Stage::Finished ==> (asked == 0 <==> never_acquired)
        }),
    decreases reports.len(),
{
    if reports.len() > 0 {
        law_released_exactly_once(reports.drop_last());
        law_sessions_stay_wf(reports.drop_last());
        law_sessions_stay_wf(reports);
    }
}

/// A press of escape ends the session from every state in which input is
/// awaited: the loop stops without an error, the session asks for the
/// release of the terminal, and once that is reported it asks for an exit
/// with code zero. Over the whole path the release was asked for once.
pub proof fn law_escape_ends_session(reports: Seq<ReportView>)
    requires
        initial_session().run(reports).stage == Stage::Awaiting,
    ensures
        ({
            let escape = ReportView::Input(Event::Key(press(KeyCode::Esc)));
            let stopped = initial_session().run(reports.push(escape));
            let done = initial_session().run(reports.push(escape).push(ReportView::Released));
            &&& !stopped.app.running
            &&& stopped.error is None
            &&& stopped.directive() == Directive::Release
            &&& initial_session().releases(reports.push(escape)) == 1
            &&& done.directive() == Directive::Exit(0)
            &&& initial_session().releases(reports.push(escape).push(ReportView::Released)) == 1
        }),
{
    let escape = ReportView::Input(Event::Key(press(KeyCode::Esc)));
    law_sessions_stay_wf(reports);
    law_released_exactly_once(reports);
    lemma_run_push(initial_session(), reports, escape);
    lemma_run_push(initial_session(), reports.push(escape), ReportView::Released);
}

/// When the terminal cannot be acquired the session is over at once: it
/// asks for an exit with a code other than zero, it holds the error as a
/// `TerminalInit` error, the state is the initial one, and whatever is
/// reported afterwards it never asks for a frame, for input or for a release.
pub proof fn law_failed_acquisition_exits(message: Seq<char>, later: Seq<ReportView>)
    ensures
        ({
            let reports = seq![ReportView::Failed(message)] + later;
            let end = initial_session().run(reports);
            &&& end.directive() == Directive::Exit(1)
            &&& end.error == Some(SessionErrorView { kind: ErrorKind::TerminalInit, message })
            &&& end.app == initial_state()
            &&& initial_session().releases(reports) == 0
        }),
    decreases later.len(),
{
    let first = seq![ReportView::Failed(message)];
    if later.len() == 0 {
        assert(first + later =~= Seq::<ReportView>::empty().push(ReportView::Failed(message)));
        lemma_run_push(initial_session(), Seq::empty(), ReportView::Failed(message));
    } else {
        law_failed_acquisition_exits(message, later.drop_last());
        assert(first + later =~= (first + later.drop_last()).push(later.last()));
        lemma_run_push(initial_session(), first + later.drop_last(), later.last());
    }
}

/// The loop goes on after every input event that does not end it: when
/// input is awaited and the event is neither a press of escape nor a
/// submission of the quit command, the session asks for the next frame.
pub proof fn law_session_keeps_looping(s: SessionView, event: Event)
    requires
        s.wf(),
        s.stage == Stage::Awaiting,
        event matches Event::Key(key) ==> !ends_loop(s.app, key),
    ensures
        s.step(ReportView::Input(event)).directive() == Directive::Draw,
{
    if let Event::Key(key) = event {
        law_running_after_key(s.app, key);
    }
}

/// An error while a frame is drawn or input is awaited ends the loop and
/// still has the terminal released: the session holds the error as an `Io`
/// error, asks for the release, and after it for an exit with a code other
/// than zero.
pub proof fn law_loop_failure_releases(s: SessionView, message: Seq<char>)
    requires
        s.stage == Stage::Drawing || s.stage == Stage::Awaiting,
    ensures
        ({
            let failed = s.step(ReportView::Failed(message));
            &&& s.asks_release(ReportView::Failed(message))
            &&& failed.directive() == Directive::Release
            &&& failed.error == Some(SessionErrorView { kind: ErrorKind::Io, message })
            &&& failed.app == s.app
            &&& failed.step(ReportView::Released).directive() == Directive::Exit(1)
        }),
{
}

/// The loop keeps its order: input is awaited only once a frame has been
/// drawn, and the state changes only through an input event that arrives
/// while input is awaited.
pub proof fn law_loop_order(s: SessionView, report: ReportView)
    ensures
        s.stage != Stage::Awaiting && s.step(report).stage == Stage::Awaiting ==> s.stage
            == Stage::Drawing && report is Drawn,
        s.step(report).app != s.app ==> s.stage == Stage::Awaiting && report is Input,
{
}

} // verus!
