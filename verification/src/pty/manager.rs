//! The session manager: one slot, and the operations that fill and empty it.
//!
//! The manager never performs anything itself. A request turns the manager
//! into an [`Operation`], which names the next [`Action`] for the host; the
//! host performs it and hands back an [`Outcome`], until the operation is done
//! and gives the manager back together with the result. While an operation is
//! under way the manager is owned by it, so no second request can start.

use vstd::prelude::*;
use crate::pty::types::{
    Action, ActionView, Dimensions, ManagerStatus, Outcome, OutcomeView, PtyError, PtyErrorView,
    SessionStatus,
};

verus! {

/// What the manager knows of the one session it may hold. A session exists
/// from the moment its pseudo-terminal is open until its handles are released.
#[derive(Clone, Copy, Debug, PartialEq, Eq, Structural)]
pub struct Session {
    pub dimensions: Dimensions,
    pub status: SessionStatus,
    /// The shell was started and its exit status has not been collected.
    pub child_alive: bool,
    /// The reader loop was started and has not been retired.
    pub reader_live: bool,
}

/// A request to the session manager.
#[derive(Debug)]
pub enum Request {
    /// A new shell, the one at `shell_path`, on a pseudo-terminal of `rows` by
    /// `cols`, fed `initial_command` first where there is one.
    Spawn { rows: u16, cols: u16, initial_command: Option<String>, shell_path: String },
    Write(String),
    Resize { rows: u16, cols: u16 },
    Kill,
    /// The reader loop has seen the shell go away and has reaped it.
    ChildExited,
}

/// Mathematical form of a [`Request`].
pub enum RequestView {
    Spawn { rows: u16, cols: u16, initial_command: Option<Seq<char>>, shell_path: Seq<char> },
    Write(Seq<char>),
    Resize { rows: u16, cols: u16 },
    Kill,
    ChildExited,
}

impl View for Request {
    type V = RequestView;

    open spec fn view(&self) -> RequestView {
        match self {
            Request::Spawn { rows, cols, initial_command, shell_path } => RequestView::Spawn {
                rows: *rows,
                cols: *cols,
                initial_command: initial_command.deep_view(),
                shell_path: shell_path@,
            },
            Request::Write(data) => RequestView::Write(data@),
            Request::Resize { rows, cols } => RequestView::Resize { rows: *rows, cols: *cols },
            Request::Kill => RequestView::Kill,
            Request::ChildExited => RequestView::ChildExited,
        }
    }
}

/// The action whose outcome an operation is waiting for.
#[derive(Clone, Copy, Debug, PartialEq, Eq, Structural)]
pub enum Step {
    SignalKill,
    CollectExit,
    RetireReader,
    ReleaseHandles,
    OpenPty,
    SpawnShell,
    WriteInitial,
    StartReader,
    Forward,
    ApplySize,
}

/// The owner of "at most one active session", at rest between two operations.
#[derive(Debug)]
pub struct SessionManager {
    session: Option<Session>,
}

/// A request that is being served.
#[derive(Debug)]
pub struct Operation {
    session: Option<Session>,
    request: Request,
    step: Step,
    failure: Option<PtyError>,
}

/// Mathematical form of an [`Operation`].
pub struct OperationView {
    /// The session as far as it exists at this step.
    pub session: Option<Session>,
    pub request: RequestView,
    pub step: Step,
    /// Why the request has failed, where it has and is only being cleaned up
    /// after.
    pub failure: Option<PtyErrorView>,
}

/// Either more to do, or the manager back with the result of the request.
#[derive(Debug)]
pub enum Progress {
    Pending(Operation),
    Done(SessionManager, Result<(), PtyError>),
}

/// Mathematical form of a [`Progress`].
pub enum ProgressView {
    Pending(OperationView),
    Done(Option<Session>, Result<(), PtyErrorView>),
}

impl View for SessionManager {
    type V = Option<Session>;

    closed spec fn view(&self) -> Option<Session> {
        self.session
    }
}

impl View for Operation {
    type V = OperationView;

    closed spec fn view(&self) -> OperationView {
        OperationView {
            session: self.session,
            request: self.request@,
            step: self.step,
            failure: error_view(self.failure),
        }
    }
}

impl View for Progress {
    type V = ProgressView;

    open spec fn view(&self) -> ProgressView {
        match self {
            Progress::Pending(op) => ProgressView::Pending(op@),
            Progress::Done(m, r) => ProgressView::Done(m@, result_view(*r)),
        }
    }
}

pub open spec fn error_view(e: Option<PtyError>) -> Option<PtyErrorView> {
    match e {
        Some(e) => Some(e@),
        None => None,
    }
}

pub open spec fn result_view(r: Result<(), PtyError>) -> Result<(), PtyErrorView> {
    match r {
        Ok(()) => Ok(()),
        Err(e) => Err(e@),
    }
}

/// A session at rest is running: shell and reader loop both exist.
pub open spec fn slot_wf(slot: Option<Session>) -> bool {
    slot matches Some(s) ==> s.status == SessionStatus::Running && s.child_alive && s.reader_live
}

/// What a status query answers for a manager at rest.
pub open spec fn status_of(slot: Option<Session>) -> ManagerStatus {
    match slot {
        Some(s) if s.status == SessionStatus::Running => ManagerStatus::Running,
        _ => ManagerStatus::Idle,
    }
}

/// The size that a request names: that of the pseudo-terminal to open, or the
/// one to change to.
pub open spec fn requested_size(request: RequestView) -> Dimensions {
    match request {
        RequestView::Spawn { rows, cols, .. } => Dimensions { rows, cols },
        RequestView::Resize { rows, cols } => Dimensions { rows, cols },
        _ => Dimensions { rows: 0, cols: 0 },
    }
}

/// The text that a request has written to the shell: what a write carries,
/// as it is, and the initial command of a spawn, followed by a newline.
pub open spec fn requested_text(request: RequestView) -> Seq<char> {
    match request {
        RequestView::Write(data) => data,
        RequestView::Spawn { initial_command: Some(command), .. } => command.push('\n'),
        _ => Seq::empty(),
    }
}

/// The shell that a spawn asks for.
pub open spec fn requested_shell(request: RequestView) -> Seq<char> {
    match request {
        RequestView::Spawn { shell_path, .. } => shell_path,
        _ => Seq::empty(),
    }
}

/// Whether a spawn comes with a command to feed the shell first.
pub open spec fn has_initial_command(request: RequestView) -> bool {
    request matches RequestView::Spawn { initial_command: Some(_), .. }
}

/// A session whose pseudo-terminal has just been opened.
pub open spec fn opened(size: Dimensions) -> Session {
    Session {
        dimensions: size,
        status: SessionStatus::Spawning,
        child_alive: false,
        reader_live: false,
    }
}

/// The teardown action that a session needs next: first the shell, then the
/// reader loop, the handles last.
pub open spec fn teardown_step(s: Session) -> Step {
    if s.child_alive {
        Step::SignalKill
    } else if s.reader_live {
        Step::RetireReader
    } else {
        Step::ReleaseHandles
    }
}

/// The session once its teardown has been decided: terminating while its
/// shell is still to be reaped, terminated where there is none to reap.
pub open spec fn retiring(s: Session) -> Session {
    Session {
        status: if s.child_alive {
            SessionStatus::Terminating
        } else {
            SessionStatus::Terminated
        },
        ..s
    }
}

/// The session once the shell's exit status has been collected.
pub open spec fn reaped(s: Session) -> Session {
    Session { status: SessionStatus::Terminated, child_alive: false, ..s }
}

/// A session that a spawn is building: sized as asked, no reader loop yet,
/// nothing gone wrong.
pub open spec fn building(op: OperationView, s: Session) -> bool {
    &&& op.request is Spawn
    &&& op.failure is None
    &&& s.status == SessionStatus::Spawning
    &&& !s.reader_live
    &&& s.dimensions == requested_size(op.request)
}

/// A session that is being torn down: for a kill, for a reported exit, for a
/// spawn that replaces it, or for a spawn that failed half-way.
pub open spec fn tearing_down(op: OperationView, s: Session) -> bool {
    &&& s == retiring(s)
    &&& match op.request {
        RequestView::Spawn { .. } => !(op.failure matches Some(PtyErrorView::NoActiveSession)),
        RequestView::Kill => op.failure is None,
        RequestView::ChildExited => op.failure is None,
        _ => false,
    }
}

/// An operation is consistent when its step fits its request and what it
/// holds of the session.
pub open spec fn operation_wf(op: OperationView) -> bool {
    match op.session {
        None => op.step == Step::OpenPty && op.request is Spawn && op.failure is None,
        Some(s) => match op.step {
            Step::SignalKill => tearing_down(op, s) && s.child_alive,
            Step::CollectExit => tearing_down(op, s) && s.child_alive,
            Step::RetireReader => tearing_down(op, s) && !s.child_alive && s.reader_live,
            Step::ReleaseHandles => tearing_down(op, s) && !s.child_alive && !s.reader_live,
            Step::OpenPty => false,
            Step::SpawnShell => building(op, s) && !s.child_alive,
            Step::WriteInitial => building(op, s) && s.child_alive && has_initial_command(
                op.request,
            ),
            Step::StartReader => building(op, s) && s.child_alive,
            Step::Forward => slot_wf(op.session) && op.request is Write && op.failure is None,
            Step::ApplySize => slot_wf(op.session) && op.request is Resize && op.failure is None,
        },
    }
}

pub open spec fn progress_wf(p: ProgressView) -> bool {
    match p {
        ProgressView::Pending(op) => operation_wf(op),
        ProgressView::Done(slot, _) => slot_wf(slot),
    }
}

/// The operation that tears `s` down on behalf of `request`.
pub open spec fn teardown(s: Session, request: RequestView) -> ProgressView {
    ProgressView::Pending(
        OperationView { session: Some(retiring(s)), request, step: teardown_step(s), failure: None },
    )
}

/// What a request does to a manager at rest.
///
/// With no session, a spawn starts by opening the pseudo-terminal, a write and
/// a resize fail at once, and a kill succeeds at once. With a session, a spawn
/// and a kill begin to tear it down, a reported exit gives up what is left of
/// it, and a write and a resize are handed to the host.
pub open spec fn begin(slot: Option<Session>, request: RequestView) -> ProgressView {
    match slot {
        None => match request {
            RequestView::Spawn { .. } => ProgressView::Pending(
                OperationView { session: None, request, step: Step::OpenPty, failure: None },
            ),
            RequestView::Write(_) => ProgressView::Done(None, Err(PtyErrorView::NoActiveSession)),
            RequestView::Resize { .. } => ProgressView::Done(
                None,
                Err(PtyErrorView::NoActiveSession),
            ),
            RequestView::Kill => ProgressView::Done(None, Ok(())),
            RequestView::ChildExited => ProgressView::Done(None, Ok(())),
        },
        Some(s) => match request {
            RequestView::Spawn { .. } => teardown(s, request),
            RequestView::Kill => teardown(s, request),
            RequestView::ChildExited => teardown(reaped(s), request),
            RequestView::Write(_) => ProgressView::Pending(
                OperationView { session: slot, request, step: Step::Forward, failure: None },
            ),
            RequestView::Resize { .. } => ProgressView::Pending(
                OperationView { session: slot, request, step: Step::ApplySize, failure: None },
            ),
        },
    }
}

/// The action that an operation asks of the host.
pub open spec fn action_of(op: OperationView) -> ActionView {
    match op.step {
        Step::SignalKill => ActionView::SignalKill,
        Step::CollectExit => ActionView::CollectExit,
        Step::RetireReader => ActionView::RetireReader,
        Step::ReleaseHandles => ActionView::ReleaseHandles,
        Step::OpenPty => ActionView::OpenPty {
            rows: requested_size(op.request).rows,
            cols: requested_size(op.request).cols,
        },
        Step::SpawnShell => ActionView::SpawnShell { shell_path: requested_shell(op.request) },
        Step::WriteInitial => ActionView::Write(requested_text(op.request)),
        Step::StartReader => ActionView::StartReader,
        Step::Forward => ActionView::Write(requested_text(op.request)),
        Step::ApplySize => ActionView::ApplySize {
            rows: requested_size(op.request).rows,
            cols: requested_size(op.request).cols,
        },
    }
}

/// Teardown of `s`, which `op` holds, goes on with the step that `s` needs.
pub open spec fn continue_teardown(op: OperationView, s: Session) -> ProgressView {
    ProgressView::Pending(OperationView { session: Some(s), step: teardown_step(s), ..op })
}

/// A spawn that failed after the pseudo-terminal was there undoes what it
/// built, and reports `e` when that is done.
pub open spec fn abandon(op: OperationView, s: Session, e: PtyErrorView) -> ProgressView {
    ProgressView::Pending(
        OperationView {
            session: Some(retiring(s)),
            step: teardown_step(s),
            failure: Some(e),
            ..op
        },
    )
}

/// What follows once nothing of a session is left: the failure, where the
/// teardown was for one; the new pseudo-terminal, where a spawn has made room
/// for it; success otherwise.
pub open spec fn after_release(op: OperationView) -> ProgressView {
    match op.failure {
        Some(e) => ProgressView::Done(None, Err(e)),
        None => if op.request is Spawn {
            ProgressView::Pending(OperationView { session: None, step: Step::OpenPty, ..op })
        } else {
            ProgressView::Done(None, Ok(()))
        },
    }
}

/// What the outcome of its action does to a valid operation.
///
/// Teardown goes on whatever the host reports: a shell that could not be
/// signalled or waited for is given up all the same, and the handles are
/// released in every case. Building a session stops at the first failure,
/// undoes what was built, and reports the failure when nothing is left. An
/// operation that is not valid stays as it is.
pub open spec fn advance(op: OperationView, outcome: OutcomeView) -> ProgressView {
    match (op.step, op.session) {
        (Step::OpenPty, None) => match outcome {
            OutcomeView::Completed => ProgressView::Pending(
                OperationView {
                    session: Some(opened(requested_size(op.request))),
                    step: Step::SpawnShell,
                    ..op
                },
            ),
            OutcomeView::Failed(m) => ProgressView::Done(
                None,
                Err(PtyErrorView::PtyAllocationFailed(m)),
            ),
        },
        (Step::SpawnShell, Some(s)) => match outcome {
            OutcomeView::Completed => ProgressView::Pending(
                OperationView {
                    session: Some(Session { child_alive: true, ..s }),
                    step: if has_initial_command(op.request) {
                        Step::WriteInitial
                    } else {
                        Step::StartReader
                    },
                    ..op
                },
            ),
            OutcomeView::Failed(m) => abandon(op, s, PtyErrorView::SpawnFailed(m)),
        },
        (Step::WriteInitial, Some(s)) => match outcome {
            OutcomeView::Completed => ProgressView::Pending(
                OperationView { step: Step::StartReader, ..op },
            ),
            OutcomeView::Failed(m) => abandon(op, s, PtyErrorView::IoError(m)),
        },
        (Step::StartReader, Some(s)) => match outcome {
            OutcomeView::Completed => ProgressView::Done(
                Some(Session { status: SessionStatus::Running, reader_live: true, ..s }),
                Ok(()),
            ),
            OutcomeView::Failed(m) => abandon(op, s, PtyErrorView::IoError(m)),
        },
        (Step::SignalKill, Some(s)) => ProgressView::Pending(
            OperationView { step: Step::CollectExit, ..op },
        ),
        (Step::CollectExit, Some(s)) => continue_teardown(op, reaped(s)),
        (Step::RetireReader, Some(s)) => continue_teardown(op, Session { reader_live: false, ..s }),
        (Step::ReleaseHandles, Some(s)) => after_release(op),
        (Step::Forward, Some(s)) => match outcome {
            OutcomeView::Completed => ProgressView::Done(Some(s), Ok(())),
            OutcomeView::Failed(m) => ProgressView::Done(Some(s), Err(PtyErrorView::IoError(m))),
        },
        (Step::ApplySize, Some(s)) => match outcome {
            OutcomeView::Completed => ProgressView::Done(
                Some(Session { dimensions: requested_size(op.request), ..s }),
                Ok(()),
            ),
            OutcomeView::Failed(m) => ProgressView::Done(Some(s), Err(PtyErrorView::IoError(m))),
        },
        _ => ProgressView::Pending(op),
    }
}

fn retire(s: Session) -> (r: Session)
    ensures
        r == retiring(s),
{
    let status = if s.child_alive {
        SessionStatus::Terminating
    } else {
        SessionStatus::Terminated
    };
    Session { status, ..s }
}

fn reap(s: Session) -> (r: Session)
    ensures
        r == reaped(s),
{
    Session { status: SessionStatus::Terminated, child_alive: false, ..s }
}

fn next_teardown(s: Session) -> (step: Step)
    ensures
        step == teardown_step(s),
{
    if s.child_alive {
        Step::SignalKill
    } else if s.reader_live {
        Step::RetireReader
    } else {
        Step::ReleaseHandles
    }
}

fn size_of(request: &Request) -> (size: Dimensions)
    ensures
        size == requested_size(request@),
{
    match request {
        Request::Spawn { rows, cols, .. } => Dimensions { rows: *rows, cols: *cols },
        Request::Resize { rows, cols } => Dimensions { rows: *rows, cols: *cols },
        _ => Dimensions { rows: 0, cols: 0 },
    }
}

fn text_of(request: &Request) -> (text: String)
    ensures
        text@ == requested_text(request@),
{
    match request {
        Request::Write(data) => data.clone(),
        Request::Spawn { initial_command: Some(command), .. } => {
            let mut text = command.clone();
            text.push('\n');
            text
        },
        _ => String::new(),
    }
}

fn shell_of(request: &Request) -> (shell_path: String)
    ensures
        shell_path@ == requested_shell(request@),
{
    match request {
        Request::Spawn { shell_path, .. } => shell_path.clone(),
        _ => String::new(),
    }
}

fn asks_initial_command(request: &Request) -> (yes: bool)
    ensures
        yes == has_initial_command(request@),
{
    match request {
        Request::Spawn { initial_command: Some(_), .. } => true,
        _ => false,
    }
}

impl SessionManager {
    /// Validity of a manager at rest: what it holds, if anything, is running.
    pub open spec fn wf(&self) -> bool {
        slot_wf(self@)
    }

    /// A manager that holds no session.
    pub fn new() -> (m: SessionManager)
        ensures
            m@ is None,
            m.wf(),
    {
        SessionManager { session: None }
    }

    /// `Running` while a running session is held, `Idle` otherwise.
    pub fn status(&self) -> (s: ManagerStatus)
        ensures
            s == status_of(self@),
    {
        match self.session {
            Some(s) => match s.status {
                SessionStatus::Running => ManagerStatus::Running,
                _ => ManagerStatus::Idle,
            },
            None => ManagerStatus::Idle,
        }
    }

    /// The session held, if any.
    pub fn session(&self) -> (s: Option<Session>)
        ensures
            s == self@,
    {
        self.session
    }

    /// Starts serving `request`.
    pub fn serve(self, request: Request) -> (p: Progress)
        requires
            self.wf(),
        ensures
            p@ == begin(self@, request@),
            progress_wf(p@),
    {
        match self.session {
            None => match request {
                Request::Spawn { .. } => Progress::Pending(
                    Operation { session: None, request, step: Step::OpenPty, failure: None },
                ),
                Request::Write(_) => Progress::Done(self, Err(PtyError::NoActiveSession)),
                Request::Resize { .. } => Progress::Done(self, Err(PtyError::NoActiveSession)),
                Request::Kill => Progress::Done(self, Ok(())),
                Request::ChildExited => Progress::Done(self, Ok(())),
            },
            Some(s) => match request {
                Request::Spawn { .. } => Progress::Pending(
                    Operation {
                        session: Some(retire(s)),
                        request,
                        step: next_teardown(s),
                        failure: None,
                    },
                ),
                Request::Kill => Progress::Pending(
                    Operation {
                        session: Some(retire(s)),
                        request,
                        step: next_teardown(s),
                        failure: None,
                    },
                ),
                Request::ChildExited => Progress::Pending(
                    Operation {
                        session: Some(retire(reap(s))),
                        request,
                        step: next_teardown(reap(s)),
                        failure: None,
                    },
                ),
                Request::Write(_) => Progress::Pending(
                    Operation { session: Some(s), request, step: Step::Forward, failure: None },
                ),
                Request::Resize { .. } => Progress::Pending(
                    Operation { session: Some(s), request, step: Step::ApplySize, failure: None },
                ),
            },
        }
    }

    /// Replaces whatever session there is by a new shell, the one at
    /// `shell_path`, on a pseudo-terminal of `rows` by `cols`, and feeds it
    /// `initial_command` and a newline before any of its output is read.
    ///
    /// A session that is there is torn down first. With none there, the first
    /// thing asked of the host is the pseudo-terminal.
    pub fn spawn(
        self,
        rows: u16,
        cols: u16,
        initial_command: Option<String>,
        shell_path: String,
    ) -> (p: Progress)
        requires
            self.wf(),
        ensures
            p@ == begin(
                self@,
                RequestView::Spawn {
                    rows,
                    cols,
                    initial_command: initial_command.deep_view(),
                    shell_path: shell_path@,
                },
            ),
            progress_wf(p@),
            p@ is Pending,
            self@ is None ==> action_of(p@->Pending_0) == (ActionView::OpenPty { rows, cols }),
            self@ is Some ==> action_of(p@->Pending_0) == ActionView::SignalKill,
    {
        self.serve(Request::Spawn { rows, cols, initial_command, shell_path })
    }

    /// Forwards `data` to the shell as it is. Without a session this fails
    /// with `NoActiveSession` at once.
    pub fn write(self, data: String) -> (p: Progress)
        requires
            self.wf(),
        ensures
            p@ == begin(self@, RequestView::Write(data@)),
            progress_wf(p@),
            self@ is None ==> p@ == ProgressView::Done(None, Err(PtyErrorView::NoActiveSession)),
            self@ is Some ==> p@ is Pending && p@->Pending_0.session == self@ && action_of(
                p@->Pending_0,
            ) == ActionView::Write(data@),
    {
        self.serve(Request::Write(data))
    }

    /// Sets the window size of the pseudo-terminal. Without a session this
    /// fails with `NoActiveSession` at once.
    pub fn resize(self, rows: u16, cols: u16) -> (p: Progress)
        requires
            self.wf(),
        ensures
            p@ == begin(self@, RequestView::Resize { rows, cols }),
            progress_wf(p@),
            self@ is None ==> p@ == ProgressView::Done(None, Err(PtyErrorView::NoActiveSession)),
            self@ is Some ==> p@ is Pending && p@->Pending_0.session == self@ && action_of(
                p@->Pending_0,
            ) == (ActionView::ApplySize { rows, cols }),
    {
        self.serve(Request::Resize { rows, cols })
    }

    /// Ends the session, if there is one. Without a session this succeeds at
    /// once and changes nothing.
    pub fn kill(self) -> (p: Progress)
        requires
            self.wf(),
        ensures
            p@ == begin(self@, RequestView::Kill),
            progress_wf(p@),
            self@ is None ==> p@ == ProgressView::Done(None, Ok(())),
            self@ is Some ==> p@ is Pending && action_of(p@->Pending_0) == ActionView::SignalKill,
    {
        self.serve(Request::Kill)
    }

    /// Takes note that the reader loop has reaped the shell, and gives up what
    /// is left of the session: the reader loop is retired and the handles are
    /// released.
    pub fn child_exited(self) -> (p: Progress)
        requires
            self.wf(),
        ensures
            p@ == begin(self@, RequestView::ChildExited),
            progress_wf(p@),
            self@ is None ==> p@ == ProgressView::Done(None, Ok(())),
            self@ is Some ==> p@ is Pending && action_of(p@->Pending_0)
                == ActionView::RetireReader,
    {
        self.serve(Request::ChildExited)
    }
}

impl Operation {
    /// Validity of an operation under way.
    pub open spec fn wf(&self) -> bool {
        operation_wf(self@)
    }

    /// The session as the operation holds it.
    pub fn session(&self) -> (s: Option<Session>)
        ensures
            s == self@.session,
    {
        self.session
    }

    /// The step that is waiting for its outcome.
    pub fn step(&self) -> (s: Step)
        ensures
            s == self@.step,
    {
        self.step
    }

    /// What the host is to do now.
    pub fn action(&self) -> (a: Action)
        ensures
            a@ == action_of(self@),
    {
        match self.step {
            Step::SignalKill => Action::SignalKill,
            Step::CollectExit => Action::CollectExit,
            Step::RetireReader => Action::RetireReader,
            Step::ReleaseHandles => Action::ReleaseHandles,
            Step::OpenPty => {
                let size = size_of(&self.request);
                Action::OpenPty { rows: size.rows, cols: size.cols }
            },
            Step::SpawnShell => Action::SpawnShell { shell_path: shell_of(&self.request) },
            Step::WriteInitial => Action::Write(text_of(&self.request)),
            Step::StartReader => Action::StartReader,
            Step::Forward => Action::Write(text_of(&self.request)),
            Step::ApplySize => {
                let size = size_of(&self.request);
                Action::ApplySize { rows: size.rows, cols: size.cols }
            },
        }
    }

    /// Takes the outcome of the action and says what comes next.
    pub fn advance(self, outcome: Outcome) -> (p: Progress)
        requires
            self.wf(),
        ensures
            p@ == advance(self@, outcome@),
            progress_wf(p@),
    {
        let Operation { session, request, step, failure } = self;
        match session {
            None => match outcome {
                Outcome::Completed => Progress::Pending(
                    Operation {
                        session: Some(
                            Session {
                                dimensions: size_of(&request),
                                status: SessionStatus::Spawning,
                                child_alive: false,
                                reader_live: false,
                            },
                        ),
                        request,
                        step: Step::SpawnShell,
                        failure,
                    },
                ),
                Outcome::Failed(m) => Progress::Done(
                    SessionManager { session: None },
                    Err(PtyError::PtyAllocationFailed(m)),
                ),
            },
            Some(s) => match step {
                Step::SignalKill => Progress::Pending(
                    Operation { session, request, step: Step::CollectExit, failure },
                ),
                Step::CollectExit => {
                    let s = reap(s);
                    Progress::Pending(
                        Operation { session: Some(s), request, step: next_teardown(s), failure },
                    )
                },
                Step::RetireReader => {
                    let s = Session { reader_live: false, ..s };
                    Progress::Pending(
                        Operation { session: Some(s), request, step: next_teardown(s), failure },
                    )
                },
                Step::ReleaseHandles => match failure {
                    Some(e) => Progress::Done(SessionManager { session: None }, Err(e)),
                    None => match request {
                        Request::Spawn { .. } => Progress::Pending(
                            Operation {
                                session: None,
                                request,
                                step: Step::OpenPty,
                                failure: None,
                            },
                        ),
                        _ => Progress::Done(SessionManager { session: None }, Ok(())),
                    },
                },
                Step::OpenPty => Progress::Pending(Operation { session, request, step, failure }),
                Step::SpawnShell => match outcome {
                    Outcome::Completed => {
                        let next = if asks_initial_command(&request) {
                            Step::WriteInitial
                        } else {
                            Step::StartReader
                        };
                        Progress::Pending(
                            Operation {
                                session: Some(Session { child_alive: true, ..s }),
                                request,
                                step: next,
                                failure,
                            },
                        )
                    },
                    Outcome::Failed(m) => Progress::Pending(
                        Operation {
                            session: Some(retire(s)),
                            request,
                            step: next_teardown(s),
                            failure: Some(PtyError::SpawnFailed(m)),
                        },
                    ),
                },
                Step::WriteInitial => match outcome {
                    Outcome::Completed => Progress::Pending(
                        Operation { session, request, step: Step::StartReader, failure },
                    ),
                    Outcome::Failed(m) => Progress::Pending(
                        Operation {
                            session: Some(retire(s)),
                            request,
                            step: next_teardown(s),
                            failure: Some(PtyError::IoError(m)),
                        },
                    ),
                },
                Step::StartReader => match outcome {
                    Outcome::Completed => Progress::Done(
                        SessionManager {
                            session: Some(
                                Session {
                                    status: SessionStatus::Running,
                                    reader_live: true,
                                    ..s
                                },
                            ),
                        },
                        Ok(()),
                    ),
                    Outcome::Failed(m) => Progress::Pending(
                        Operation {
                            session: Some(retire(s)),
                            request,
                            step: next_teardown(s),
                            failure: Some(PtyError::IoError(m)),
                        },
                    ),
                },
                Step::Forward => match outcome {
                    Outcome::Completed => Progress::Done(SessionManager { session }, Ok(())),
                    Outcome::Failed(m) => Progress::Done(
                        SessionManager { session },
                        Err(PtyError::IoError(m)),
                    ),
                },
                Step::ApplySize => match outcome {
                    Outcome::Completed => Progress::Done(
                        SessionManager {
                            session: Some(Session { dimensions: size_of(&request), ..s }),
                        },
                        Ok(()),
                    ),
                    Outcome::Failed(m) => Progress::Done(
                        SessionManager { session },
                        Err(PtyError::IoError(m)),
                    ),
                },
            },
        }
    }
}

} // verus!
