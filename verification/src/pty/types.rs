//! Plain data shared by the session manager, its operations and the host.

use vstd::prelude::*;

verus! {

/// Window size of a pseudo-terminal, in character cells.
#[derive(Clone, Copy, Debug, PartialEq, Eq, Structural)]
pub struct Dimensions {
    pub rows: u16,
    pub cols: u16,
}

/// Where a session stands in its life.
#[derive(Clone, Copy, Debug, PartialEq, Eq, Structural)]
pub enum SessionStatus {
    /// The pseudo-terminal exists; the shell or the reader loop does not yet.
    Spawning,
    /// Shell and reader loop both exist.
    Running,
    /// Teardown has begun; the shell has not been reaped yet.
    Terminating,
    /// The shell has been reaped; its handles are still to be released.
    Terminated,
}

/// What a status query answers.
#[derive(Clone, Copy, Debug, PartialEq, Eq, Structural)]
pub enum ManagerStatus {
    Idle,
    Running,
}

/// Why an operation of the session manager failed.
#[derive(Debug)]
pub enum PtyError {
    /// The pseudo-terminal could not be allocated.
    PtyAllocationFailed(String),
    /// The shell could not be started.
    SpawnFailed(String),
    /// Nothing is running that could take the request.
    NoActiveSession,
    /// A write or a resize failed against a live handle.
    IoError(String),
}

/// Mathematical form of a [`PtyError`].
pub enum PtyErrorView {
    PtyAllocationFailed(Seq<char>),
    SpawnFailed(Seq<char>),
    NoActiveSession,
    IoError(Seq<char>),
}

impl View for PtyError {
    type V = PtyErrorView;

    open spec fn view(&self) -> PtyErrorView {
        match self {
            PtyError::PtyAllocationFailed(m) => PtyErrorView::PtyAllocationFailed(m@),
            PtyError::SpawnFailed(m) => PtyErrorView::SpawnFailed(m@),
            PtyError::NoActiveSession => PtyErrorView::NoActiveSession,
            PtyError::IoError(m) => PtyErrorView::IoError(m@),
        }
    }
}

/// What is told of a failure: the host's own words where it has reported the
/// failure, and a fixed phrase where nothing was running.
pub open spec fn message_of(e: PtyErrorView) -> Seq<char> {
    match e {
        PtyErrorView::PtyAllocationFailed(m) => m,
        PtyErrorView::SpawnFailed(m) => m,
        PtyErrorView::NoActiveSession => "no active session"@,
        PtyErrorView::IoError(m) => m,
    }
}

impl PtyError {
    /// The failure in words.
    pub fn message(&self) -> (text: String)
        ensures
            text@ == message_of(self@),
    {
        match self {
            PtyError::PtyAllocationFailed(m) => m.clone(),
            PtyError::SpawnFailed(m) => m.clone(),
            PtyError::NoActiveSession => String::from_str("no active session"),
            PtyError::IoError(m) => m.clone(),
        }
    }
}

/// How the host fared with the action it was handed.
#[derive(Debug)]
pub enum Outcome {
    Completed,
    /// The action failed; the text is the host's description of the failure.
    Failed(String),
}

/// Mathematical form of an [`Outcome`].
pub enum OutcomeView {
    Completed,
    Failed(Seq<char>),
}

impl View for Outcome {
    type V = OutcomeView;

    open spec fn view(&self) -> OutcomeView {
        match self {
            Outcome::Completed => OutcomeView::Completed,
            Outcome::Failed(m) => OutcomeView::Failed(m@),
        }
    }
}

/// One thing for the host to do on behalf of the session manager.
#[derive(Debug)]
pub enum Action {
    /// Signal termination to the shell of the session.
    SignalKill,
    /// Block until the shell's exit status has been collected, through the
    /// session's reap latch.
    CollectExit,
    /// Wait for the session's reader loop to finish.
    RetireReader,
    /// Drop the writer and what is held of the pseudo-terminal.
    ReleaseHandles,
    /// Allocate a pseudo-terminal of this size, with the writer and the reader
    /// of its master side.
    OpenPty { rows: u16, cols: u16 },
    /// Start this shell on the slave side, and then let go of the slave side:
    /// for as long as the host holds it open, the master side never sees the
    /// stream end.
    SpawnShell { shell_path: String },
    /// Write this text to the session's writer, as it is.
    Write(String),
    /// Start the reader loop on the master side.
    StartReader,
    /// Set the window size of the pseudo-terminal.
    ApplySize { rows: u16, cols: u16 },
}

/// Mathematical form of an [`Action`].
pub enum ActionView {
    SignalKill,
    CollectExit,
    RetireReader,
    ReleaseHandles,
    OpenPty { rows: u16, cols: u16 },
    SpawnShell { shell_path: Seq<char> },
    Write(Seq<char>),
    StartReader,
    ApplySize { rows: u16, cols: u16 },
}

impl View for Action {
    type V = ActionView;

    open spec fn view(&self) -> ActionView {
        match self {
            Action::SignalKill => ActionView::SignalKill,
            Action::CollectExit => ActionView::CollectExit,
            Action::RetireReader => ActionView::RetireReader,
            Action::ReleaseHandles => ActionView::ReleaseHandles,
            Action::OpenPty { rows, cols } => ActionView::OpenPty { rows: *rows, cols: *cols },
            Action::SpawnShell { shell_path } => ActionView::SpawnShell { shell_path: shell_path@ },
            Action::Write(text) => ActionView::Write(text@),
            Action::StartReader => ActionView::StartReader,
            Action::ApplySize { rows, cols } => ActionView::ApplySize { rows: *rows, cols: *cols },
        }
    }
}

} // verus!
