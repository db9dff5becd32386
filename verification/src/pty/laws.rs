//! What holds of the session manager whatever the host reports.
//!
//! The manager cannot see the operating system. What it can promise is stated
//! over the actions it hands out: if the host performs each action it is
//! given, the shells, reader loops and pseudo-terminals that exist are exactly
//! those the manager holds, and it never holds more than one of each.

use vstd::prelude::*;
use crate::pty::manager::{
    action_of, advance, begin, operation_wf, progress_wf, requested_size, slot_wf, status_of,
    OperationView, ProgressView, RequestView, Session, Step,
};
use crate::pty::types::{ActionView, ManagerStatus, OutcomeView, PtyErrorView, SessionStatus};

verus! {

/// Operating-system resources: open pseudo-terminals, shells whose exit status
/// has not been collected, reader loops that have not been retired.
pub struct Resources {
    pub ptys: int,
    pub children: int,
    pub readers: int,
}

pub open spec fn nothing() -> Resources {
    Resources { ptys: 0, children: 0, readers: 0 }
}

/// What a session stands for in resources.
pub open spec fn held(slot: Option<Session>) -> Resources {
    match slot {
        None => nothing(),
        Some(s) => Resources {
            ptys: 1,
            children: if s.child_alive {
                1
            } else {
                0
            },
            readers: if s.reader_live {
                1
            } else {
                0
            },
        },
    }
}

pub open spec fn held_by(p: ProgressView) -> Resources {
    match p {
        ProgressView::Pending(op) => held(op.session),
        ProgressView::Done(slot, _) => held(slot),
    }
}

/// What performing `action` does to the resources that exist, given how it
/// went. Teardown actions count as done even when the host reports a failure:
/// nothing more can be done for a shell that cannot be waited for.
pub open spec fn effect(r: Resources, action: ActionView, outcome: OutcomeView) -> Resources {
    match action {
        ActionView::OpenPty { .. } => if outcome is Completed {
            Resources { ptys: r.ptys + 1, ..r }
        } else {
            r
        },
        ActionView::SpawnShell { .. } => if outcome is Completed {
            Resources { children: r.children + 1, ..r }
        } else {
            r
        },
        ActionView::StartReader => if outcome is Completed {
            Resources { readers: r.readers + 1, ..r }
        } else {
            r
        },
        ActionView::CollectExit => Resources { children: r.children - 1, ..r },
        ActionView::RetireReader => Resources { readers: r.readers - 1, ..r },
        ActionView::ReleaseHandles => Resources { ptys: r.ptys - 1, ..r },
        ActionView::SignalKill => r,
        ActionView::Write(_) => r,
        ActionView::ApplySize { .. } => r,
    }
}

/// What a request by itself tells of the resources: a reported exit means
/// that the reader loop has collected the exit status of the shell.
pub open spec fn news(r: Resources, request: RequestView) -> Resources {
    match request {
        RequestView::ChildExited => Resources { children: 0, ..r },
        _ => r,
    }
}

/// One thing that happens to the manager: a request while it is at rest, or
/// the outcome of the action it asked for.
pub enum Input {
    Request(RequestView),
    Outcome(OutcomeView),
}

/// The manager after `input`. A request cannot reach a manager that is owned
/// by an operation, nor an outcome one at rest: such an input changes nothing.
pub open spec fn apply(p: ProgressView, input: Input) -> ProgressView {
    match (p, input) {
        (ProgressView::Done(slot, _), Input::Request(request)) => begin(slot, request),
        (ProgressView::Pending(op), Input::Outcome(outcome)) => advance(op, outcome),
        _ => p,
    }
}

/// The resources that exist after `input`, when `r` existed before it and the
/// host performs what the manager asks.
pub open spec fn world_apply(r: Resources, p: ProgressView, input: Input) -> Resources {
    match (p, input) {
        (ProgressView::Done(_, _), Input::Request(request)) => news(r, request),
        (ProgressView::Pending(op), Input::Outcome(outcome)) => effect(r, action_of(op), outcome),
        _ => r,
    }
}

/// A manager that has never held a session.
pub open spec fn fresh() -> ProgressView {
    ProgressView::Done(None, Ok(()))
}

/// The manager after a whole history, starting fresh.
pub open spec fn run(history: Seq<Input>) -> ProgressView
    decreases history.len(),
{
    if history.len() == 0 {
        fresh()
    } else {
        apply(run(history.drop_last()), history.last())
    }
}

/// The resources that exist after a whole history, starting with none.
pub open spec fn world(history: Seq<Input>) -> Resources
    decreases history.len(),
{
    if history.len() == 0 {
        nothing()
    } else {
        world_apply(world(history.drop_last()), run(history.drop_last()), history.last())
    }
}

/// The manager after the host has answered with `outcomes`, one by one, for
/// as long as the operation was pending.
pub open spec fn settle(p: ProgressView, outcomes: Seq<OutcomeView>) -> ProgressView
    decreases outcomes.len(),
{
    match p {
        ProgressView::Done(_, _) => p,
        ProgressView::Pending(op) => if outcomes.len() == 0 {
            p
        } else {
            settle(advance(op, outcomes.first()), outcomes.drop_first())
        },
    }
}

/// An upper bound on the outcomes that an operation still needs.
pub open spec fn steps_left(op: OperationView) -> nat {
    let rebuild: nat = if op.failure is None && op.request is Spawn {
        7
    } else {
        0
    };
    let reader: nat = match op.session {
        Some(s) if s.reader_live => 1,
        _ => 0,
    };
    match op.step {
        Step::SignalKill => 3 + reader + rebuild,
        Step::CollectExit => 2 + reader + rebuild,
        Step::RetireReader => 2 + rebuild,
        Step::ReleaseHandles => 1 + rebuild,
        Step::OpenPty => 7,
        Step::SpawnShell => 6,
        Step::WriteInitial => 5,
        Step::StartReader => 4,
        Step::Forward => 1,
        Step::ApplySize => 1,
    }
}

/// Every step keeps the books: what the manager holds afterwards is what it
/// held before, changed by what the action it asked for has done.
pub proof fn law_steps_account_for_resources(op: OperationView, outcome: OutcomeView)
    requires
        operation_wf(op),
    ensures
        progress_wf(advance(op, outcome)),
        held_by(advance(op, outcome)) == effect(held(op.session), action_of(op), outcome),
{
}

/// A request leaves a valid manager valid, and changes what it holds only by
/// what the request itself reports.
pub proof fn law_requests_account_for_resources(slot: Option<Session>, request: RequestView)
    requires
        slot_wf(slot),
    ensures
        progress_wf(begin(slot, request)),
        held_by(begin(slot, request)) == news(held(slot), request),
{
}

/// Single active session: after any history whatever, the resources that exist
/// are those the manager holds, so there is at most one pseudo-terminal, one
/// unreaped shell and one reader loop at any instant; and a manager at rest
/// that reports `Idle` holds nothing at all.
pub proof fn law_single_active_session(history: Seq<Input>)
    ensures
        progress_wf(run(history)),
        world(history) == held_by(run(history)),
        0 <= world(history).ptys <= 1,
        0 <= world(history).children <= 1,
        0 <= world(history).readers <= 1,
        run(history) matches ProgressView::Done(slot, _) && status_of(slot) == ManagerStatus::Idle
            ==> world(history) == nothing(),
    decreases history.len(),
{
    if history.len() > 0 {
        let before = history.drop_last();
        law_single_active_session(before);
        match (run(before), history.last()) {
            (ProgressView::Done(slot, _), Input::Request(request)) => {
                law_requests_account_for_resources(slot, request);
            },
            (ProgressView::Pending(op), Input::Outcome(outcome)) => {
                law_steps_account_for_resources(op, outcome);
            },
            _ => {},
        }
    }
}

/// What has to exist for `action` to make sense.
pub open spec fn fits(action: ActionView, r: Resources) -> bool {
    match action {
        ActionView::OpenPty { .. } => r == nothing(),
        ActionView::SpawnShell { .. } => r == (Resources { ptys: 1, children: 0, readers: 0 }),
        ActionView::StartReader => r == (Resources { ptys: 1, children: 1, readers: 0 }),
        ActionView::Write(_) => r.ptys == 1 && r.children == 1,
        ActionView::ApplySize { .. } => r == (Resources { ptys: 1, children: 1, readers: 1 }),
        ActionView::SignalKill => r.ptys == 1 && r.children == 1,
        ActionView::CollectExit => r.ptys == 1 && r.children == 1,
        ActionView::RetireReader => r == (Resources { ptys: 1, children: 0, readers: 1 }),
        ActionView::ReleaseHandles => r == (Resources { ptys: 1, children: 0, readers: 0 }),
    }
}

/// No action reaches for what is not there, and none leaves behind what is.
/// A pseudo-terminal is opened only when nothing exists. A reader loop is
/// started only for a shell that runs, and only when no other reader loop and
/// no other shell is left. Writes and resizes go to handles that are open. A
/// shell is waited for only while it is unreaped, a reader loop retired only
/// while it lives, and the handles are released only after both are gone.
pub proof fn law_actions_fit_the_world(history: Seq<Input>)
    ensures
        run(history) matches ProgressView::Pending(op) ==> fits(action_of(op), world(history)),
{
    law_single_active_session(history);
}

/// A spawn that finds a session running tears it down first, in this order:
/// signal the shell, collect its exit status, retire its reader loop, release
/// its handles. Only then, with nothing left, does it ask for the new
/// pseudo-terminal, whatever the host reported on the way.
pub proof fn law_spawn_replaces_after_teardown(
    s: Session,
    rows: u16,
    cols: u16,
    initial_command: Option<Seq<char>>,
    shell_path: Seq<char>,
    outcomes: Seq<OutcomeView>,
)
    requires
        slot_wf(Some(s)),
        outcomes.len() == 4,
    ensures
        ({
            let request = RequestView::Spawn { rows, cols, initial_command, shell_path };
            let p0 = begin(Some(s), request);
            let p1 = settle(p0, outcomes.take(1));
            let p2 = settle(p0, outcomes.take(2));
            let p3 = settle(p0, outcomes.take(3));
            let p4 = settle(p0, outcomes);
            &&& p0 matches ProgressView::Pending(op) && action_of(op) == ActionView::SignalKill
            &&& p1 matches ProgressView::Pending(op) && action_of(op) == ActionView::CollectExit
            &&& p2 matches ProgressView::Pending(op) && action_of(op) == ActionView::RetireReader
            &&& p3 matches ProgressView::Pending(op) && action_of(op)
                == ActionView::ReleaseHandles
            &&& p4 matches ProgressView::Pending(op) && action_of(op) == (ActionView::OpenPty {
                rows,
                cols,
            }) && held(op.session) == nothing()
        }),
{
    let request = RequestView::Spawn { rows, cols, initial_command, shell_path };
    let p0 = begin(Some(s), request);
    let op0 = p0->Pending_0;
    let q1 = advance(op0, outcomes[0]);
    let q2 = advance(q1->Pending_0, outcomes[1]);
    let q3 = advance(q2->Pending_0, outcomes[2]);
    let q4 = advance(q3->Pending_0, outcomes[3]);
    lemma_settle_unfolds(p0, outcomes.take(1));
    lemma_settle_unfolds(q1, outcomes.take(1).drop_first());
    assert(settle(p0, outcomes.take(1)) == q1);
    lemma_settle_unfolds(p0, outcomes.take(2));
    lemma_settle_unfolds(q1, outcomes.take(2).drop_first());
    lemma_settle_unfolds(q2, outcomes.take(2).drop_first().drop_first());
    assert(settle(p0, outcomes.take(2)) == q2);
    lemma_settle_unfolds(p0, outcomes.take(3));
    lemma_settle_unfolds(q1, outcomes.take(3).drop_first());
    lemma_settle_unfolds(q2, outcomes.take(3).drop_first().drop_first());
    lemma_settle_unfolds(q3, outcomes.take(3).drop_first().drop_first().drop_first());
    assert(settle(p0, outcomes.take(3)) == q3);
    lemma_settle_unfolds(p0, outcomes);
    lemma_settle_unfolds(q1, outcomes.drop_first());
    lemma_settle_unfolds(q2, outcomes.drop_first().drop_first());
    lemma_settle_unfolds(q3, outcomes.drop_first().drop_first().drop_first());
    lemma_settle_unfolds(q4, outcomes.drop_first().drop_first().drop_first().drop_first());
    assert(settle(p0, outcomes) == q4);
}

/// A spawn that meets no session and no failure asks for four things in this
/// order: the pseudo-terminal, the shell it was given, the initial command
/// with its newline, the reader loop. So the command is written before anything is
/// read. Without a command the write is left out.
pub proof fn law_spawn_feeds_before_reading(
    rows: u16,
    cols: u16,
    command: Option<Seq<char>>,
    shell_path: Seq<char>,
)
    ensures
        ({
            let request = RequestView::Spawn { rows, cols, initial_command: command, shell_path };
            let done = OutcomeView::Completed;
            let p0 = begin(None, request);
            let p1 = advance(p0->Pending_0, done);
            let p2 = advance(p1->Pending_0, done);
            let p3 = if command is Some {
                advance(p2->Pending_0, done)
            } else {
                p2
            };
            let p4 = advance(p3->Pending_0, done);
            &&& p0 is Pending && action_of(p0->Pending_0) == (ActionView::OpenPty { rows, cols })
            &&& p1 is Pending && action_of(p1->Pending_0) == (ActionView::SpawnShell { shell_path })
            &&& command matches Some(c) ==> p2 is Pending && action_of(p2->Pending_0)
                == ActionView::Write(c.push('\n'))
            &&& p3 is Pending && action_of(p3->Pending_0) == ActionView::StartReader
            &&& p4 is Done && p4->Done_1 is Ok && status_of(p4->Done_0) == ManagerStatus::Running
        }),
{
}

/// One unfolding of `settle`.
proof fn lemma_settle_unfolds(p: ProgressView, outcomes: Seq<OutcomeView>)
    ensures
        settle(p, outcomes) == match p {
            ProgressView::Done(_, _) => p,
            ProgressView::Pending(op) => if outcomes.len() == 0 {
                p
            } else {
                settle(advance(op, outcomes.first()), outcomes.drop_first())
            },
        },
{
}

/// Every operation ends: each outcome brings a valid operation nearer to its
/// end, and eleven of them end any operation.
pub proof fn law_operations_end(p: ProgressView, outcomes: Seq<OutcomeView>)
    requires
        progress_wf(p),
        p matches ProgressView::Pending(op) ==> steps_left(op) <= outcomes.len(),
    ensures
        settle(p, outcomes) is Done,
        progress_wf(settle(p, outcomes)),
        p matches ProgressView::Pending(op) ==> steps_left(op) <= 11,
    decreases outcomes.len(),
{
    match p {
        ProgressView::Done(_, _) => {},
        ProgressView::Pending(op) => {
            let next = advance(op, outcomes.first());
            law_steps_account_for_resources(op, outcomes.first());
            law_operations_end(next, outcomes.drop_first());
        },
    }
}

/// Idempotent kill: a kill ends with no session held and succeeds, whatever
/// the host reports while the session is torn down; a kill that finds no
/// session succeeds at once and changes nothing. So a second kill in a row
/// succeeds like the first, and the status is `Idle` after either.
pub proof fn law_kill_is_idempotent(slot: Option<Session>, outcomes: Seq<OutcomeView>)
    requires
        slot_wf(slot),
        outcomes.len() >= 4,
    ensures
        settle(begin(slot, RequestView::Kill), outcomes) == ProgressView::Done(None, Ok(())),
        begin(None, RequestView::Kill) == ProgressView::Done(None, Ok(())),
        status_of(None) == ManagerStatus::Idle,
{
    let p0 = begin(slot, RequestView::Kill);
    match slot {
        None => {},
        Some(s) => {
            let q1 = advance(p0->Pending_0, outcomes[0]);
            let q2 = advance(q1->Pending_0, outcomes[1]);
            let q3 = advance(q2->Pending_0, outcomes[2]);
            let q4 = advance(q3->Pending_0, outcomes[3]);
            lemma_settle_unfolds(p0, outcomes);
            lemma_settle_unfolds(q1, outcomes.drop_first());
            lemma_settle_unfolds(q2, outcomes.drop_first().drop_first());
            lemma_settle_unfolds(q3, outcomes.drop_first().drop_first().drop_first());
            lemma_settle_unfolds(
                q4,
                outcomes.drop_first().drop_first().drop_first().drop_first(),
            );
        },
    }
}

/// No active session: with no session held, which is how a manager starts and
/// how every kill leaves it, a write and a resize both fail with
/// `NoActiveSession` at once, and the manager stays as it is.
pub proof fn law_no_session_no_io(data: Seq<char>, rows: u16, cols: u16)
    ensures
        begin(None, RequestView::Write(data)) == ProgressView::Done(
            None,
            Err(PtyErrorView::NoActiveSession),
        ),
        begin(None, RequestView::Resize { rows, cols }) == ProgressView::Done(
            None,
            Err(PtyErrorView::NoActiveSession),
        ),
        run(Seq::empty()) == ProgressView::Done(None, Ok(())),
{
}

/// A resize leaves the session running: the only action it asks for is to set
/// the size, and whether that succeeds or not the session is still held, still
/// running, with its shell and its reader loop untouched. Only the size
/// changes, and only when the host could set it.
pub proof fn law_resize_keeps_session(s: Session, rows: u16, cols: u16, outcome: OutcomeView)
    requires
        slot_wf(Some(s)),
    ensures
        ({
            let p = begin(Some(s), RequestView::Resize { rows, cols });
            let end = advance(p->Pending_0, outcome);
            let after = end->Done_0;
            &&& p is Pending
            &&& action_of(p->Pending_0) == (ActionView::ApplySize { rows, cols })
            &&& end is Done
            &&& after is Some
            &&& status_of(after) == ManagerStatus::Running
            &&& after->0.child_alive && after->0.reader_live
            &&& held(after) == held(Some(s))
            &&& outcome is Completed ==> end->Done_1 is Ok && after->0.dimensions.rows == rows
                && after->0.dimensions.cols == cols
            &&& outcome matches OutcomeView::Failed(m) ==> end->Done_1 == Err::<(), PtyErrorView>(
                PtyErrorView::IoError(m),
            ) && after == Some(s)
        }),
{
}

/// How far a session has come in its life.
pub open spec fn age(status: SessionStatus) -> nat {
    match status {
        SessionStatus::Spawning => 0,
        SessionStatus::Running => 1,
        SessionStatus::Terminating => 2,
        SessionStatus::Terminated => 3,
    }
}

/// A session never goes back in its life: as long as an operation holds it,
/// each step leaves its status where it was or moves it on, and what a spawn
/// or a resize hands back at the end is running.
pub proof fn law_status_moves_on(op: OperationView, outcome: OutcomeView)
    requires
        operation_wf(op),
        op.session is Some,
    ensures
        advance(op, outcome) matches ProgressView::Pending(next) ==> (next.session matches Some(s)
            ==> age(op.session->0.status) <= age(s.status)),
        advance(op, outcome) matches ProgressView::Done(slot, _) ==> (slot matches Some(s)
            ==> s.status == SessionStatus::Running),
{
}

/// What a spawn that is under way ends with, once the host has answered
/// often enough.
pub open spec fn spawn_ends_well(end: ProgressView, size: crate::pty::types::Dimensions) -> bool {
    end matches ProgressView::Done(slot, result) && match result {
        Ok(()) => slot == Some(
            Session {
                dimensions: size,
                status: SessionStatus::Running,
                child_alive: true,
                reader_live: true,
            },
        ),
        Err(e) => slot is None && !(e is NoActiveSession),
    }
}

/// All or nothing: a spawn ends either with a running session of the size
/// asked for, or with a failure and no session at all. That holds from every
/// step of it, whatever the host reports.
pub proof fn law_spawn_is_all_or_nothing(op: OperationView, outcomes: Seq<OutcomeView>)
    requires
        operation_wf(op),
        op.request is Spawn,
        steps_left(op) <= outcomes.len(),
    ensures
        spawn_ends_well(settle(ProgressView::Pending(op), outcomes), requested_size(op.request)),
    decreases outcomes.len(),
{
    let next = advance(op, outcomes.first());
    law_steps_account_for_resources(op, outcomes.first());
    lemma_settle_unfolds(ProgressView::Pending(op), outcomes);
    match next {
        ProgressView::Pending(then) => {
            assert(then.request == op.request);
            assert(steps_left(then) < steps_left(op));
            law_spawn_is_all_or_nothing(then, outcomes.drop_first());
        },
        ProgressView::Done(_, _) => {
            lemma_settle_unfolds(next, outcomes.drop_first());
        },
    }
}

} // verus!
