//! The life of one command invocation: resolve the user's record, run the
//! command, then count it or report its error.

use vstd::prelude::*;
use crate::error::CommandError;
use crate::store::{fresh_user, User};

verus! {

/// Where an invocation stands.
#[derive(PartialEq, Eq, Structural, Clone, Copy, Debug)]
pub enum Phase {
    /// Waiting for the user's record.
    Pending,
    /// The record is there; the command has not begun.
    Resolved,
    /// The command runs.
    Executing,
    /// The command's reply was delivered.
    Completed,
    /// The command failed.
    Failed,
}

/// What happened outside.
#[derive(Debug)]
pub enum Event {
    /// The store found or created the user's record.
    Resolved(User),
    /// The command began.
    Started,
    /// The command ended: delivered its reply, or failed.
    Finished(Result<(), CommandError>),
}

/// What to do next.
#[derive(Debug, PartialEq, Eq)]
pub enum Action {
    /// Find or create the record of this user.
    ResolveUser(u64),
    /// Run the command, with the user's record.
    RunCommand(User),
    /// Add one to this user's command counter.
    CountCommand(u64),
    /// Show this error to the user.
    ReportError(CommandError),
    /// Nothing.
    Idle,
}

/// One invocation of a command by one user.
#[derive(Clone, Copy, Debug, PartialEq, Eq)]
pub struct Invocation {
    pub user_id: u64,
    pub phase: Phase,
}

/// The state and the first action of an invocation by `user_id`.
pub open spec fn started(user_id: u64) -> (Invocation, Action) {
    (Invocation { user_id, phase: Phase::Pending }, Action::ResolveUser(user_id))
}

/// The state after `ev` and the action it calls for. An event that does not
/// fit the phase changes nothing.
pub open spec fn next(inv: Invocation, ev: Event) -> (Invocation, Action) {
    match ev {
        Event::Resolved(u) => if inv.phase == Phase::Pending && u.user_id == inv.user_id {
            (Invocation { phase: Phase::Resolved, ..inv }, Action::RunCommand(u))
        } else {
            (inv, Action::Idle)
        },
        Event::Started => if inv.phase == Phase::Resolved {
            (Invocation { phase: Phase::Executing, ..inv }, Action::Idle)
        } else {
            (inv, Action::Idle)
        },
        Event::Finished(outcome) => if inv.phase == Phase::Executing {
            match outcome {
                Ok(_) => (Invocation { phase: Phase::Completed, ..inv }, Action::CountCommand(inv.user_id)),
                Err(e) => (Invocation { phase: Phase::Failed, ..inv }, Action::ReportError(e)),
            }
        } else {
            (inv, Action::Idle)
        },
    }
}

impl Invocation {
    /// Begins an invocation by `user_id`: its record is resolved first.
    pub fn start(user_id: u64) -> (r: (Invocation, Action))
        ensures
            r == started(user_id),
    {
        (Invocation { user_id, phase: Phase::Pending }, Action::ResolveUser(user_id))
    }

    /// Takes `event` and says what to do next.
    pub fn step(&self, event: Event) -> (r: (Invocation, Action))
        ensures
            r == next(*self, event),
    {
        let same = Invocation { user_id: self.user_id, phase: self.phase };
        match event {
            Event::Resolved(u) => if self.phase == Phase::Pending && u.user_id == self.user_id {
                (Invocation { user_id: self.user_id, phase: Phase::Resolved }, Action::RunCommand(u))
            } else {
                (same, Action::Idle)
            },
            Event::Started => if self.phase == Phase::Resolved {
                (Invocation { user_id: self.user_id, phase: Phase::Executing }, Action::Idle)
            } else {
                (same, Action::Idle)
            },
            Event::Finished(outcome) => if self.phase == Phase::Executing {
                match outcome {
                    Ok(_) => (
                        Invocation { user_id: self.user_id, phase: Phase::Completed },
                        Action::CountCommand(self.user_id),
                    ),
                    Err(e) => (
                        Invocation { user_id: self.user_id, phase: Phase::Failed },
                        Action::ReportError(e),
                    ),
                }
            } else {
                (same, Action::Idle)
            },
        }
    }
}

/// The state after the events, in order, and the actions they called for.
pub open spec fn run(inv: Invocation, events: Seq<Event>) -> (Invocation, Seq<Action>)
    decreases events.len(),
{
    if events.len() == 0 {
        (inv, Seq::empty())
    } else {
        let before = run(inv, events.drop_last());
        let after = next(before.0, events.last());
        (after.0, before.1.push(after.1))
    }
}

/// How many of the actions count a command.
pub open spec fn counts(actions: Seq<Action>) -> nat
    decreases actions.len(),
{
    if actions.len() == 0 {
        0
    } else {
        counts(actions.drop_last()) + if actions.last() is CountCommand {
            1nat
        } else {
            0nat
        }
    }
}

/// The rank of a phase in the order an invocation goes through them.
pub open spec fn rank(p: Phase) -> int {
    match p {
        Phase::Pending => 0,
        Phase::Resolved => 1,
        Phase::Executing => 2,
        _ => 3,
    }
}

/// An invocation moves through its phases in order, one at a time: it
/// reaches `Completed` or `Failed` only from `Executing`, which it reaches
/// only from `Resolved`, which it reaches only from `Pending`.
pub proof fn lemma_phases_in_order(inv: Invocation, ev: Event)
    ensures
        next(inv, ev).0.user_id == inv.user_id,
        next(inv, ev).0.phase == inv.phase || rank(next(inv, ev).0.phase) == rank(inv.phase) + 1,
        next(inv, ev).0.phase != inv.phase ==> rank(inv.phase) < 3,
{
}

/// Whatever happens, an invocation counts its command at most once, and
/// exactly when its command completed; a command that fails, or never
/// delivers its reply, is not counted.
pub proof fn lemma_counted_once_when_completed(user_id: u64, events: Seq<Event>)
    ensures
        counts(run(started(user_id).0, events).1) <= 1,
        counts(run(started(user_id).0, events).1) == 1 <==> run(started(user_id).0, events).0.phase
            == Phase::Completed,
    decreases events.len(),
{
    if events.len() > 0 {
        lemma_counted_once_when_completed(user_id, events.drop_last());
        let before = run(started(user_id).0, events.drop_last());
        let after = next(before.0, events.last());
        assert(before.1.push(after.1).drop_last() =~= before.1);
    }
}

/// Unlinking a user who has no linked account fails with `NotLinked`, and
/// the invocation that ran it ends failed, with that error shown and nothing
/// counted.
pub proof fn lemma_unlink_without_link_not_counted(u: User)
    requires
        u.linked_username is None,
    ensures
        ({
            let events = seq![
                Event::Resolved(u),
                Event::Started,
                Event::Finished(Err(CommandError::NotLinked)),
            ];
            let r = run(started(u.user_id).0, events);
            &&& r.0.phase == Phase::Failed
            &&& r.1.last() == Action::ReportError(CommandError::NotLinked)
            &&& counts(r.1) == 0
        }),
{
    let events = seq![
        Event::Resolved(u),
        Event::Started,
        Event::Finished(Err(CommandError::NotLinked)),
    ];
    let inv = started(u.user_id).0;
    let e1 = events.drop_last().drop_last();
    assert(e1.drop_last() =~= Seq::<Event>::empty());
    assert(run(inv, e1.drop_last()) == (inv, Seq::<Action>::empty()));
    let r0 = run(inv, events.drop_last().drop_last());
    let r1 = run(inv, events.drop_last());
    let r2 = run(inv, events);
    assert(events.drop_last().drop_last().last() == Event::Resolved(u));
    assert(events.drop_last().last() == Event::Started);
    assert(r0.0.phase == Phase::Resolved);
    assert(r1.0.phase == Phase::Executing);
    lemma_counted_once_when_completed(u.user_id, events);
}

} // verus!
