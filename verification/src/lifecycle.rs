//! The lifecycle of an actor's driving task as a state machine.
//!
//! A task invokes one callback at a time. [`Stage`] names the callback that
//! is due next, and [`Stage::advance`] picks its successor from what was
//! observed when the current callback returned. The task itself only
//! performs the callback and feeds the observation back.

use vstd::prelude::*;
use crate::actor::StoppingResult;

verus! {

/// The callback that the driving task has to invoke next.
#[derive(Clone, Copy, Debug, PartialEq, Eq, Structural)]
pub enum Stage {
    /// Build the actor from its arguments.
    Setup,
    /// Initialise the actor, once.
    Init,
    /// Perform one step of the actor's work.
    Run,
    /// Ask the actor whether to recover or to stop.
    Stopping,
    /// Hand the actor its demoted context, once.
    Stopped,
    /// Nothing is left to invoke: the task returns.
    Done,
}

/// What the driving task sees when a callback has returned.
///
/// Each stage reads only the field that concerns it: `built` after
/// [`Stage::Setup`], `stop_requested` after [`Stage::Init`] and
/// [`Stage::Run`], `verdict` after [`Stage::Stopping`].
#[derive(Clone, Copy, Debug)]
pub struct Observation {
    /// Whether setup produced an actor.
    pub built: bool,
    /// Whether the context's stop flag is set.
    pub stop_requested: bool,
    /// What the stopping callback answered.
    pub verdict: StoppingResult,
}

/// The stage that follows `stage` once its callback returned with `seen`.
pub open spec fn next_stage(stage: Stage, seen: Observation) -> Stage {
    match stage {
        Stage::Setup => if seen.built {
            Stage::Init
        } else {
            Stage::Done
        },
        Stage::Init | Stage::Run => if seen.stop_requested {
            Stage::Stopping
        } else {
            Stage::Run
        },
        Stage::Stopping => match seen.verdict {
            StoppingResult::Recover => Stage::Run,
            StoppingResult::Stop => Stage::Stopped,
        },
        Stage::Stopped | Stage::Done => Stage::Done,
    }
}

/// Whether leaving `stage` with `seen` clears the context's stop flag.
pub open spec fn clears_stop_request(stage: Stage, seen: Observation) -> bool {
    stage == Stage::Stopping && seen.verdict == StoppingResult::Recover
}

impl Stage {
    /// The first stage of a task: setup when the actor is still to be built,
    /// init when a ready-made actor was handed in.
    pub fn first(needs_setup: bool) -> (stage: Stage)
        ensures
            stage == first_stage(needs_setup),
    {
        if needs_setup {
            Stage::Setup
        } else {
            Stage::Init
        }
    }

    /// The stage that follows setup: init if an actor was built, else the
    /// end of the task.
    pub fn after_setup(built: bool) -> (next: Stage)
        ensures
            next == if built {
                Stage::Init
            } else {
                Stage::Done
            },
            forall|seen: Observation|
                seen.built == built ==> next == #[trigger] next_stage(Stage::Setup, seen),
    {
        if built {
            Stage::Init
        } else {
            Stage::Done
        }
    }

    /// Moves on from `self`, whose callback has just returned with `seen`.
    pub fn advance(self, seen: &Observation) -> (next: Stage)
        ensures
            next == next_stage(self, *seen),
    {
        match self {
            Stage::Setup => if seen.built {
                Stage::Init
            } else {
                Stage::Done
            },
            Stage::Init | Stage::Run => if seen.stop_requested {
                Stage::Stopping
            } else {
                Stage::Run
            },
            Stage::Stopping => match seen.verdict {
                StoppingResult::Recover => Stage::Run,
                StoppingResult::Stop => Stage::Stopped,
            },
            Stage::Stopped | Stage::Done => Stage::Done,
        }
    }
}

/// The stage a task starts in.
pub open spec fn first_stage(needs_setup: bool) -> Stage {
    if needs_setup {
        Stage::Setup
    } else {
        Stage::Init
    }
}

/// The stage reached from `start` after the callbacks returned with `seen`,
/// one observation per callback, in order.
pub open spec fn stage_after(start: Stage, seen: Seq<Observation>) -> Stage
    decreases seen.len(),
{
    if seen.len() == 0 {
        start
    } else {
        next_stage(stage_after(start, seen.drop_last()), seen.last())
    }
}

/// How often the callback of `which` was invoked while the task went from
/// `start` through the observations `seen`. The stage reached at the end is
/// not counted: its callback has not been invoked yet.
pub open spec fn invocations(start: Stage, seen: Seq<Observation>, which: Stage) -> nat
    decreases seen.len(),
{
    if seen.len() == 0 {
        0
    } else {
        let before = invocations(start, seen.drop_last(), which);
        if stage_after(start, seen.drop_last()) == which {
            before + 1
        } else {
            before
        }
    }
}

/// Once a task is done it stays done, whatever is fed to it.
pub proof fn lemma_done_is_final(seen: Seq<Observation>)
    ensures
        stage_after(Stage::Done, seen) == Stage::Done,
    decreases seen.len(),
{
    if seen.len() > 0 {
        lemma_done_is_final(seen.drop_last());
    }
}

/// Running a task through `first` and then through `rest` is running it
/// through `rest` from wherever `first` led.
pub proof fn lemma_stage_after_concat(start: Stage, first: Seq<Observation>, rest: Seq<Observation>)
    ensures
        stage_after(start, first + rest) == stage_after(stage_after(start, first), rest),
    decreases rest.len(),
{
    if rest.len() == 0 {
        assert(first + rest =~= first);
    } else {
        lemma_stage_after_concat(start, first, rest.drop_last());
        assert((first + rest).drop_last() =~= first + rest.drop_last());
        assert((first + rest).last() == rest.last());
    }
}

/// The stopped callback ends the task: after it, every later stage is
/// `Done`, so neither `run` nor any other callback is invoked again.
pub proof fn lemma_stopped_is_terminal(start: Stage, seen: Seq<Observation>, at: int)
    requires
        0 <= at < seen.len(),
        stage_after(start, seen.take(at)) == Stage::Stopped,
    ensures
        stage_after(start, seen) == Stage::Done,
{
    let head = seen.take(at);
    let rest = seen.skip(at);
    assert(seen =~= head + rest);
    lemma_stage_after_concat(start, head, rest);
    let one = rest.take(1);
    let others = rest.skip(1);
    assert(rest =~= one + others);
    lemma_stage_after_concat(Stage::Stopped, one, others);
    assert(one.drop_last() =~= Seq::<Observation>::empty());
    assert(stage_after(Stage::Stopped, one) == Stage::Done) by {
        reveal_with_fuel(stage_after, 2);
    }
    lemma_done_is_final(others);
}

/// The stopped callback is invoked at most once, and once it has been
/// invoked the task is done.
pub proof fn lemma_stopped_at_most_once(start: Stage, seen: Seq<Observation>)
    ensures
        invocations(start, seen, Stage::Stopped) <= 1,
        invocations(start, seen, Stage::Stopped) == 1 ==> stage_after(start, seen) == Stage::Done,
    decreases seen.len(),
{
    if seen.len() > 0 {
        lemma_stopped_at_most_once(start, seen.drop_last());
    }
}

/// The stopped callback is due exactly when the stopping callback has just
/// answered `Stop`.
pub proof fn lemma_stopped_follows_stop(start: Stage, seen: Seq<Observation>)
    requires
        seen.len() > 0,
    ensures
        stage_after(start, seen) == Stage::Stopped <==> stage_after(start, seen.drop_last())
            == Stage::Stopping && seen.last().verdict == StoppingResult::Stop,
{
}

/// A `Recover` verdict clears the stop request and makes `run` due again.
pub proof fn lemma_recover_resumes_run(start: Stage, seen: Seq<Observation>)
    requires
        seen.len() > 0,
        stage_after(start, seen.drop_last()) == Stage::Stopping,
        seen.last().verdict == StoppingResult::Recover,
    ensures
        stage_after(start, seen) == Stage::Run,
        clears_stop_request(Stage::Stopping, seen.last()),
{
}

/// While no stop is requested, `run` is due again and again; the first
/// request makes the stopping callback due.
pub proof fn lemma_run_until_stop_requested(start: Stage, seen: Seq<Observation>)
    requires
        seen.len() > 0,
        stage_after(start, seen.drop_last()) == Stage::Run || stage_after(start, seen.drop_last())
            == Stage::Init,
    ensures
        stage_after(start, seen) == if seen.last().stop_requested {
            Stage::Stopping
        } else {
            Stage::Run
        },
{
}

/// When setup declines, the whole lifecycle is skipped: no callback but
/// setup itself is ever invoked.
pub proof fn lemma_declined_setup_skips_lifecycle(seen: Seq<Observation>, which: Stage)
    requires
        seen.len() > 0,
        !seen[0].built,
        which != Stage::Setup,
        which != Stage::Done,
    ensures
        stage_after(Stage::Setup, seen) == Stage::Done,
        invocations(Stage::Setup, seen, which) == 0,
    decreases seen.len(),
{
    if seen.len() == 1 {
        assert(seen.drop_last() =~= Seq::<Observation>::empty());
        reveal_with_fuel(stage_after, 2);
        reveal_with_fuel(invocations, 2);
    } else {
        assert(seen.drop_last()[0] == seen[0]);
        lemma_declined_setup_skips_lifecycle(seen.drop_last(), which);
    }
}

} // verus!
