//! Hiring and supervision: an [`Agency`] starts the tasks that drive actors
//! and registers each with its [`AgencyHandle`], which tracks them until all
//! have finished.

use vstd::prelude::*;
use crate::addr::Addr;
use crate::bindings::{
    clone_unbounded,
    count_tasks,
    current_runtime,
    held_tasks,
    is_random_id,
    new_task_set,
    poll_finished,
    poll_unbounded,
    send_unbounded,
    spawn_on,
    track_task,
};
use crate::context::Context;
use crate::polled::Polled;
use futures_util::stream::FuturesUnordered;
use tokio::sync::mpsc::{UnboundedReceiver, UnboundedSender};
use tokio::task::JoinHandle;

verus! {

/// What one step of waiting for the hired actors did.
#[derive(Clone, Copy, Debug, PartialEq, Eq, Structural)]
pub enum WaitStep {
    /// A newly registered task was accepted into the tracked set.
    Registered,
    /// One tracked task was seen to have finished and left the set.
    Completed,
    /// No registration is waiting and no task is tracked: the wait is over.
    Finished,
    /// Nothing to do for now; the polling task is woken when there is.
    Pending,
    /// The registration channel reported its senders gone, which cannot
    /// happen while the handle holds one itself.
    Disconnected,
}

/// What a step makes of the poll of the registration channel: the step that
/// is then decided, or `None` when the tracked tasks have to be polled.
pub open spec fn step_for_registration<T>(registration: Polled<T>) -> Option<WaitStep> {
    match registration {
        Polled::Ready(_) => Some(WaitStep::Registered),
        Polled::Ended => Some(WaitStep::Disconnected),
        Polled::Pending => None,
    }
}

/// What a step makes of the poll of the tracked tasks.
pub open spec fn step_for_completion<T>(completion: Polled<T>) -> WaitStep {
    match completion {
        Polled::Ready(_) => WaitStep::Completed,
        Polled::Ended => WaitStep::Finished,
        Polled::Pending => WaitStep::Pending,
    }
}

/// The step decided from both polls. Registrations come first: what the
/// tracked tasks would report counts only while no registration is waiting.
pub open spec fn wait_step<T, U>(registration: Polled<T>, completion: Polled<U>) -> WaitStep {
    match step_for_registration(registration) {
        Some(step) => step,
        None => step_for_completion(completion),
    }
}

/// How a step changes the number of tracked tasks, from `before` to `after`.
pub open spec fn step_fits(before: nat, step: WaitStep, after: nat) -> bool {
    match step {
        WaitStep::Registered => after == before + 1,
        WaitStep::Completed => before > 0 && after == before - 1,
        WaitStep::Finished => before == 0 && after == 0,
        WaitStep::Pending | WaitStep::Disconnected => after == before,
    }
}

impl WaitStep {
    /// Decides a step from the poll of the registration channel alone, where
    /// that is possible.
    pub fn for_registration<T>(registration: &Polled<T>) -> (step: Option<WaitStep>)
        ensures
            step == step_for_registration(*registration),
    {
        match registration {
            Polled::Ready(_) => Some(WaitStep::Registered),
            Polled::Ended => Some(WaitStep::Disconnected),
            Polled::Pending => None,
        }
    }

    /// Decides a step from the poll of the tracked tasks, once the
    /// registration channel had nothing waiting.
    pub fn for_completion<T>(completion: &Polled<T>) -> (step: WaitStep)
        ensures
            step == step_for_completion(*completion),
            step == wait_step(Polled::<T>::Pending, *completion),
    {
        match completion {
            Polled::Ready(_) => WaitStep::Completed,
            Polled::Ended => WaitStep::Finished,
            Polled::Pending => WaitStep::Pending,
        }
    }
}

/// Why a task could not be started and registered.
#[derive(Clone, Copy, Debug, PartialEq, Eq, Structural)]
pub enum SpawnError {
    /// The caller is not running inside a task runtime.
    NoRuntime,
    /// The task was started, but the handle that tracks tasks is gone.
    HandleDropped,
}

/// The tracker of every task that its paired [`Agency`] starts.
pub struct AgencyHandle {
    futures: FuturesUnordered<JoinHandle<()>>,
    sender: UnboundedSender<JoinHandle<()>>,
    receiver: UnboundedReceiver<JoinHandle<()>>,
}

impl AgencyHandle {
    /// The number of tasks that are tracked and not yet seen to be finished.
    pub closed spec fn outstanding(&self) -> nat {
        held_tasks(self.futures)
    }

    /// The number of tasks that are tracked and not yet seen to be finished.
    pub fn outstanding_tasks(&self) -> (count: usize)
        ensures
            count == self.outstanding(),
    {
        count_tasks(&self.futures)
    }

    fn new() -> (handle: Self)
        ensures
            handle.outstanding() == 0,
    {
        let (sender, receiver) = tokio::sync::mpsc::unbounded_channel();
        AgencyHandle { futures: new_task_set(), sender, receiver }
    }

    fn spawner(&self) -> Spawner {
        Spawner::new(clone_unbounded(&self.sender))
    }

    /// One step of waiting for every hired actor. A waiting registration is
    /// always taken before the tracked tasks are looked at, so that no hire
    /// is missed; the wait is over only when no registration is waiting and
    /// no task is tracked.
    pub fn poll_wait(&mut self, cx: &mut std::task::Context<'_>) -> (step: WaitStep)
        ensures
            step_fits(old(self).outstanding(), step, final(self).outstanding()),
    {
        let registration = poll_unbounded(&mut self.receiver, cx);
        match WaitStep::for_registration(&registration) {
            Some(step) => {
                if let Polled::Ready(handle) = registration {
                    track_task(&mut self.futures, handle);
                }
                step
            },
            None => {
                let completion = poll_finished(&mut self.futures, cx);
                WaitStep::for_completion(&completion)
            },
        }
    }
}

/// The sending end of the registration channel.
pub(crate) struct Spawner {
    sender: UnboundedSender<JoinHandle<()>>,
}

impl Spawner {
    fn new(sender: UnboundedSender<JoinHandle<()>>) -> (spawner: Self)
        ensures
            spawner.sender == sender,
    {
        Spawner { sender }
    }

    fn duplicate(&self) -> Self {
        Spawner { sender: clone_unbounded(&self.sender) }
    }

    /// Starts `fut` on the runtime the caller is running in and registers
    /// its join handle. Without a runtime the task is dropped unstarted.
    fn spawn<T>(&self, fut: T) -> (done: Result<(), SpawnError>) where
        T: std::future::Future<Output = ()> + Send + 'static,
     {
        match current_runtime() {
            None => Err(SpawnError::NoRuntime),
            Some(runtime) => {
                let handle = spawn_on(&runtime, fut);
                spawn_outcome(send_unbounded(&self.sender, handle))
            },
        }
    }
}

/// What registering a started task comes to: an error exactly when the
/// registration channel gave the join handle back.
pub fn spawn_outcome<T>(registered: Result<(), T>) -> (done: Result<(), SpawnError>)
    ensures
        done == match registered {
            Ok(_) => Ok::<(), SpawnError>(()),
            Err(_) => Err::<(), SpawnError>(SpawnError::HandleDropped),
        },
{
    match registered {
        Ok(()) => Ok(()),
        Err(_) => Err(SpawnError::HandleDropped),
    }
}

/// The capability to start actor tasks that one [`AgencyHandle`] tracks.
pub struct Agency {
    spawner: Spawner,
}

impl Clone for Agency {
    fn clone(&self) -> Self {
        Agency { spawner: self.spawner.duplicate() }
    }
}

impl Agency {
    /// A fresh agency and the handle that tracks what it starts. Nothing is
    /// tracked yet.
    pub fn new() -> (pair: (Self, AgencyHandle))
        ensures
            pair.1.outstanding() == 0,
    {
        let handle = AgencyHandle::new();
        (Agency { spawner: handle.spawner() }, handle)
    }

    /// Hires an actor: makes a fresh running context that holds a clone of
    /// this agency, lets `driver` build from it the task that drives the
    /// actor, starts that task and returns the actor's address. The address
    /// handed out is that of the very context the driver was given. When
    /// the task cannot be started or registered, the context is dropped
    /// with it and the address is not handed out.
    pub fn hire_task<M, D, T>(&self, driver: D) -> (hired: Result<Addr<M>, SpawnError>) where
        D: FnOnce(Context<M>) -> T,
        T: std::future::Future<Output = ()> + Send + 'static,

        requires
            forall|ctx: Context<M>|
                !ctx.stop_requested() && !ctx.priority_drained() && is_random_id(ctx.id())
                    ==> #[trigger] driver.requires((ctx,)),
        ensures
            hired matches Ok(addr) ==> {
                &&& is_random_id(addr.id())
                &&& exists|ctx: Context<M>, task: T|
                    {
                        &&& #[trigger] driver.ensures((ctx,), task)
                        &&& ctx.id() == addr.id()
                        &&& !ctx.stop_requested()
                        &&& !ctx.priority_drained()
                    }
            },
    {
        let ctx = Context::new(self.clone());
        let addr = ctx.address();
        let ghost fresh = ctx;
        let task = driver(ctx);
        let ghost built = task;
        match self.spawn(task) {
            Ok(()) => {
                assert(driver.ensures((fresh,), built) && fresh.id() == addr.id());
                Ok(addr)
            },
            Err(error) => Err(error),
        }
    }

    /// Starts `task` on the current runtime and registers it with the
    /// handle. Fails without a runtime, and when the handle is gone.
    pub fn spawn<T>(&self, task: T) -> (done: Result<(), SpawnError>) where
        T: std::future::Future<Output = ()> + Send + 'static,
     {
        self.spawner.spawn(task)
    }
}

/// How many of `steps` are `which`.
pub open spec fn count_of(steps: Seq<WaitStep>, which: WaitStep) -> nat
    decreases steps.len(),
{
    if steps.len() == 0 {
        0
    } else if steps.last() == which {
        count_of(steps.drop_last(), which) + 1
    } else {
        count_of(steps.drop_last(), which)
    }
}

/// Whether `counts` can be the numbers of outstanding tasks around a run
/// of `steps`: `counts[i]` before step `i`, `counts[i + 1]` after it.
pub open spec fn wait_history(counts: Seq<nat>, steps: Seq<WaitStep>) -> bool {
    &&& counts.len() == steps.len() + 1
    &&& forall|i: int|
        0 <= i < steps.len() ==> step_fits(#[trigger] counts[i], steps[i], counts[i + 1])
}

/// Throughout a wait, the outstanding tasks are exactly those that were
/// registered and have not completed.
pub proof fn lemma_outstanding_is_registered_less_completed(
    counts: Seq<nat>,
    steps: Seq<WaitStep>,
)
    requires
        wait_history(counts, steps),
    ensures
        counts.last() + count_of(steps, WaitStep::Completed) == counts[0] + count_of(
            steps,
            WaitStep::Registered,
        ),
    decreases steps.len(),
{
    if steps.len() > 0 {
        let n = steps.len() as int;
        assert(step_fits(counts[n - 1], steps[n - 1], counts[n]));
        assert(wait_history(counts.drop_last(), steps.drop_last()));
        lemma_outstanding_is_registered_less_completed(counts.drop_last(), steps.drop_last());
    }
}

/// A wait that started with nothing outstanding is over only when every
/// task that was registered in its course, however late, has completed.
pub proof fn lemma_finished_wait_saw_every_task_complete(counts: Seq<nat>, steps: Seq<WaitStep>)
    requires
        wait_history(counts, steps),
        counts[0] == 0,
        steps.len() > 0,
        steps.last() == WaitStep::Finished,
    ensures
        count_of(steps, WaitStep::Registered) == count_of(steps, WaitStep::Completed),
        counts.last() == 0,
{
    let n = steps.len() as int;
    assert(step_fits(counts[n - 1], steps[n - 1], counts[n]));
    lemma_outstanding_is_registered_less_completed(counts, steps);
}

/// A waiting registration is taken whatever the tracked tasks would report:
/// it is never passed over for a completion, nor for the end of the wait.
pub proof fn lemma_registration_comes_first<T, U>(handle: T, completion: Polled<U>)
    ensures
        wait_step(Polled::Ready(handle), completion) == WaitStep::Registered,
{
}

} // verus!
