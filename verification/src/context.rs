//! An actor's view of its own runtime: its two mailboxes, its address, and
//! the stop flag that its driving task obeys.

use vstd::prelude::*;
use crate::actor::StoppingResult;
use crate::addr::{Addr, SendError};
use crate::agency::Agency;
use crate::bindings::{is_random_id, poll_bounded_stream, poll_unbounded_stream};
use crate::lifecycle::{next_stage, Observation, Stage};
use crate::polled::Polled;
use std::marker::PhantomData;
use tokio_stream::wrappers::{ReceiverStream, UnboundedReceiverStream};

verus! {

/// The phase of a context whose actor is running.
pub struct Running;

/// The phase of a context whose actor has stopped for good.
pub struct Stopped;

/// The phases a context can be in.
pub trait Phase {

}

impl Phase for Running {

}

impl Phase for Stopped {

}

/// How many ordinary messages an actor's mailbox buffers before senders
/// have to wait.
pub const MAILBOX_CAPACITY: usize = 16;

/// What the first look of a read, at the priority mailbox, settles.
#[derive(Debug, PartialEq, Eq)]
pub enum Precedence<M> {
    /// A priority message was waiting: it is the one to deliver.
    Deliver(M),
    /// No priority message was waiting, so the ordinary mailbox decides.
    /// `priority_ended` tells whether the priority mailbox has ended.
    Ordinary { priority_ended: bool },
}

/// The message that one read delivers, from what a poll of each mailbox
/// gives. A waiting priority message always wins. Without one, a waiting
/// ordinary message is delivered. The read has `Ended` only when both
/// mailboxes have; in every other case it is `Pending`.
pub open spec fn message_choice<M>(priority: Polled<M>, ordinary: Polled<M>) -> Polled<M> {
    match priority {
        Polled::Ready(msg) => Polled::Ready(msg),
        _ => match ordinary {
            Polled::Ready(msg) => Polled::Ready(msg),
            Polled::Ended => if priority is Ended {
                Polled::Ended
            } else {
                Polled::Pending
            },
            Polled::Pending => Polled::Pending,
        },
    }
}

/// The poll result that stands for a priority mailbox of which only
/// `priority_ended` is known, and that it had no message waiting.
pub open spec fn idle_priority<M>(priority_ended: bool) -> Polled<M> {
    if priority_ended {
        Polled::Ended
    } else {
        Polled::Pending
    }
}

/// Looks at the poll of the priority mailbox: its message if it has one,
/// else the order to consult the ordinary mailbox.
pub fn prefer_priority<M>(priority: Polled<M>) -> (first: Precedence<M>)
    ensures
        first == match priority {
            Polled::Ready(msg) => Precedence::Deliver(msg),
            Polled::Ended => Precedence::Ordinary { priority_ended: true },
            Polled::Pending => Precedence::Ordinary { priority_ended: false },
        },
{
    match priority {
        Polled::Ready(msg) => Precedence::Deliver(msg),
        Polled::Ended => Precedence::Ordinary { priority_ended: true },
        Polled::Pending => Precedence::Ordinary { priority_ended: false },
    }
}

/// Settles a read whose priority mailbox had nothing waiting, from the poll
/// of the ordinary mailbox.
pub fn settle_ordinary<M>(priority_ended: bool, ordinary: Polled<M>) -> (read: Polled<M>)
    ensures
        read == message_choice(idle_priority(priority_ended), ordinary),
{
    match ordinary {
        Polled::Ready(msg) => Polled::Ready(msg),
        Polled::Ended => if priority_ended {
            Polled::Ended
        } else {
            Polled::Pending
        },
        Polled::Pending => Polled::Pending,
    }
}

/// What one step of draining gives, from whether the priority mailbox was
/// already drained and from what a poll of each mailbox gives: everything
/// left in the priority mailbox comes first, then the ordinary mailbox.
/// The second part tells whether the priority mailbox is drained afterwards.
pub open spec fn drain_choice<M>(
    priority_drained: bool,
    priority: Polled<M>,
    ordinary: Polled<M>,
) -> (Polled<M>, bool) {
    if priority_drained {
        (ordinary, true)
    } else {
        match priority {
            Polled::Ready(msg) => (Polled::Ready(msg), false),
            Polled::Pending => (Polled::Pending, false),
            Polled::Ended => (ordinary, true),
        }
    }
}

/// Looks at the poll of the priority mailbox while draining: what the step
/// gives, or `None` when the priority mailbox has ended and the ordinary
/// mailbox is to be drained.
pub fn drain_priority<M>(priority: Polled<M>) -> (step: Option<Polled<M>>)
    ensures
        step == match priority {
            Polled::Ready(msg) => Some(Polled::Ready(msg)),
            Polled::Pending => Some(Polled::Pending),
            Polled::Ended => None::<Polled<M>>,
        },
        forall|ordinary: Polled<M>|
            #![trigger drain_choice(false, priority, ordinary)]
            match step {
                Some(given) => drain_choice(false, priority, ordinary) == (given, false),
                None => drain_choice(false, priority, ordinary) == (ordinary, true),
            },
{
    match priority {
        Polled::Ready(msg) => Some(Polled::Ready(msg)),
        Polled::Pending => Some(Polled::Pending),
        Polled::Ended => None,
    }
}

/// The runtime of one actor, owned by the task that drives it.
#[verifier::reject_recursive_types(M)]
#[verifier::reject_recursive_types(P)]
pub struct Context<M, P: Phase = Running> {
    mailbox: ReceiverStream<M>,
    priority_mailbox: UnboundedReceiverStream<M>,
    stopped: bool,
    priority_drained: bool,
    addr: Addr<M>,
    /// The agency that hired the actor, for hiring further actors.
    pub agency: Agency,
    _phase: PhantomData<P>,
}

impl<M, P: Phase> Context<M, P> {
    /// Whether a stop has been requested and not been recovered from.
    pub closed spec fn stop_requested(&self) -> bool {
        self.stopped
    }

    /// The identity of the actor, which is that of its address.
    pub closed spec fn id(&self) -> u128 {
        self.addr.id()
    }

    /// Whether draining has reached the end of the priority mailbox.
    pub closed spec fn priority_drained(&self) -> bool {
        self.priority_drained
    }

    /// The agency that the context holds.
    pub closed spec fn hired_by(&self) -> Agency {
        self.agency
    }

    /// Whether `self` differs from `before` in its mailboxes' contents at
    /// most: flags, identity and agency are the same.
    pub open spec fn same_standing<Q: Phase>(&self, before: &Context<M, Q>) -> bool {
        &&& self.stop_requested() == before.stop_requested()
        &&& self.priority_drained() == before.priority_drained()
        &&& self.id() == before.id()
        &&& self.hired_by() == before.hired_by()
    }
}

impl<M> Context<M, Running> {
    /// A running context with two fresh, empty mailboxes, the ordinary one
    /// bounded by [`MAILBOX_CAPACITY`], and a fresh identity.
    pub fn new(agency: Agency) -> (ctx: Self)
        ensures
            !ctx.stop_requested(),
            !ctx.priority_drained(),
            is_random_id(ctx.id()),
            ctx.hired_by() == agency,
    {
        let (priority_mailer, priority_mailbox) = tokio::sync::mpsc::unbounded_channel();
        let (mailer, mailbox) = tokio::sync::mpsc::channel(MAILBOX_CAPACITY);
        Context {
            mailbox: ReceiverStream::new(mailbox),
            priority_mailbox: UnboundedReceiverStream::new(priority_mailbox),
            stopped: false,
            priority_drained: false,
            addr: Addr::new(mailer, priority_mailer),
            agency,
            _phase: PhantomData,
        }
    }

    /// One poll for the next message. The priority mailbox is looked at
    /// first and the ordinary one only if no priority message is waiting.
    /// `Ended` tells that both mailboxes have ended, which cannot happen
    /// while this context, which holds senders to both, is alive.
    pub fn poll_message(&mut self, cx: &mut std::task::Context<'_>) -> (read: Polled<M>)
        ensures
            final(self).same_standing(old(self)),
    {
        match prefer_priority(poll_unbounded_stream(&mut self.priority_mailbox, cx)) {
            Precedence::Deliver(msg) => Polled::Ready(msg),
            Precedence::Ordinary { priority_ended } => settle_ordinary(
                priority_ended,
                poll_bounded_stream(&mut self.mailbox, cx),
            ),
        }
    }

    /// Requests a stop. The callback that is running finishes; the driving
    /// task then asks the actor whether to recover or to stop.
    pub fn stop(&mut self)
        ensures
            final(self).stop_requested(),
            final(self).priority_drained() == old(self).priority_drained(),
            final(self).id() == old(self).id(),
            final(self).hired_by() == old(self).hired_by(),
    {
        self.stopped = true;
    }

    /// A clone of the actor's own address.
    pub fn address(&self) -> (addr: Addr<M>)
        ensures
            addr.id() == self.id(),
    {
        self.addr.clone()
    }

    /// Sends `msg` to this actor itself, ahead of all ordinary messages and
    /// without waiting. It fails only if the priority mailbox were closed,
    /// which does not happen while the context is running.
    pub fn notify(&mut self, msg: impl Into<M>) -> (sent: Result<(), SendError>)
        ensures
            final(self).same_standing(old(self)),
    {
        self.addr.send_priority(msg)
    }

    /// The stage that follows `init` or `run`: `Stopping` if a stop was
    /// requested meanwhile, else `Run`.
    pub fn after_step(&self) -> (next: Stage)
        ensures
            next == if self.stop_requested() {
                Stage::Stopping
            } else {
                Stage::Run
            },
            forall|seen: Observation|
                seen.stop_requested == self.stop_requested() ==> {
                    &&& next == #[trigger] next_stage(Stage::Run, seen)
                    &&& next == next_stage(Stage::Init, seen)
                },
    {
        if self.stopped {
            Stage::Stopping
        } else {
            Stage::Run
        }
    }

    /// The stage that follows the stopping callback. On `Recover` the stop
    /// request is cleared and `Run` is due again; on `Stop` the request
    /// stays and `Stopped` is due.
    pub fn after_stopping(&mut self, verdict: StoppingResult) -> (next: Stage)
        ensures
            next == match verdict {
                StoppingResult::Recover => Stage::Run,
                StoppingResult::Stop => Stage::Stopped,
            },
            forall|seen: Observation|
                seen.verdict == verdict ==> next == #[trigger] next_stage(Stage::Stopping, seen),
            final(self).stop_requested() == (old(self).stop_requested() && verdict
                == StoppingResult::Stop),
            final(self).priority_drained() == old(self).priority_drained(),
            final(self).id() == old(self).id(),
            final(self).hired_by() == old(self).hired_by(),
    {
        match verdict {
            StoppingResult::Recover => {
                self.stopped = false;
                Stage::Run
            },
            StoppingResult::Stop => Stage::Stopped,
        }
    }

    /// Demotes the context, once and for good: both mailboxes are closed to
    /// senders, and what is left in them can only be drained.
    pub fn next_phase(self) -> (demoted: Context<M, Stopped>)
        ensures
            demoted.stop_requested(),
            demoted.priority_drained() == self.priority_drained(),
            demoted.id() == self.id(),
            demoted.hired_by() == self.hired_by(),
    {
        let mut mailbox = self.mailbox;
        let mut priority_mailbox = self.priority_mailbox;
        mailbox.close();
        priority_mailbox.close();
        Context {
            mailbox,
            priority_mailbox,
            stopped: true,
            priority_drained: self.priority_drained,
            addr: self.addr,
            agency: self.agency,
            _phase: PhantomData,
        }
    }
}

impl<M> Context<M, Stopped> {
    /// One step of collecting the messages that were never handled: the next
    /// of them, priority messages first, or `Ended` when none is left. Once
    /// the priority mailbox has ended it is not looked at again.
    pub fn poll_drain(&mut self, cx: &mut std::task::Context<'_>) -> (step: Polled<M>)
        ensures
            old(self).priority_drained() ==> final(self).priority_drained(),
            step is Ended ==> final(self).priority_drained(),
            final(self).stop_requested() == old(self).stop_requested(),
            final(self).id() == old(self).id(),
            final(self).hired_by() == old(self).hired_by(),
    {
        if !self.priority_drained {
            match drain_priority(poll_unbounded_stream(&mut self.priority_mailbox, cx)) {
                Some(step) => {
                    return step;
                },
                None => {
                    self.priority_drained = true;
                },
            }
        }
        poll_bounded_stream(&mut self.mailbox, cx)
    }
}

/// What a poll of a mailbox gives when `waiting` are the messages in it,
/// oldest first, and `closed` tells whether it can get no more.
pub open spec fn poll_of<M>(waiting: Seq<M>, closed: bool) -> Polled<M> {
    if waiting.len() > 0 {
        Polled::Ready(waiting[0])
    } else if closed {
        Polled::Ended
    } else {
        Polled::Pending
    }
}

/// A priority message that is waiting at a read is delivered by that read,
/// whatever the ordinary mailbox holds or reports.
pub proof fn lemma_priority_comes_first<M>(msg: M, ordinary: Polled<M>)
    ensures
        message_choice(Polled::Ready(msg), ordinary) == Polled::Ready(msg),
{
}

/// With priority messages waiting, a read delivers the oldest of them and
/// none of the ordinary messages, however long those have been waiting.
pub proof fn lemma_waiting_priority_is_read_first<M>(
    priority: Seq<M>,
    priority_closed: bool,
    ordinary: Seq<M>,
    ordinary_closed: bool,
)
    requires
        priority.len() > 0,
    ensures
        message_choice(poll_of(priority, priority_closed), poll_of(ordinary, ordinary_closed))
            == Polled::Ready(priority[0]),
{
}

/// Without a priority message waiting, a read delivers the oldest of the
/// ordinary messages.
pub proof fn lemma_ordinary_is_read_in_order<M>(
    priority_closed: bool,
    ordinary: Seq<M>,
    ordinary_closed: bool,
)
    requires
        ordinary.len() > 0,
    ensures
        message_choice(
            poll_of(Seq::<M>::empty(), priority_closed),
            poll_of(ordinary, ordinary_closed),
        ) == Polled::Ready(ordinary[0]),
{
}

/// A read ends only when both mailboxes have ended, and waits while
/// neither has a message and one of them is still open.
pub proof fn lemma_read_ends_with_both_mailboxes<M>(priority: Polled<M>, ordinary: Polled<M>)
    ensures
        message_choice(priority, ordinary) is Ended <==> priority is Ended && ordinary is Ended,
        message_choice(priority, ordinary) is Pending <==> priority !is Ready && ordinary
            !is Ready && !(priority is Ended && ordinary is Ended),
{
}

/// Draining gives every message left in the priority mailbox before the
/// first of the ordinary mailbox, and ends only with the ordinary mailbox,
/// after the priority mailbox has ended.
pub proof fn lemma_drain_gives_priority_first<M>(
    priority_drained: bool,
    priority: Polled<M>,
    ordinary: Polled<M>,
)
    ensures
        !priority_drained && priority is Ready ==> drain_choice(
            priority_drained,
            priority,
            ordinary,
        ) == (priority, false),
        drain_choice(priority_drained, priority, ordinary).0 is Ended ==> ordinary is Ended
            && drain_choice(priority_drained, priority, ordinary).1,
        priority_drained ==> drain_choice(priority_drained, priority, ordinary) == (
            ordinary,
            true,
        ),
{
}

} // verus!
