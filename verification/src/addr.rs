//! Handles for sending to one actor.

use vstd::prelude::*;
use vstd::std_specs::cmp::{PartialEqSpec, PartialEqSpecImpl};
use crate::bindings::{
    clone_bounded,
    clone_unbounded,
    hash_bytes,
    is_random_id,
    random_id,
    send_unbounded,
};
use tokio::sync::mpsc::{Sender, UnboundedSender};

verus! {

/// The target of a send is gone: its mailbox takes no more messages.
#[derive(Clone, Copy, Debug, PartialEq, Eq, Structural)]
pub struct SendError;

/// What a send comes to: an error exactly when the channel gave the message
/// back instead of taking it.
pub fn send_outcome<T>(sent: Result<(), T>) -> (outcome: Result<(), SendError>)
    ensures
        outcome == match sent {
            Ok(_) => Ok::<(), SendError>(()),
            Err(_) => Err::<(), SendError>(SendError),
        },
{
    match sent {
        Ok(()) => Ok(()),
        Err(_) => Err(SendError),
    }
}

/// The address of one actor: its identity and the sending ends of its two
/// mailboxes. Clones share the identity and lead to the same mailboxes.
#[verifier::reject_recursive_types(M)]
pub struct Addr<M> {
    id: u128,
    mailer: Sender<M>,
    priority_mailer: UnboundedSender<M>,
}

impl<M> Addr<M> {
    /// The identity of the actor that the address leads to.
    pub closed spec fn id(&self) -> u128 {
        self.id
    }

    /// The sending end of the bounded mailbox.
    pub closed spec fn mailer(&self) -> Sender<M> {
        self.mailer
    }

    /// The sending end of the unbounded priority mailbox.
    pub closed spec fn priority_mailer(&self) -> UnboundedSender<M> {
        self.priority_mailer
    }

    /// An address with a fresh random identity around the two senders.
    pub fn new(mailer: Sender<M>, priority_mailer: UnboundedSender<M>) -> (addr: Self)
        ensures
            is_random_id(addr.id()),
            addr.mailer() == mailer,
            addr.priority_mailer() == priority_mailer,
    {
        Addr { id: random_id(), mailer, priority_mailer }
    }

    /// The identity as a number.
    pub fn identity(&self) -> (id: u128)
        ensures
            id == self.id(),
    {
        self.id
    }

    /// The sending end of the bounded mailbox, for a send that may have to
    /// wait for room.
    pub fn bounded_sender(&self) -> (sender: &Sender<M>)
        ensures
            *sender == self.mailer(),
    {
        &self.mailer
    }

    /// Sends `msg` ahead of all ordinary messages. The priority mailbox has
    /// no bound, so this never waits. It fails when the actor's priority
    /// mailbox has been closed; the message is then dropped.
    pub fn send_priority(&self, msg: impl Into<M>) -> (sent: Result<(), SendError>) {
        send_outcome(send_unbounded(&self.priority_mailer, msg.into()))
    }
}

impl<M> Clone for Addr<M> {
    fn clone(&self) -> (copy: Self)
        ensures
            copy.id() == self.id(),
            PartialEqSpec::eq_spec(&copy, self),
    {
        Addr {
            id: self.id,
            mailer: clone_bounded(&self.mailer),
            priority_mailer: clone_unbounded(&self.priority_mailer),
        }
    }
}

impl<M> PartialEq for Addr<M> {
    fn eq(&self, other: &Self) -> (equal: bool) {
        self.id == other.id
    }
}

impl<M> PartialEqSpecImpl for Addr<M> {
    open spec fn obeys_eq_spec() -> bool {
        true
    }

    open spec fn eq_spec(&self, other: &Self) -> bool {
        self.id() == other.id()
    }
}

impl<M> Eq for Addr<M> {

}

/// Addresses are equal exactly when they carry the same identity. So
/// equality is an equivalence, and every clone of an address, and every
/// clone of a clone, is equal to it.
pub proof fn lemma_addresses_equal_by_identity<M>(a: Addr<M>, b: Addr<M>, c: Addr<M>)
    ensures
        PartialEqSpec::eq_spec(&a, &b) <==> a.id() == b.id(),
        PartialEqSpec::eq_spec(&a, &a),
        PartialEqSpec::eq_spec(&a, &b) ==> PartialEqSpec::eq_spec(&b, &a),
        PartialEqSpec::eq_spec(&a, &b) && PartialEqSpec::eq_spec(&b, &c) ==> PartialEqSpec::eq_spec(
            &a,
            &c,
        ),
{
}

impl<M> std::hash::Hash for Addr<M> {
    fn hash<H: std::hash::Hasher>(&self, state: &mut H) {
        hash_bytes(state, "addr:".as_bytes());
        self.id.hash(state)
    }
}

} // verus!
