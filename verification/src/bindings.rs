//! The outside world as this crate sees it: the channel, task and identifier
//! types it builds on, and one contract for each of their operations that
//! the crate calls. Nothing in this file is proved; every contract restates
//! what the named function's source and documentation give.

use vstd::prelude::*;
use crate::polled::Polled;
use futures_util::stream::FuturesUnordered;
use tokio::sync::mpsc::{Receiver, Sender, UnboundedReceiver, UnboundedSender};
use tokio_stream::wrappers::{ReceiverStream, UnboundedReceiverStream};
use tokio::task::JoinHandle;

verus! {

// Channels with many senders and one receiver.

/// `tokio::sync::mpsc::Sender`, the sending end of a bounded channel. Opaque
/// here.
#[verifier::external_type_specification]
#[verifier::external_body]
#[verifier::reject_recursive_types(T)]
pub struct ExSender<T>(Sender<T>);

/// `tokio::sync::mpsc::Receiver`, the receiving end of a bounded channel.
/// Opaque here.
#[verifier::external_type_specification]
#[verifier::external_body]
#[verifier::reject_recursive_types(T)]
pub struct ExReceiver<T>(Receiver<T>);

/// `tokio::sync::mpsc::UnboundedSender`, the sending end of a channel without
/// a bound. Opaque here.
#[verifier::external_type_specification]
#[verifier::external_body]
#[verifier::reject_recursive_types(T)]
pub struct ExUnboundedSender<T>(UnboundedSender<T>);

/// `tokio::sync::mpsc::UnboundedReceiver`, the receiving end of a channel
/// without a bound. Opaque here.
#[verifier::external_type_specification]
#[verifier::external_body]
#[verifier::reject_recursive_types(T)]
pub struct ExUnboundedReceiver<T>(UnboundedReceiver<T>);

/// `tokio_stream::wrappers::ReceiverStream`, a bounded receiver as a stream.
/// Opaque here.
#[verifier::external_type_specification]
#[verifier::external_body]
#[verifier::reject_recursive_types(T)]
pub struct ExReceiverStream<T>(ReceiverStream<T>);

/// `tokio_stream::wrappers::UnboundedReceiverStream`, an unbounded receiver as
/// a stream. Opaque here.
#[verifier::external_type_specification]
#[verifier::external_body]
#[verifier::reject_recursive_types(T)]
pub struct ExUnboundedReceiverStream<T>(UnboundedReceiverStream<T>);

/// The largest bound that a bounded channel can be made with: the limit
/// of the semaphore behind it, `usize::MAX >> 3`.
pub open spec fn max_channel_bound() -> usize {
    usize::MAX / 8
}

/// `tokio::sync::mpsc::channel`: a fresh channel that buffers up to `buffer`
/// messages. It panics on a bound of zero or above the semaphore's limit.
pub assume_specification<T>[ tokio::sync::mpsc::channel::<T> ](buffer: usize) -> (ends: (
    Sender<T>,
    Receiver<T>,
))
    requires
        0 < buffer <= max_channel_bound(),
;

/// `tokio::sync::mpsc::unbounded_channel`: a fresh channel without a bound.
pub assume_specification<T>[ tokio::sync::mpsc::unbounded_channel::<T> ]() -> (ends: (
    UnboundedSender<T>,
    UnboundedReceiver<T>,
));

/// `ReceiverStream::new`: the receiver as a stream.
pub assume_specification<T>[ ReceiverStream::<T>::new ](receiver: Receiver<T>) -> (stream:
    ReceiverStream<T>);

/// `UnboundedReceiverStream::new`: the receiver as a stream.
pub assume_specification<T>[ UnboundedReceiverStream::<T>::new ](
    receiver: UnboundedReceiver<T>,
) -> (stream: UnboundedReceiverStream<T>);

/// `Clone` for `Sender`: another sender into the same channel.
#[verifier::external_body]
pub(crate) fn clone_bounded<T>(sender: &Sender<T>) -> (copy: Sender<T>) {
    sender.clone()
}

/// `Clone` for `UnboundedSender`: another sender into the same channel.
#[verifier::external_body]
pub(crate) fn clone_unbounded<T>(sender: &UnboundedSender<T>) -> (copy: UnboundedSender<T>) {
    sender.clone()
}

/// `UnboundedSender::send`: enqueues `value` without waiting. When the
/// receiving side is closed the value is not enqueued and comes back
/// unchanged. (The process aborts if the channel's message counter would
/// overflow `usize`.)
#[verifier::external_body]
pub(crate) fn send_unbounded<T>(sender: &UnboundedSender<T>, value: T) -> (sent: Result<(), T>)
    ensures
        sent matches Err(back) ==> back == value,
{
    sender.send(value).map_err(|refused| refused.0)
}

/// `Stream::poll_next` of `ReceiverStream`: the oldest buffered message if
/// there is one; `Ended` once the channel is closed and empty; otherwise
/// `Pending`, with the waker of `cx` registered.
#[verifier::external_body]
pub(crate) fn poll_bounded_stream<T>(
    stream: &mut ReceiverStream<T>,
    cx: &mut std::task::Context<'_>,
) -> (polled: Polled<T>) {
    match tokio_stream::Stream::poll_next(std::pin::Pin::new(stream), cx) {
        std::task::Poll::Ready(Some(value)) => Polled::Ready(value),
        std::task::Poll::Ready(None) => Polled::Ended,
        std::task::Poll::Pending => Polled::Pending,
    }
}

/// `Stream::poll_next` of `UnboundedReceiverStream`: the oldest queued
/// message if there is one; `Ended` once the channel is closed and empty;
/// otherwise `Pending`, with the waker of `cx` registered.
#[verifier::external_body]
pub(crate) fn poll_unbounded_stream<T>(
    stream: &mut UnboundedReceiverStream<T>,
    cx: &mut std::task::Context<'_>,
) -> (polled: Polled<T>) {
    match tokio_stream::Stream::poll_next(std::pin::Pin::new(stream), cx) {
        std::task::Poll::Ready(Some(value)) => Polled::Ready(value),
        std::task::Poll::Ready(None) => Polled::Ended,
        std::task::Poll::Pending => Polled::Pending,
    }
}

/// `UnboundedReceiver::poll_recv`: the oldest queued value if there is one;
/// `Ended` once the channel is closed and empty; otherwise `Pending`, with
/// the waker of `cx` registered.
#[verifier::external_body]
pub(crate) fn poll_unbounded<T>(
    receiver: &mut UnboundedReceiver<T>,
    cx: &mut std::task::Context<'_>,
) -> (polled: Polled<T>) {
    match receiver.poll_recv(cx) {
        std::task::Poll::Ready(Some(value)) => Polled::Ready(value),
        std::task::Poll::Ready(None) => Polled::Ended,
        std::task::Poll::Pending => Polled::Pending,
    }
}

/// `ReceiverStream::close`: no further message can be sent; what is
/// buffered can still be received.
pub assume_specification<T>[ ReceiverStream::<T>::close ](stream: &mut ReceiverStream<T>);

/// `UnboundedReceiverStream::close`: no further message can be sent; what
/// is buffered can still be received.
pub assume_specification<T>[ UnboundedReceiverStream::<T>::close ](
    stream: &mut UnboundedReceiverStream<T>,
);

// Channels for a single value.

/// `tokio::sync::oneshot::Sender`, the sending end of a channel for one value.
/// Opaque here.
#[verifier::external_type_specification]
#[verifier::external_body]
#[verifier::reject_recursive_types(T)]
pub struct ExReplySender<T>(tokio::sync::oneshot::Sender<T>);

/// `tokio::sync::oneshot::Receiver`, the receiving end of a channel for one
/// value. Opaque here.
#[verifier::external_type_specification]
#[verifier::external_body]
#[verifier::reject_recursive_types(T)]
pub struct ExReplyReceiver<T>(tokio::sync::oneshot::Receiver<T>);

/// `tokio::sync::oneshot::error::RecvError`, what awaiting a dropped sender
/// gives. Opaque here.
#[verifier::external_type_specification]
#[verifier::external_body]
pub struct ExReplyRecvError(tokio::sync::oneshot::error::RecvError);

/// `tokio::sync::oneshot::channel`: a fresh channel for a single value.
pub assume_specification<T>[ tokio::sync::oneshot::channel::<T> ]() -> (ends: (
    tokio::sync::oneshot::Sender<T>,
    tokio::sync::oneshot::Receiver<T>,
));

/// `oneshot::Sender::is_closed`: whether the receiving end has been closed
/// or dropped, so that a value sent now would reach nobody.
pub assume_specification<T>[ tokio::sync::oneshot::Sender::<T>::is_closed ](
    sender: &tokio::sync::oneshot::Sender<T>,
) -> (closed: bool);

// Tasks and the set that tracks them.

/// `std::task::Context`, which carries the waker of the polling task. Opaque
/// here.
#[verifier::external_type_specification]
#[verifier::external_body]
pub struct ExTaskContext<'a>(std::task::Context<'a>);

/// `tokio::runtime::Handle`, a handle to a running runtime. Opaque here.
#[verifier::external_type_specification]
#[verifier::external_body]
pub struct ExRuntimeHandle(tokio::runtime::Handle);

/// `tokio::task::JoinHandle`, on which the end of a spawned task is awaited.
/// Opaque here.
#[verifier::external_type_specification]
#[verifier::external_body]
#[verifier::reject_recursive_types(T)]
pub struct ExJoinHandle<T>(JoinHandle<T>);

/// `tokio::task::JoinError`, how a task failed to run to its end. Opaque here.
#[verifier::external_type_specification]
#[verifier::external_body]
pub struct ExJoinError(tokio::task::JoinError);

/// `futures_util::stream::FuturesUnordered`, a set of futures that yields them
/// as they finish. Opaque here.
#[verifier::external_type_specification]
#[verifier::external_body]
#[verifier::reject_recursive_types(Fut)]
pub struct ExFuturesUnordered<Fut>(FuturesUnordered<Fut>);

/// `tokio::runtime::Handle::try_current`: the runtime that the caller is
/// running in, or `None` outside of any runtime. It never panics.
#[verifier::external_body]
pub(crate) fn current_runtime() -> (runtime: Option<tokio::runtime::Handle>) {
    tokio::runtime::Handle::try_current().ok()
}

/// `tokio::runtime::Handle::spawn`: starts `task` on `runtime` and returns
/// the handle on which its end can be awaited.
#[verifier::external_body]
pub(crate) fn spawn_on<F>(runtime: &tokio::runtime::Handle, task: F) -> (handle: JoinHandle<()>) where
    F: std::future::Future<Output = ()> + Send + 'static,
 {
    runtime.spawn(task)
}

/// How many tasks a set of join handles holds.
pub uninterp spec fn held_tasks(set: FuturesUnordered<JoinHandle<()>>) -> nat;

/// `FuturesUnordered::new`: a set that holds no task.
#[verifier::external_body]
pub(crate) fn new_task_set() -> (set: FuturesUnordered<JoinHandle<()>>)
    ensures
        held_tasks(set) == 0,
{
    FuturesUnordered::new()
}

/// `FuturesUnordered::len`: the number of tasks in the set.
#[verifier::external_body]
pub(crate) fn count_tasks(set: &FuturesUnordered<JoinHandle<()>>) -> (count: usize)
    ensures
        count == held_tasks(*set),
{
    set.len()
}

/// `FuturesUnordered::push`: adds one task to the set.
#[verifier::external_body]
pub(crate) fn track_task(set: &mut FuturesUnordered<JoinHandle<()>>, handle: JoinHandle<()>)
    ensures
        held_tasks(*final(set)) == held_tasks(*old(set)) + 1,
{
    set.push(handle)
}

/// `FuturesUnordered::poll_next` (through `Stream`): `Ready` when one of the
/// tracked tasks has finished, which removes it from the set; `Ended` only
/// when the set holds no task; `Pending` otherwise, leaving the set as it
/// was. How the finished task ended is not looked at.
#[verifier::external_body]
pub(crate) fn poll_finished(
    set: &mut FuturesUnordered<JoinHandle<()>>,
    cx: &mut std::task::Context<'_>,
) -> (polled: Polled<()>)
    ensures
        match polled {
            Polled::Ready(_) => held_tasks(*old(set)) > 0 && held_tasks(*final(set))
                == held_tasks(*old(set)) - 1,
            Polled::Ended => held_tasks(*old(set)) == 0 && held_tasks(*final(set)) == 0,
            Polled::Pending => held_tasks(*final(set)) == held_tasks(*old(set)),
        },
{
    match futures_util::Stream::poll_next(std::pin::Pin::new(set), cx) {
        std::task::Poll::Ready(Some(_)) => Polled::Ready(()),
        std::task::Poll::Ready(None) => Polled::Ended,
        std::task::Poll::Pending => Polled::Pending,
    }
}

// Identifiers and their hashes.

/// Whether `id` carries the marks of a random identifier: version 4 in
/// bits 76 to 79, variant `10` in bits 62 and 63.
pub open spec fn is_random_id(id: u128) -> bool {
    id & 0x0000_0000_0000_f000_c000_0000_0000_0000 == 0x0000_0000_0000_4000_8000_0000_0000_0000
}

/// `Uuid::new_v4` and `Uuid::as_u128`: a random version 4 identifier as a
/// number. Which one is left to chance; its version and variant bits are
/// fixed.
#[verifier::external_body]
pub(crate) fn random_id() -> (id: u128)
    ensures
        is_random_id(id),
{
    uuid::Uuid::new_v4().as_u128()
}

/// `Hasher::write`: feeds `bytes` into the hasher.
#[verifier::external_body]
pub(crate) fn hash_bytes<H: std::hash::Hasher>(state: &mut H, bytes: &[u8]) {
    state.write(bytes)
}

/// `Hash::hash` of `u128`: feeds the number into the hasher.
pub assume_specification<H>[ <u128 as std::hash::Hash>::hash ](value: &u128, state: &mut H) where
    H: std::hash::Hasher,
;

} // verus!
