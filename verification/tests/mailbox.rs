use agency::context::{drain_priority, prefer_priority, settle_ordinary, Precedence};
use agency::{Agency, Context, Polled, SendError, Stage, StoppingResult, MAILBOX_CAPACITY};
use std::task::{Context as TaskContext, Waker};
use tokio::sync::mpsc::error::TrySendError;

fn fresh() -> Context<u32> {
    let (agency, _handle) = Agency::new();
    Context::new(agency)
}

fn read(ctx: &mut Context<u32>) -> Polled<u32> {
    let mut cx = TaskContext::from_waker(Waker::noop());
    ctx.poll_message(&mut cx)
}

#[test]
fn an_empty_mailbox_is_pending() {
    let mut ctx = fresh();
    assert_eq!(read(&mut ctx), Polled::Pending);
}

#[test]
fn a_priority_message_overtakes_earlier_and_later_ordinary_ones() {
    let mut ctx = fresh();
    let addr = ctx.address();
    addr.bounded_sender().try_send(1).unwrap();
    addr.send_priority(9u32).unwrap();
    addr.bounded_sender().try_send(2).unwrap();
    assert_eq!(read(&mut ctx), Polled::Ready(9));
    assert_eq!(read(&mut ctx), Polled::Ready(1));
    assert_eq!(read(&mut ctx), Polled::Ready(2));
    assert_eq!(read(&mut ctx), Polled::Pending);
}

#[test]
fn each_mailbox_is_first_in_first_out() {
    let mut ctx = fresh();
    let addr = ctx.address();
    for n in [10, 11, 12] {
        addr.bounded_sender().try_send(n).unwrap();
    }
    for n in [20u32, 21, 22] {
        addr.send_priority(n).unwrap();
    }
    let mut got = Vec::new();
    while let Polled::Ready(n) = read(&mut ctx) {
        got.push(n);
    }
    assert_eq!(got, vec![20, 21, 22, 10, 11, 12]);
}

#[test]
fn a_priority_message_sent_between_reads_comes_next() {
    let mut ctx = fresh();
    let addr = ctx.address();
    addr.bounded_sender().try_send(1).unwrap();
    addr.bounded_sender().try_send(2).unwrap();
    assert_eq!(read(&mut ctx), Polled::Ready(1));
    addr.send_priority(7u32).unwrap();
    assert_eq!(read(&mut ctx), Polled::Ready(7));
    assert_eq!(read(&mut ctx), Polled::Ready(2));
}

#[test]
fn the_ordinary_mailbox_holds_sixteen_messages() {
    assert_eq!(MAILBOX_CAPACITY, 16);
    let mut ctx = fresh();
    let addr = ctx.address();
    for n in 0..16 {
        addr.bounded_sender().try_send(n).unwrap();
    }
    assert!(matches!(addr.bounded_sender().try_send(16), Err(TrySendError::Full(16))));
    assert_eq!(read(&mut ctx), Polled::Ready(0));
    addr.bounded_sender().try_send(16).unwrap();
    assert!(matches!(addr.bounded_sender().try_send(17), Err(TrySendError::Full(17))));
}

#[test]
fn the_priority_mailbox_has_no_bound() {
    let mut ctx = fresh();
    let addr = ctx.address();
    for n in 0..1000u32 {
        addr.send_priority(n).unwrap();
    }
    for n in 0..1000u32 {
        assert_eq!(read(&mut ctx), Polled::Ready(n));
    }
}

#[test]
fn a_send_to_a_full_mailbox_waits_until_a_message_is_consumed() {
    let runtime = tokio::runtime::Builder::new_current_thread().enable_time().build().unwrap();
    runtime.block_on(async {
        let mut ctx = fresh();
        let addr = ctx.address();
        for n in 0..16 {
            addr.bounded_sender().send(n).await.unwrap();
        }
        let sender = addr.bounded_sender().clone();
        let blocked = tokio::spawn(async move { sender.send(16).await });
        tokio::time::sleep(std::time::Duration::from_millis(50)).await;
        assert!(!blocked.is_finished());
        let first = std::future::poll_fn(|cx| match ctx.poll_message(cx) {
            Polled::Ready(n) => std::task::Poll::Ready(n),
            _ => std::task::Poll::Pending,
        })
        .await;
        assert_eq!(first, 0);
        assert!(blocked.await.unwrap().is_ok());
    });
}

#[test]
fn notify_reaches_the_actor_itself_ahead_of_ordinary_messages() {
    let mut ctx = fresh();
    ctx.address().bounded_sender().try_send(1).unwrap();
    assert_eq!(ctx.notify(5u32), Ok(()));
    assert_eq!(read(&mut ctx), Polled::Ready(5));
    assert_eq!(read(&mut ctx), Polled::Ready(1));
}

#[test]
fn messages_are_converted_into_the_mailbox_type() {
    let (agency, _handle) = Agency::new();
    let mut ctx: Context<u64> = Context::new(agency);
    ctx.address().send_priority(3u32).unwrap();
    ctx.notify(4u8).unwrap();
    let mut cx = TaskContext::from_waker(Waker::noop());
    assert_eq!(ctx.poll_message(&mut cx), Polled::Ready(3u64));
    assert_eq!(ctx.poll_message(&mut cx), Polled::Ready(4u64));
}

#[test]
fn stop_makes_the_stopping_callback_due() {
    let mut ctx = fresh();
    assert_eq!(ctx.after_step(), Stage::Run);
    ctx.stop();
    assert_eq!(ctx.after_step(), Stage::Stopping);
    ctx.stop();
    assert_eq!(ctx.after_step(), Stage::Stopping);
}

#[test]
fn recover_clears_the_stop_request_and_stop_keeps_it() {
    let mut ctx = fresh();
    ctx.stop();
    assert_eq!(ctx.after_stopping(StoppingResult::Recover), Stage::Run);
    assert_eq!(ctx.after_step(), Stage::Run);
    ctx.stop();
    assert_eq!(ctx.after_stopping(StoppingResult::Stop), Stage::Stopped);
    assert_eq!(ctx.after_step(), Stage::Stopping);
}

#[test]
fn a_context_driven_with_recover_once_then_stop() {
    // run calls stop() each time; stopping answers Recover, then Stop.
    let mut ctx = fresh();
    let mut verdicts = vec![StoppingResult::Stop, StoppingResult::Recover];
    let mut invoked = Vec::new();
    let mut stage = Stage::first(false);
    while stage != Stage::Stopped {
        invoked.push(stage);
        stage = match stage {
            Stage::Init => ctx.after_step(),
            Stage::Run => {
                ctx.stop();
                ctx.after_step()
            }
            Stage::Stopping => ctx.after_stopping(verdicts.pop().unwrap()),
            other => panic!("unexpected stage {:?}", other),
        };
    }
    assert_eq!(
        invoked,
        vec![Stage::Init, Stage::Run, Stage::Stopping, Stage::Run, Stage::Stopping]
    );
    let mut stopped = ctx.next_phase();
    let mut cx = TaskContext::from_waker(Waker::noop());
    assert_eq!(stopped.poll_drain(&mut cx), Polled::Ended);
}

#[test]
fn a_demoted_context_takes_no_more_messages() {
    let ctx = fresh();
    let addr = ctx.address();
    addr.bounded_sender().try_send(1).unwrap();
    let _stopped = ctx.next_phase();
    assert_eq!(addr.send_priority(2u32), Err(SendError));
    assert!(matches!(addr.bounded_sender().try_send(3), Err(TrySendError::Closed(3))));
}

#[test]
fn a_dropped_context_takes_no_more_messages() {
    let ctx = fresh();
    let addr = ctx.address();
    drop(ctx);
    assert_eq!(addr.send_priority(2u32), Err(SendError));
    assert!(matches!(addr.bounded_sender().try_send(3), Err(TrySendError::Closed(3))));
}

#[test]
fn draining_gives_priority_messages_first_and_then_ends() {
    let ctx = fresh();
    let addr = ctx.address();
    addr.bounded_sender().try_send(1).unwrap();
    addr.send_priority(8u32).unwrap();
    addr.bounded_sender().try_send(2).unwrap();
    addr.send_priority(9u32).unwrap();
    drop(addr);
    let mut stopped = ctx.next_phase();
    let mut cx = TaskContext::from_waker(Waker::noop());
    let mut left = Vec::new();
    loop {
        match stopped.poll_drain(&mut cx) {
            Polled::Ready(n) => left.push(n),
            Polled::Ended => break,
            Polled::Pending => panic!("a closed mailbox does not wait"),
        }
    }
    assert_eq!(left, vec![8, 9, 1, 2]);
    assert_eq!(stopped.poll_drain(&mut cx), Polled::Ended);
}

#[test]
fn draining_an_empty_context_ends_at_once() {
    let mut stopped = fresh().next_phase();
    let mut cx = TaskContext::from_waker(Waker::noop());
    assert_eq!(stopped.poll_drain(&mut cx), Polled::Ended);
}

#[test]
fn the_first_look_prefers_a_priority_message() {
    assert_eq!(prefer_priority(Polled::Ready(4)), Precedence::Deliver(4));
    assert_eq!(
        prefer_priority(Polled::<u32>::Pending),
        Precedence::Ordinary { priority_ended: false }
    );
    assert_eq!(
        prefer_priority(Polled::<u32>::Ended),
        Precedence::Ordinary { priority_ended: true }
    );
}

#[test]
fn the_ordinary_mailbox_settles_a_read_without_priority() {
    for priority_ended in [false, true] {
        assert_eq!(settle_ordinary(priority_ended, Polled::Ready(3)), Polled::Ready(3));
        assert_eq!(settle_ordinary(priority_ended, Polled::<u32>::Pending), Polled::Pending);
    }
    assert_eq!(settle_ordinary(false, Polled::<u32>::Ended), Polled::Pending);
    assert_eq!(settle_ordinary(true, Polled::<u32>::Ended), Polled::Ended);
}

#[test]
fn draining_moves_on_when_the_priority_mailbox_has_ended() {
    assert_eq!(drain_priority(Polled::Ready(1)), Some(Polled::Ready(1)));
    assert_eq!(drain_priority(Polled::<u32>::Pending), Some(Polled::Pending));
    assert_eq!(drain_priority(Polled::<u32>::Ended), None);
}
