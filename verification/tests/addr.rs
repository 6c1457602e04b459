use agency::addr::send_outcome;
use agency::{Addr, Agency, Context, Polled, SendError};
use std::collections::hash_map::DefaultHasher;
use std::collections::HashSet;
use std::hash::{Hash, Hasher};
use std::task::{Context as TaskContext, Waker};

fn hash_of<T: Hash>(value: &T) -> u64 {
    let mut hasher = DefaultHasher::new();
    value.hash(&mut hasher);
    hasher.finish()
}

fn fresh() -> Context<u32> {
    let (agency, _handle) = Agency::new();
    Context::new(agency)
}

#[test]
fn clones_of_an_address_are_equal_and_hash_alike() {
    let ctx = fresh();
    let addr = ctx.address();
    let copy = addr.clone();
    let again = copy.clone();
    assert!(addr == copy);
    assert!(copy == again);
    assert_eq!(addr.identity(), copy.identity());
    assert_eq!(hash_of(&addr), hash_of(&copy));
    assert_eq!(hash_of(&addr), hash_of(&again));
}

#[test]
fn every_address_of_a_context_is_the_same_address() {
    let ctx = fresh();
    assert!(ctx.address() == ctx.address());
}

#[test]
fn addresses_of_separate_actors_differ() {
    let first = fresh();
    let second = fresh();
    assert!(first.address() != second.address());
    assert_ne!(first.address().identity(), second.address().identity());
    let mut seen = HashSet::new();
    for _ in 0..100 {
        assert!(seen.insert(fresh().address()));
    }
    assert_eq!(seen.len(), 100);
}

#[test]
fn an_identity_is_a_random_version_four_identifier() {
    for _ in 0..50 {
        let id = fresh().address().identity();
        assert_eq!((id >> 76) & 0xf, 4);
        assert_eq!((id >> 62) & 0x3, 2);
        let uuid = uuid::Uuid::from_u128(id);
        assert_eq!(uuid.get_version_num(), 4);
    }
}

#[test]
fn the_hash_of_an_address_is_its_tag_and_its_identity() {
    let addr = fresh().address();
    let mut expected = DefaultHasher::new();
    expected.write(b"addr:");
    addr.identity().hash(&mut expected);
    assert_eq!(hash_of(&addr), expected.finish());
}

#[test]
fn a_new_address_leads_to_the_given_channels() {
    let (mailer, mut mailbox) = tokio::sync::mpsc::channel::<u32>(4);
    let (priority_mailer, mut priority_mailbox) = tokio::sync::mpsc::unbounded_channel::<u32>();
    let addr = Addr::new(mailer, priority_mailer);
    addr.send_priority(1u32).unwrap();
    addr.bounded_sender().try_send(2).unwrap();
    assert_eq!(priority_mailbox.try_recv(), Ok(1));
    assert_eq!(mailbox.try_recv(), Ok(2));
    assert!(priority_mailbox.try_recv().is_err());
}

#[test]
fn clones_lead_to_the_same_mailboxes() {
    let mut ctx = fresh();
    let addr = ctx.address();
    let copy = addr.clone();
    addr.bounded_sender().try_send(1).unwrap();
    copy.bounded_sender().try_send(2).unwrap();
    copy.send_priority(3u32).unwrap();
    let mut cx = TaskContext::from_waker(Waker::noop());
    assert_eq!(ctx.poll_message(&mut cx), Polled::Ready(3));
    assert_eq!(ctx.poll_message(&mut cx), Polled::Ready(1));
    assert_eq!(ctx.poll_message(&mut cx), Polled::Ready(2));
}

#[test]
fn a_priority_send_to_a_closed_mailbox_reports_the_target_stopped() {
    let (mailer, _mailbox) = tokio::sync::mpsc::channel::<u32>(4);
    let (priority_mailer, priority_mailbox) = tokio::sync::mpsc::unbounded_channel::<u32>();
    let addr = Addr::new(mailer, priority_mailer);
    assert_eq!(addr.send_priority(1u32), Ok(()));
    drop(priority_mailbox);
    assert_eq!(addr.send_priority(2u32), Err(SendError));
}

#[test]
fn a_send_fails_exactly_when_the_message_came_back() {
    assert_eq!(send_outcome::<u32>(Ok(())), Ok(()));
    assert_eq!(send_outcome(Err(7u32)), Err(SendError));
}
