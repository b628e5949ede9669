use my_rpc::{InFlightMessage, Registry, RpcError};
use std::time::Instant;

#[test]
fn identifiers_count_up_from_zero_and_wrap() {
    let mut registry = Registry::new();
    for expected in 0..=u16::MAX {
        assert_eq!(registry.next_id(), expected);
    }
    assert_eq!(registry.next_id(), 0);
    assert_eq!(registry.next_id(), 1);
}

#[test]
fn take_by_id_removes_exactly_the_matching_entry() {
    let mut registry = Registry::new();
    let mut receivers = Vec::new();
    for expected in 0..3u16 {
        let (id, rx) = registry.begin_request().unwrap();
        assert_eq!(id, expected);
        receivers.push(rx);
    }
    assert!(registry.contains_id(1));

    let taken = registry.take_by_id(1).unwrap();
    assert_eq!(taken.message_id, 1);
    assert!(!registry.contains_id(1));
    assert!(registry.contains_id(0));
    assert!(registry.contains_id(2));
    assert!(registry.take_by_id(1).is_none());
}

#[test]
fn take_by_id_of_an_unknown_identifier_is_none() {
    let mut registry = Registry::new();
    assert!(registry.take_by_id(5).is_none());
}

#[test]
fn completion_delivers_the_popped_entrys_own_identifier() {
    let mut registry = Registry::new();
    let (id0, rx0) = registry.begin_request().unwrap();
    let (id1, rx1) = registry.begin_request().unwrap();

    // Stack order: the most recently inserted entry is completed first, and
    // each waiter receives the identifier allocated to its own request.
    assert_eq!(registry.complete_one(), Some(id1));
    assert_eq!(rx1.recv(), Ok(1));
    assert_eq!(registry.complete_one(), Some(id0));
    assert_eq!(rx0.recv(), Ok(0));
    assert_eq!(registry.complete_one(), None);
}

#[test]
fn registering_a_taken_entry_again_is_possible_after_removal() {
    let mut registry = Registry::new();
    let (id, _rx) = registry.begin_request().unwrap();
    let taken = registry.take_by_id(id).unwrap();
    assert!(!registry.contains_id(id));
    registry.register(taken);
    assert!(registry.contains_id(id));
}

#[test]
fn register_accepts_an_entry_built_by_hand() {
    let mut registry = Registry::new();
    let (tx, rx) = flume::bounded(1);
    registry.register(InFlightMessage { message_id: 42, start_time: Instant::now(), tx });
    assert!(registry.contains_id(42));

    let completed = registry.complete_one();
    assert_eq!(completed, Some(42));
    assert_eq!(rx.recv(), Ok(42));
}

#[test]
fn a_dropped_sender_closes_the_completion_channel() {
    let mut registry = Registry::new();
    let (id, rx) = registry.begin_request().unwrap();
    let taken = registry.take_by_id(id).unwrap();
    drop(taken);
    assert_eq!(rx.recv(), Err(flume::RecvError::Disconnected));
}

#[test]
fn a_wrapped_around_identifier_still_in_flight_is_refused() {
    let mut registry = Registry::new();
    // Keep identifier 0 in flight while the allocator runs a full lap.
    let (id, _rx) = registry.begin_request().unwrap();
    assert_eq!(id, 0);
    for _ in 0..u16::MAX {
        let (id, _rx) = registry.begin_request().unwrap();
        assert!(registry.take_by_id(id).is_some());
    }
    // The allocator is back at 0, which is still in flight.
    assert_eq!(registry.begin_request().err(), Some(RpcError::DuplicateIdentifier));
    // The registry is left untouched by the refusal.
    assert!(registry.contains_id(0));
    assert_eq!(registry.take_by_id(0).unwrap().message_id, 0);
}
