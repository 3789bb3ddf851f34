use crossbeam_channel::{after, bounded, unbounded};
use soupbin_feed::channel::{backpressure_step, deliver, Backpressure, Delivery};
use std::time::Duration;

#[test]
fn a_full_queue_hands_the_message_on_unchanged() {
    let step = backpressure_step(Delivery::Full(String::from("kept")));
    assert!(matches!(step, Backpressure::Wait(ref message) if message == "kept"));
    assert!(matches!(
        backpressure_step(Delivery::<u8>::Sent),
        Backpressure::Delivered
    ));
    assert!(matches!(
        backpressure_step(Delivery::Disconnected(1u8)),
        Backpressure::Lost
    ));
}

#[test]
fn messages_are_delivered_in_order() {
    let (tx, rx) = unbounded();
    assert!(deliver(&tx, 1));
    assert!(deliver(&tx, 2));
    assert!(deliver(&tx, 3));
    assert_eq!(rx.try_iter().collect::<Vec<i32>>(), vec![1, 2, 3]);
}

#[test]
fn a_queue_without_receiver_delivers_nothing() {
    let (tx, rx) = bounded(1);
    drop(rx);
    assert!(!deliver(&tx, 1));
}

#[test]
fn delivery_waits_for_room() {
    let (tx, rx) = bounded(1);
    assert!(deliver(&tx, 1));
    let runtime = tokio::runtime::Builder::new_current_thread().build().unwrap();
    let consumer = runtime.spawn_blocking(move || {
        let _ = after(Duration::from_millis(50)).recv();
        vec![rx.recv().unwrap(), rx.recv().unwrap()]
    });
    assert!(deliver(&tx, 2));
    assert_eq!(runtime.block_on(consumer).unwrap(), vec![1, 2]);
}

#[test]
fn a_receiver_that_leaves_while_the_queue_is_full_ends_the_wait() {
    let (tx, rx) = bounded(1);
    assert!(deliver(&tx, 1));
    let runtime = tokio::runtime::Builder::new_current_thread().build().unwrap();
    let leaver = runtime.spawn_blocking(move || {
        let _ = after(Duration::from_millis(50)).recv();
        drop(rx);
    });
    assert!(!deliver(&tx, 2));
    runtime.block_on(leaver).unwrap();
}

#[test]
fn each_outcome_of_an_attempt_has_its_own_step() {
    assert!(matches!(backpressure_step(Delivery::Full(7)), Backpressure::Wait(7)));
    assert!(matches!(backpressure_step(Delivery::Disconnected(7)), Backpressure::Lost));
    assert!(matches!(backpressure_step(Delivery::<i32>::Sent), Backpressure::Delivered));
}
