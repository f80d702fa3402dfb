use ec_demo::notifications::{
    Delivery, Event, EventRx, LifecycleError, Notifications, ServiceFlag, Turn, UnknownEvent,
    WorkerAction, RX_BUF_SZ,
};
use std::cell::Cell;

fn receiver(event: Event) -> EventRx<u32> {
    let mut flag = ServiceFlag::new();
    let service = Notifications::new(&mut flag, || 0).unwrap();
    service.event_receiver(event)
}

#[test]
fn events_have_their_codes() {
    assert_eq!(u32::from(Event::Any), 0);
    assert_eq!(u32::from(Event::DbgFrameAvailable), 20);
    assert_eq!(Event::try_from(0), Ok(Event::Any));
    assert_eq!(Event::try_from(20), Ok(Event::DbgFrameAvailable));
    assert_eq!(Event::try_from(1), Err(UnknownEvent { code: 1 }));
    assert_eq!(Event::try_from(21), Err(UnknownEvent { code: 21 }));
    assert_eq!(
        UnknownEvent { code: 21 }.message(),
        "Unknown event received"
    );
}

#[test]
fn only_one_service_lives_at_a_time() {
    let mut flag = ServiceFlag::new();
    assert!(!flag.is_active());
    let first = Notifications::new(&mut flag, || 0).unwrap();
    assert!(flag.is_active());
    let called = Cell::new(false);
    let second = Notifications::new(&mut flag, || {
        called.set(true);
        0
    });
    assert_eq!(second.err(), Some(LifecycleError::AlreadyActive));
    assert!(!called.get());
    assert!(flag.is_active());
    let cleaned = Cell::new(0);
    first.shutdown(&mut flag, || cleaned.set(cleaned.get() + 1));
    assert_eq!(cleaned.get(), 1);
    assert!(!flag.is_active());
    assert!(Notifications::new(&mut flag, || 0).is_ok());
}

#[test]
fn failed_setup_gives_the_flag_back() {
    let mut flag = ServiceFlag::new();
    let failed = Notifications::new(&mut flag, || -5);
    assert_eq!(failed.err(), Some(LifecycleError::InitFailed));
    assert!(!flag.is_active());
    assert!(Notifications::new(&mut flag, || 0).is_ok());
}

#[test]
fn lifecycle_errors_have_their_messages() {
    assert_eq!(
        LifecycleError::AlreadyActive.message(),
        "Only one notification service must exist at a time"
    );
    assert_eq!(
        LifecycleError::InitFailed.message(),
        "Failed to initialize notification service"
    );
}

#[test]
fn receiver_starts_paused_and_empty() {
    let mut rx = receiver(Event::DbgFrameAvailable);
    assert!(!rx.is_running());
    assert_eq!(rx.event(), Event::DbgFrameAvailable);
    assert_eq!(rx.pending(), 0);
    assert!(!rx.is_disconnected());
    assert_eq!(rx.worker_action(), WorkerAction::Park);
    assert_eq!(rx.receive(), None);
}

#[test]
fn stopped_receiver_yields_nothing_and_resumes_when_started() {
    let mut rx = receiver(Event::DbgFrameAvailable);
    let waits = Cell::new(0u32);
    let wait = |code: u32| {
        waits.set(waits.get() + 1);
        code
    };
    let sample = |_event: Event| waits.get() * 100;

    rx.start();
    assert!(matches!(rx.worker_turn(&wait, &sample), Turn::Delivered));
    assert_eq!(rx.receive(), Some(100));

    rx.stop();
    for _ in 0..50 {
        assert!(matches!(rx.worker_turn(&wait, &sample), Turn::Parked));
        assert_eq!(rx.receive(), None);
    }
    assert_eq!(waits.get(), 1);

    rx.start();
    assert_eq!(rx.worker_action(), WorkerAction::Wait(20));
    assert!(matches!(rx.worker_turn(&wait, &sample), Turn::Delivered));
    assert!(matches!(rx.worker_turn(&wait, &sample), Turn::Delivered));
    assert_eq!(rx.receive(), Some(200));
    assert_eq!(rx.receive(), Some(300));
    assert_eq!(rx.receive(), None);
}

#[test]
fn worker_waits_for_the_bound_event() {
    let mut rx = receiver(Event::Any);
    rx.start();
    let asked = Cell::new(99u32);
    let turn = rx.worker_turn(
        |code| {
            asked.set(code);
            20
        },
        |event| u32::from(event) + 1,
    );
    assert!(matches!(turn, Turn::Delivered));
    assert_eq!(asked.get(), 0);
    assert_eq!(rx.receive(), Some(21));
}

#[test]
fn unknown_code_is_discarded_without_sampling() {
    let mut rx = receiver(Event::DbgFrameAvailable);
    rx.start();
    let sampled = Cell::new(false);
    let turn = rx.worker_turn(
        |_| 7,
        |_| {
            sampled.set(true);
            1
        },
    );
    assert!(matches!(turn, Turn::Discarded));
    assert!(!sampled.get());
    assert_eq!(rx.pending(), 0);
}

#[test]
fn values_leave_in_the_order_they_came() {
    let mut rx = receiver(Event::Any);
    for value in [3, 1, 2] {
        assert!(matches!(rx.deliver(value), Delivery::Delivered));
    }
    assert_eq!(rx.pending(), 3);
    assert_eq!(rx.receive(), Some(3));
    assert_eq!(rx.receive(), Some(1));
    assert_eq!(rx.receive(), Some(2));
    assert_eq!(rx.receive(), None);
}

#[test]
fn full_queue_hands_the_value_back() {
    let mut rx = receiver(Event::Any);
    rx.start();
    for value in 0..RX_BUF_SZ as u32 {
        assert!(matches!(rx.deliver(value), Delivery::Delivered));
    }
    assert_eq!(rx.pending(), 128);
    assert!(matches!(rx.deliver(500), Delivery::Full(500)));
    assert!(matches!(rx.worker_turn(|c| c, |_| 501), Turn::Blocked(501)));
    assert_eq!(rx.pending(), 128);
    assert_eq!(rx.receive(), Some(0));
    assert!(matches!(rx.deliver(500), Delivery::Delivered));
    for value in 1..RX_BUF_SZ as u32 {
        assert_eq!(rx.receive(), Some(value));
    }
    assert_eq!(rx.receive(), Some(500));
}

#[test]
fn worker_ends_once_the_consumer_is_gone() {
    let mut rx = receiver(Event::Any);
    rx.start();
    rx.close();
    assert!(matches!(rx.deliver(1), Delivery::Closed));
    assert!(matches!(rx.worker_turn(|c| c, |_| 2), Turn::Exited));
    assert_eq!(rx.pending(), 0);
}

#[test]
fn receiver_is_disconnected_once_drained_after_the_worker_ended() {
    let mut rx = receiver(Event::Any);
    assert!(matches!(rx.deliver(1), Delivery::Delivered));
    rx.sever();
    assert!(!rx.is_disconnected());
    assert_eq!(rx.receive(), Some(1));
    assert!(rx.is_disconnected());
}
