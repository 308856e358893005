use remop::dispatch::{Dispatcher, Incoming, KeepSignal, Phase, Step};

fn spawned<T>(step: Step<T>) -> Option<T> {
    match step {
        Step::Spawn(request) => Some(request),
        _ => None,
    }
}

#[test]
fn dispatcher_starts_watching() {
    let dispatcher = Dispatcher::new();
    assert_eq!(dispatcher.phase(), Phase::Watching);
    assert!(!dispatcher.has_exited());
}

#[test]
fn request_is_spawned_once() {
    let mut dispatcher = Dispatcher::new();
    let step = dispatcher.poll(KeepSignal::Pending, Some(Incoming::Request(17u32)));
    assert_eq!(spawned(step), Some(17));
    assert_eq!(dispatcher.phase(), Phase::Watching);
    let step = dispatcher.poll::<u32>(KeepSignal::Pending, None);
    assert!(matches!(step, Step::Idle));
}

#[test]
fn release_wins_over_a_ready_request() {
    let mut dispatcher = Dispatcher::new();
    let step = dispatcher.poll(KeepSignal::Released, Some(Incoming::Request(1u8)));
    assert!(matches!(step, Step::Exit));
    assert!(dispatcher.has_exited());
}

#[test]
fn released_dispatcher_serves_nothing_afterwards() {
    let mut dispatcher = Dispatcher::new();
    assert!(matches!(dispatcher.poll::<u8>(KeepSignal::Released, None), Step::Exit));
    for request in 0..5u8 {
        let step = dispatcher.poll(KeepSignal::Pending, Some(Incoming::Request(request)));
        assert!(matches!(step, Step::Exit));
    }
    assert_eq!(dispatcher.phase(), Phase::Exited);
}

#[test]
fn kept_dispatcher_serves_after_owner_left() {
    let mut dispatcher = Dispatcher::new();
    let step = dispatcher.poll(KeepSignal::Keep, Some(Incoming::Request(1u8)));
    assert_eq!(spawned(step), Some(1));
    assert_eq!(dispatcher.phase(), Phase::Kept);
    let step = dispatcher.poll(KeepSignal::Released, Some(Incoming::Request(2u8)));
    assert_eq!(spawned(step), Some(2));
    assert_eq!(dispatcher.phase(), Phase::Kept);
}

#[test]
fn closed_channel_stops_a_kept_dispatcher() {
    let mut dispatcher = Dispatcher::new();
    dispatcher.signal(KeepSignal::Keep);
    assert_eq!(dispatcher.phase(), Phase::Kept);
    let step = dispatcher.poll::<u8>(KeepSignal::Pending, Some(Incoming::Closed));
    assert!(matches!(step, Step::Exit));
    assert!(dispatcher.has_exited());
}

#[test]
fn closed_channel_stops_a_watching_dispatcher() {
    let mut dispatcher = Dispatcher::new();
    let step = dispatcher.poll::<u8>(KeepSignal::Pending, Some(Incoming::Closed));
    assert!(matches!(step, Step::Exit));
    assert_eq!(dispatcher.phase(), Phase::Exited);
}

#[test]
fn failed_receive_keeps_the_dispatcher_running() {
    let mut dispatcher = Dispatcher::new();
    let step = dispatcher.poll::<u8>(KeepSignal::Pending, Some(Incoming::Failed));
    assert!(matches!(step, Step::Idle));
    assert_eq!(dispatcher.phase(), Phase::Watching);
    let step = dispatcher.poll(KeepSignal::Pending, Some(Incoming::Request(9u8)));
    assert_eq!(spawned(step), Some(9));
}

#[test]
fn exit_is_final() {
    let mut dispatcher = Dispatcher::new();
    assert!(matches!(dispatcher.poll::<u8>(KeepSignal::Pending, Some(Incoming::Closed)), Step::Exit));
    assert!(matches!(dispatcher.poll(KeepSignal::Keep, Some(Incoming::Request(3u8))), Step::Exit));
    assert!(matches!(dispatcher.poll::<u8>(KeepSignal::Pending, Some(Incoming::Failed)), Step::Exit));
    assert!(matches!(dispatcher.poll::<u8>(KeepSignal::Pending, None), Step::Exit));
    dispatcher.signal(KeepSignal::Keep);
    assert_eq!(dispatcher.phase(), Phase::Exited);
}

#[test]
fn signal_settles_the_phase() {
    let mut dispatcher = Dispatcher::new();
    dispatcher.signal(KeepSignal::Pending);
    assert_eq!(dispatcher.phase(), Phase::Watching);
    dispatcher.signal(KeepSignal::Keep);
    assert_eq!(dispatcher.phase(), Phase::Kept);
    dispatcher.signal(KeepSignal::Released);
    assert_eq!(dispatcher.phase(), Phase::Kept);

    let mut other = Dispatcher::new();
    other.signal(KeepSignal::Released);
    assert_eq!(other.phase(), Phase::Exited);
}

#[test]
fn every_request_gets_one_task_in_order() {
    let mut dispatcher = Dispatcher::new();
    let mut started = Vec::new();
    for request in 0..100u32 {
        let keep = if request < 10 { KeepSignal::Pending } else { KeepSignal::Keep };
        if let Some(request) = spawned(dispatcher.poll(keep, Some(Incoming::Request(request)))) {
            started.push(request);
        }
        assert!(matches!(dispatcher.poll::<u32>(keep, None), Step::Idle));
    }
    let expected: Vec<u32> = (0..100).collect();
    assert_eq!(started, expected);
}

#[test]
fn requests_after_the_stop_get_no_task() {
    let mut dispatcher = Dispatcher::new();
    let mut started = Vec::new();
    for request in 0..10u32 {
        let keep = if request == 4 { KeepSignal::Released } else { KeepSignal::Pending };
        if let Some(request) = spawned(dispatcher.poll(keep, Some(Incoming::Request(request)))) {
            started.push(request);
        }
    }
    assert_eq!(started, vec![0, 1, 2, 3]);
}
