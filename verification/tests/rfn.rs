use remop::dispatch::{Incoming, KeepSignal, Phase, Step, REQUEST_CAPACITY};
use remop::rfn::{CallError, RFn, ReplyError};

#[derive(Debug)]
enum AppError {
    Call(String),
    Negative,
}

impl From<CallError> for AppError {
    fn from(err: CallError) -> Self {
        AppError::Call(err.message())
    }
}

fn double(argument: i64) -> i64 {
    argument * 2
}

fn checked_double(argument: i64) -> Result<i64, AppError> {
    if argument < 0 {
        Err(AppError::Negative)
    } else {
        Ok(argument * 2)
    }
}

#[test]
fn request_channel_holds_one_request() {
    assert_eq!(REQUEST_CAPACITY, 1);
}

#[test]
fn provided_function_is_watching() {
    let (_rfn, provider) = RFn::provided();
    assert!(!provider.done());
}

#[test]
fn new_function_is_kept() {
    let (_rfn, mut provider) = RFn::new();
    let step = provider.poll(KeepSignal::Released, Some(Incoming::Request(5i64)));
    assert!(matches!(step, Step::Spawn(5)));
    assert!(!provider.done());
}

#[test]
fn keep_makes_the_provider_outlive_its_owner() {
    let (_rfn, mut provider) = RFn::provided();
    provider.keep();
    let step = provider.poll(KeepSignal::Released, Some(Incoming::Request(1i64)));
    assert!(matches!(step, Step::Spawn(1)));
    let step = provider.poll::<i64>(KeepSignal::Pending, Some(Incoming::Closed));
    assert!(matches!(step, Step::Exit));
    assert!(provider.done());
}

#[test]
fn doubling_two_calls_at_once() {
    let (rfn, mut provider) = RFn::provided();
    let other = rfn.clone();

    let first = provider.poll(KeepSignal::Pending, Some(Incoming::Request(3i64)));
    let second = provider.poll(KeepSignal::Pending, Some(Incoming::Request(4i64)));

    let second_reply = match second {
        Step::Spawn(argument) => Ok(double(argument)),
        _ => Err(ReplyError::Closed),
    };
    let first_reply = match first {
        Step::Spawn(argument) => Ok(double(argument)),
        _ => Err(ReplyError::Closed),
    };

    assert!(matches!(other.try_call(true, second_reply), Ok(8)));
    assert!(matches!(rfn.try_call(true, first_reply), Ok(6)));
}

#[test]
fn call_after_the_provider_was_dropped_fails() {
    let (rfn, mut provider) = RFn::provided();
    let step = provider.poll(KeepSignal::Released, Some(Incoming::Request(3i64)));
    let reply = match step {
        Step::Spawn(argument) => Ok(double(argument)),
        _ => Err(ReplyError::Closed),
    };
    assert!(provider.done());
    assert!(matches!(rfn.try_call(true, reply), Err(CallError::Dropped)));
    assert!(matches!(rfn.clone().try_call::<i64>(false, Err(ReplyError::Closed)), Err(CallError::Dropped)));
}

#[test]
fn undelivered_request_shows_only_through_the_reply() {
    let rfn = RFn::provided().0;
    assert!(matches!(rfn.try_call(false, Ok(11u8)), Ok(11)));
    assert!(matches!(rfn.try_call::<u8>(false, Err(ReplyError::Closed)), Err(CallError::Dropped)));
    assert!(matches!(rfn.try_call::<u8>(true, Err(ReplyError::Closed)), Err(CallError::Dropped)));
}

#[test]
fn try_call_keeps_remote_failures_apart() {
    let rfn = RFn::provided().0;
    let reply = Err(ReplyError::RemoteConnect(remoc::chmux::ConnectError::Rejected));
    assert!(matches!(
        rfn.try_call::<u8>(true, reply),
        Err(CallError::RemoteConnect(remoc::chmux::ConnectError::Rejected))
    ));
    let reply = Err(ReplyError::RemoteListen(remoc::chmux::ListenerError::MultiplexerError));
    assert!(matches!(
        rfn.try_call::<u8>(true, reply),
        Err(CallError::RemoteListen(remoc::chmux::ListenerError::MultiplexerError))
    ));
    let reply = Err(ReplyError::RemoteReceive(remoc::rch::base::RecvError::MissingPorts(vec![1, 2])));
    match rfn.try_call::<u8>(true, reply) {
        Err(CallError::RemoteReceive(remoc::rch::base::RecvError::MissingPorts(ports))) => {
            assert_eq!(ports, vec![1, 2])
        }
        other => panic!("unexpected result: {:?}", other),
    }
}

#[test]
fn call_returns_the_value_of_the_function() {
    let rfn = RFn::provided().0;
    let result: Result<i64, AppError> = rfn.call(true, Ok(checked_double(21)));
    assert!(matches!(result, Ok(42)));
}

#[test]
fn call_returns_the_error_of_the_function() {
    let rfn = RFn::provided().0;
    let result: Result<i64, AppError> = rfn.call(true, Ok(checked_double(-1)));
    assert!(matches!(result, Err(AppError::Negative)));
}

#[test]
fn call_folds_the_call_error_into_the_error_of_the_function() {
    let rfn = RFn::provided().0;
    let result: Result<i64, AppError> = rfn.call(true, Err(ReplyError::Closed));
    match result {
        Err(AppError::Call(text)) => assert_eq!(text, "provider dropped or function panicked"),
        other => panic!("unexpected result: {:?}", other),
    }
}

#[test]
fn call_error_from_reply_error() {
    assert!(matches!(CallError::from(ReplyError::Closed), CallError::Dropped));
    assert!(matches!(
        CallError::from(ReplyError::RemoteConnect(remoc::chmux::ConnectError::ChMux)),
        CallError::RemoteConnect(remoc::chmux::ConnectError::ChMux)
    ));
}

#[test]
fn call_error_texts() {
    assert_eq!(CallError::Dropped.message(), "provider dropped or function panicked");
    assert_eq!(
        CallError::RemoteConnect(remoc::chmux::ConnectError::RemotePortsExhausted).message(),
        "connect error: all remote ports are in use"
    );
    assert_eq!(
        CallError::RemoteListen(remoc::chmux::ListenerError::LocalPortsExhausted).message(),
        "listen error: all local ports are in use"
    );
    assert_eq!(
        CallError::RemoteReceive(remoc::rch::base::RecvError::Receive(remoc::chmux::RecvError::ChMux))
            .message(),
        "receive error: receive error: multiplexer terminated"
    );
    assert_eq!(
        CallError::RemoteReceive(remoc::rch::base::RecvError::MissingPorts(vec![3, 4])).message(),
        "receive error: missing chmux ports: 3, 4"
    );
}

#[test]
fn call_error_clone_keeps_the_error() {
    let err = CallError::RemoteReceive(remoc::rch::base::RecvError::MissingPorts(vec![7]));
    assert_eq!(err.clone().message(), err.message());
    assert!(matches!(CallError::Dropped.clone(), CallError::Dropped));
    let reply = ReplyError::RemoteConnect(remoc::chmux::ConnectError::Rejected);
    assert!(matches!(reply.clone(), ReplyError::RemoteConnect(remoc::chmux::ConnectError::Rejected)));
}

#[test]
fn provider_is_done_only_after_the_stop() {
    let (_rfn, mut provider) = RFn::provided();
    assert!(!provider.done());
    let _ = provider.poll(KeepSignal::Pending, Some(Incoming::Request(1u8)));
    assert!(!provider.done());
    let _ = provider.poll::<u8>(KeepSignal::Pending, Some(Incoming::Failed));
    assert!(!provider.done());
    let _ = provider.poll::<u8>(KeepSignal::Released, None);
    assert!(provider.done());
}

#[test]
fn phase_names_are_distinct() {
    assert!(Phase::Watching != Phase::Kept);
    assert!(Phase::Kept != Phase::Exited);
}
