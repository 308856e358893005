use remop::sync::ChannelConnectError;

#[test]
fn connect_error_dropped_text() {
    assert_eq!(ChannelConnectError::Dropped.message(), "other part was dropped");
}

#[test]
fn connect_error_connect_text() {
    let err = ChannelConnectError::Connect(remoc::chmux::ConnectError::Rejected);
    assert_eq!(err.message(), "connect error: connection has been rejected by server");
    let err = ChannelConnectError::Connect(remoc::chmux::ConnectError::LocalPortsExhausted);
    assert_eq!(err.message(), "connect error: all local ports are in use");
}

#[test]
fn connect_error_listen_text() {
    let err = ChannelConnectError::Listen(remoc::chmux::ListenerError::MultiplexerError);
    assert_eq!(err.message(), "listen error: multiplexer error");
    let err = ChannelConnectError::Listen(remoc::chmux::ListenerError::LocalPortsExhausted);
    assert_eq!(err.message(), "listen error: all local ports are in use");
}

#[test]
fn connect_error_text_agrees_with_the_transport() {
    let inner = remoc::chmux::ConnectError::TooManyPendingConnectionRequests;
    let expected = format!("connect error: {}", inner);
    assert_eq!(ChannelConnectError::Connect(inner).message(), expected);
}

#[test]
fn connect_error_clone_keeps_the_error() {
    let err = ChannelConnectError::Connect(remoc::chmux::ConnectError::ChMux);
    let copy = err.clone();
    assert!(matches!(copy, ChannelConnectError::Connect(remoc::chmux::ConnectError::ChMux)));
    assert_eq!(copy.message(), err.message());
    assert!(matches!(ChannelConnectError::Dropped.clone(), ChannelConnectError::Dropped));
}
