//! Errors of sending and receiving the events of an observed collection.
//!
//! The channels that carry the events report their failures in their own
//! terms. The types here hold such a failure as the shell hands it over, and
//! the functions say which of them an observer gets to see.

use vstd::prelude::*;
use vstd::string::*;
use crate::decimal::{decimal_digits, push_decimal};
use crate::outside::{
    base_recv_error_text, base_recv_error_to_string, connect_error_text, connect_error_to_string,
    listener_error_text, listener_error_to_string, send_error_kind_disconnected,
    send_error_kind_text, send_error_kind_to_string,
};

verus! {

/// What a broadcast or an mpsc channel reports when it could not send `T`.
#[derive(Debug)]
pub enum ChannelSendError<T> {
    /// Nobody is left to receive; the item comes back.
    Closed(T),
    /// Sending to a remote endpoint failed.
    RemoteSend(remoc::rch::base::SendErrorKind),
    /// Connecting a sent channel failed.
    RemoteConnect(remoc::chmux::ConnectError),
    /// Listening to a received channel failed.
    RemoteListen(remoc::chmux::ListenerError),
    /// Forwarding at a remote endpoint to another remote endpoint failed.
    RemoteForward,
}

/// What a broadcast channel reports when it could not receive.
#[derive(Debug)]
pub enum BroadcastRecvError {
    /// There are no more active senders.
    Closed,
    /// The receiver lagged too far behind.
    Lagged,
    /// Receiving from a remote endpoint failed.
    RemoteReceive(remoc::rch::base::RecvError),
    /// Connecting a sent channel failed.
    RemoteConnect(remoc::chmux::ConnectError),
    /// Listening for a connection from a received channel failed.
    RemoteListen(remoc::chmux::ListenerError),
}

/// What an mpsc channel reports when it could not receive.
#[derive(Debug)]
pub enum MpscRecvError {
    /// Receiving from a remote endpoint failed.
    RemoteReceive(remoc::rch::base::RecvError),
    /// Connecting a sent channel failed.
    RemoteConnect(remoc::chmux::ConnectError),
    /// Listening for a connection from a received channel failed.
    RemoteListen(remoc::chmux::ListenerError),
}

/// An error occurred during sending an event for an observable collection.
#[derive(Debug)]
pub enum SendError {
    /// Sending to a remote endpoint failed.
    RemoteSend(remoc::rch::base::SendErrorKind),
    /// Connecting a sent channel failed.
    RemoteConnect(remoc::chmux::ConnectError),
    /// Listening to a received channel failed.
    RemoteListen(remoc::chmux::ListenerError),
    /// Forwarding at a remote endpoint to another remote endpoint failed.
    RemoteForward,
}

impl Clone for SendError {
    fn clone(&self) -> (copy: Self)
        ensures
            copy == *self,
    {
        match self {
            SendError::RemoteSend(kind) => SendError::RemoteSend(kind.clone()),
            SendError::RemoteConnect(err) => SendError::RemoteConnect(err.clone()),
            SendError::RemoteListen(err) => SendError::RemoteListen(err.clone()),
            SendError::RemoteForward => SendError::RemoteForward,
        }
    }
}

/// The error that an observer sees for a failure to send, where there is one:
/// every failure but the one that only says that nobody is left to receive,
/// which comes back as it is.
pub open spec fn send_error_of<T>(err: ChannelSendError<T>) -> Result<SendError, ChannelSendError<T>> {
    match err {
        ChannelSendError::RemoteSend(kind) => Ok(SendError::RemoteSend(kind)),
        ChannelSendError::RemoteConnect(err) => Ok(SendError::RemoteConnect(err)),
        ChannelSendError::RemoteListen(err) => Ok(SendError::RemoteListen(err)),
        ChannelSendError::RemoteForward => Ok(SendError::RemoteForward),
        ChannelSendError::Closed(item) => Err(ChannelSendError::Closed(item)),
    }
}

impl<T> ChannelSendError<T> {
    /// Whether the channel is gone for good: true of every failure but one of
    /// encoding the item.
    pub open spec fn spec_is_disconnected(self) -> bool {
        match self {
            ChannelSendError::RemoteSend(kind) => send_error_kind_disconnected(kind),
            _ => true,
        }
    }

    /// True, if the remote endpoint closed the channel, was dropped or the
    /// connection failed.
    pub fn is_disconnected(&self) -> (disconnected: bool)
        ensures
            disconnected == self.spec_is_disconnected(),
    {
        match self {
            ChannelSendError::RemoteSend(kind) => kind.is_disconnected(),
            _ => true,
        }
    }
}

impl SendError {
    /// The error that an observer sees for `err`, or `err` itself where it
    /// only says that nobody is left to receive.
    pub fn try_from<T>(err: ChannelSendError<T>) -> (converted: Result<SendError, ChannelSendError<T>>)
        ensures
            converted == send_error_of(err),
    {
        match err {
            ChannelSendError::RemoteSend(kind) => Ok(SendError::RemoteSend(kind)),
            ChannelSendError::RemoteConnect(err) => Ok(SendError::RemoteConnect(err)),
            ChannelSendError::RemoteListen(err) => Ok(SendError::RemoteListen(err)),
            ChannelSendError::RemoteForward => Ok(SendError::RemoteForward),
            ChannelSendError::Closed(item) => Err(ChannelSendError::Closed(item)),
        }
    }

    /// The text of the error.
    pub open spec fn spec_message(self) -> Seq<char> {
        match self {
            SendError::RemoteSend(kind) => "send error: "@ + send_error_kind_text(kind),
            SendError::RemoteConnect(err) => "connect error: "@ + connect_error_text(err),
            SendError::RemoteListen(err) => "listen error: "@ + listener_error_text(err),
            SendError::RemoteForward => "forwarding error"@,
        }
    }

    /// The text of the error, as the error displays itself.
    pub fn message(&self) -> (text: String)
        ensures
            text@ == self.spec_message(),
    {
        match self {
            SendError::RemoteSend(kind) => {
                let detail = send_error_kind_to_string(kind);
                String::from_str("send error: ").concat(detail.as_str())
            },
            SendError::RemoteConnect(err) => {
                let detail = connect_error_to_string(err);
                String::from_str("connect error: ").concat(detail.as_str())
            },
            SendError::RemoteListen(err) => {
                let detail = listener_error_to_string(err);
                String::from_str("listen error: ").concat(detail.as_str())
            },
            SendError::RemoteForward => String::from_str("forwarding error"),
        }
    }
}

/// An error occurred during receiving an event or initial value of an observed
/// collection.
#[derive(Debug)]
pub enum ObserveRecvError {
    /// The observed collection was dropped before `done` was called on it.
    Closed,
    /// The receiver lagged behind, so that the the send buffer size has reached
    /// its limit.
    ///
    /// Try increasing the send buffer specified when calling `subscribe` on the
    /// observed collection.
    Lagged,
    /// The maximum size of the mirrored collection has been reached.
    MaxSizeExceeded(usize),
    /// Receiving from a remote endpoint failed.
    RemoteReceive(remoc::rch::base::RecvError),
    /// Connecting a sent channel failed.
    RemoteConnect(remoc::chmux::ConnectError),
    /// Listening for a connection from a received channel failed.
    RemoteListen(remoc::chmux::ListenerError),
    /// Invalid index.
    InvalidIndex(usize),
}

impl Clone for ObserveRecvError {
    fn clone(&self) -> (copy: Self)
        ensures
            copy == *self,
    {
        match self {
            ObserveRecvError::Closed => ObserveRecvError::Closed,
            ObserveRecvError::Lagged => ObserveRecvError::Lagged,
            ObserveRecvError::MaxSizeExceeded(size) => ObserveRecvError::MaxSizeExceeded(*size),
            ObserveRecvError::RemoteReceive(err) => ObserveRecvError::RemoteReceive(err.clone()),
            ObserveRecvError::RemoteConnect(err) => ObserveRecvError::RemoteConnect(err.clone()),
            ObserveRecvError::RemoteListen(err) => ObserveRecvError::RemoteListen(err.clone()),
            ObserveRecvError::InvalidIndex(index) => ObserveRecvError::InvalidIndex(*index),
        }
    }
}

/// The error that an observer sees for a failure of a broadcast channel.
pub open spec fn broadcast_recv_error_of(err: BroadcastRecvError) -> ObserveRecvError {
    match err {
        BroadcastRecvError::Closed => ObserveRecvError::Closed,
        BroadcastRecvError::Lagged => ObserveRecvError::Lagged,
        BroadcastRecvError::RemoteReceive(err) => ObserveRecvError::RemoteReceive(err),
        BroadcastRecvError::RemoteConnect(err) => ObserveRecvError::RemoteConnect(err),
        BroadcastRecvError::RemoteListen(err) => ObserveRecvError::RemoteListen(err),
    }
}

/// The error that an observer sees for a failure of an mpsc channel.
pub open spec fn mpsc_recv_error_of(err: MpscRecvError) -> ObserveRecvError {
    match err {
        MpscRecvError::RemoteReceive(err) => ObserveRecvError::RemoteReceive(err),
        MpscRecvError::RemoteConnect(err) => ObserveRecvError::RemoteConnect(err),
        MpscRecvError::RemoteListen(err) => ObserveRecvError::RemoteListen(err),
    }
}

impl From<BroadcastRecvError> for ObserveRecvError {
    fn from(err: BroadcastRecvError) -> (converted: Self) {
        match err {
            BroadcastRecvError::Closed => ObserveRecvError::Closed,
            BroadcastRecvError::Lagged => ObserveRecvError::Lagged,
            BroadcastRecvError::RemoteReceive(err) => ObserveRecvError::RemoteReceive(err),
            BroadcastRecvError::RemoteConnect(err) => ObserveRecvError::RemoteConnect(err),
            BroadcastRecvError::RemoteListen(err) => ObserveRecvError::RemoteListen(err),
        }
    }
}

impl vstd::std_specs::convert::FromSpecImpl<BroadcastRecvError> for ObserveRecvError {
    open spec fn obeys_from_spec() -> bool {
        true
    }

    open spec fn from_spec(err: BroadcastRecvError) -> Self {
        broadcast_recv_error_of(err)
    }
}

impl From<MpscRecvError> for ObserveRecvError {
    fn from(err: MpscRecvError) -> (converted: Self) {
        match err {
            MpscRecvError::RemoteReceive(err) => ObserveRecvError::RemoteReceive(err),
            MpscRecvError::RemoteConnect(err) => ObserveRecvError::RemoteConnect(err),
            MpscRecvError::RemoteListen(err) => ObserveRecvError::RemoteListen(err),
        }
    }
}

impl vstd::std_specs::convert::FromSpecImpl<MpscRecvError> for ObserveRecvError {
    open spec fn obeys_from_spec() -> bool {
        true
    }

    open spec fn from_spec(err: MpscRecvError) -> Self {
        mpsc_recv_error_of(err)
    }
}

impl ObserveRecvError {
    /// The text of the error.
    pub open spec fn spec_message(self) -> Seq<char> {
        match self {
            ObserveRecvError::Closed => "observed collection was dropped"@,
            ObserveRecvError::Lagged => "observation lagged behind"@,
            ObserveRecvError::MaxSizeExceeded(size) => "mirrored collection reached it maximum size of "@
                + decimal_digits(size as nat),
            ObserveRecvError::RemoteReceive(err) => "receive error: "@ + base_recv_error_text(err),
            ObserveRecvError::RemoteConnect(err) => "connect error: "@ + connect_error_text(err),
            ObserveRecvError::RemoteListen(err) => "listen error: "@ + listener_error_text(err),
            ObserveRecvError::InvalidIndex(index) => "index "@ + decimal_digits(index as nat)
                + " is invalid"@,
        }
    }

    /// The text of the error, as the error displays itself.
    pub fn message(&self) -> (text: String)
        ensures
            text@ == self.spec_message(),
    {
        match self {
            ObserveRecvError::Closed => String::from_str("observed collection was dropped"),
            ObserveRecvError::Lagged => String::from_str("observation lagged behind"),
            ObserveRecvError::MaxSizeExceeded(size) => {
                let mut text = String::from_str("mirrored collection reached it maximum size of ");
                push_decimal(&mut text, *size as u64);
                text
            },
            ObserveRecvError::RemoteReceive(err) => {
                let detail = base_recv_error_to_string(err);
                String::from_str("receive error: ").concat(detail.as_str())
            },
            ObserveRecvError::RemoteConnect(err) => {
                let detail = connect_error_to_string(err);
                String::from_str("connect error: ").concat(detail.as_str())
            },
            ObserveRecvError::RemoteListen(err) => {
                let detail = listener_error_to_string(err);
                String::from_str("listen error: ").concat(detail.as_str())
            },
            ObserveRecvError::InvalidIndex(index) => {
                let mut text = String::from_str("index ");
                push_decimal(&mut text, *index as u64);
                text.append(" is invalid");
                text
            },
        }
    }
}

/// The error to report after an attempt to send an event, if there is one.
///
/// A channel that is gone is no news to the sender of events: only a failure
/// that leaves the channel standing is reported.
pub open spec fn event_report<T>(sent: Result<(), ChannelSendError<T>>) -> Option<SendError> {
    match sent {
        Err(ChannelSendError::RemoteSend(kind)) if !send_error_kind_disconnected(kind) => Some(
            SendError::RemoteSend(kind),
        ),
        _ => None,
    }
}

/// Sends an event: what is left to do once the channel has answered. The
/// returned error, if any, is for the handler of sending errors.
pub fn send_event<T>(sent: Result<(), ChannelSendError<T>>) -> (report: Option<SendError>)
    ensures
        report == event_report(sent),
{
    match sent {
        Ok(()) => None,
        Err(err) => {
            if err.is_disconnected() {
                None
            } else {
                match SendError::try_from(err) {
                    Ok(err) => Some(err),
                    Err(_) => vstd::pervasive::unreached(),
                }
            }
        },
    }
}

} // verus!
