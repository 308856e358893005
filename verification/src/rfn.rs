//! A remotely callable function: the caller's rules and the provider's state.
//!
//! A call sends a request, made of the argument and a fresh reply channel, and
//! then waits on the reply channel alone. Whether the request could be
//! delivered is not looked at: an undelivered request shows as a reply channel
//! that closes without a value, and so does a dispatcher that has stopped or a
//! task that was dropped before it finished. The caller sees one error for all
//! of them.

use vstd::prelude::*;
use vstd::string::*;
use vstd::std_specs::convert::FromSpec;
use crate::dispatch::{after_signal, spec_poll, Dispatcher, Incoming, KeepSignal, Phase, Step};
use crate::outside::{
    base_recv_error_text, base_recv_error_to_string, connect_error_text, connect_error_to_string,
    listener_error_text, listener_error_to_string,
};

verus! {

/// Why a reply channel gave no value.
#[derive(Debug)]
pub enum ReplyError {
    /// The sender was dropped without sending a value.
    Closed,
    /// Receiving from a remote endpoint failed.
    RemoteReceive(remoc::rch::base::RecvError),
    /// Connecting a sent channel failed.
    RemoteConnect(remoc::chmux::ConnectError),
    /// Listening for a connection from a received channel failed.
    RemoteListen(remoc::chmux::ListenerError),
}

/// An error occurred during calling a remote function.
#[derive(Debug)]
pub enum CallError {
    /// The call could not be served: the provider was dropped, or the task
    /// that ran the function went away before it finished.
    Dropped,
    /// Receiving from a remote endpoint failed.
    RemoteReceive(remoc::rch::base::RecvError),
    /// Connecting a sent channel failed.
    RemoteConnect(remoc::chmux::ConnectError),
    /// Listening for a connection from a received channel failed.
    RemoteListen(remoc::chmux::ListenerError),
}

impl Clone for ReplyError {
    fn clone(&self) -> (copy: Self)
        ensures
            copy == *self,
    {
        match self {
            ReplyError::Closed => ReplyError::Closed,
            ReplyError::RemoteReceive(err) => ReplyError::RemoteReceive(err.clone()),
            ReplyError::RemoteConnect(err) => ReplyError::RemoteConnect(err.clone()),
            ReplyError::RemoteListen(err) => ReplyError::RemoteListen(err.clone()),
        }
    }
}

impl Clone for CallError {
    fn clone(&self) -> (copy: Self)
        ensures
            copy == *self,
    {
        match self {
            CallError::Dropped => CallError::Dropped,
            CallError::RemoteReceive(err) => CallError::RemoteReceive(err.clone()),
            CallError::RemoteConnect(err) => CallError::RemoteConnect(err.clone()),
            CallError::RemoteListen(err) => CallError::RemoteListen(err.clone()),
        }
    }
}

/// The error of a call whose reply channel failed with `err`.
pub open spec fn call_error_of(err: ReplyError) -> CallError {
    match err {
        ReplyError::Closed => CallError::Dropped,
        ReplyError::RemoteReceive(err) => CallError::RemoteReceive(err),
        ReplyError::RemoteConnect(err) => CallError::RemoteConnect(err),
        ReplyError::RemoteListen(err) => CallError::RemoteListen(err),
    }
}

impl From<ReplyError> for CallError {
    fn from(err: ReplyError) -> (call_error: Self) {
        match err {
            ReplyError::Closed => CallError::Dropped,
            ReplyError::RemoteReceive(err) => CallError::RemoteReceive(err),
            ReplyError::RemoteConnect(err) => CallError::RemoteConnect(err),
            ReplyError::RemoteListen(err) => CallError::RemoteListen(err),
        }
    }
}

impl vstd::std_specs::convert::FromSpecImpl<ReplyError> for CallError {
    open spec fn obeys_from_spec() -> bool {
        true
    }

    open spec fn from_spec(err: ReplyError) -> Self {
        call_error_of(err)
    }
}

impl CallError {
    /// The text of the error.
    pub open spec fn spec_message(self) -> Seq<char> {
        match self {
            CallError::Dropped => "provider dropped or function panicked"@,
            CallError::RemoteReceive(err) => "receive error: "@ + base_recv_error_text(err),
            CallError::RemoteConnect(err) => "connect error: "@ + connect_error_text(err),
            CallError::RemoteListen(err) => "listen error: "@ + listener_error_text(err),
        }
    }

    /// The text of the error, as the error displays itself.
    pub fn message(&self) -> (text: String)
        ensures
            text@ == self.spec_message(),
    {
        match self {
            CallError::Dropped => String::from_str("provider dropped or function panicked"),
            CallError::RemoteReceive(err) => {
                let detail = base_recv_error_to_string(err);
                String::from_str("receive error: ").concat(detail.as_str())
            },
            CallError::RemoteConnect(err) => {
                let detail = connect_error_to_string(err);
                String::from_str("connect error: ").concat(detail.as_str())
            },
            CallError::RemoteListen(err) => {
                let detail = listener_error_to_string(err);
                String::from_str("listen error: ").concat(detail.as_str())
            },
        }
    }
}

/// The result of a call, given what the reply channel gave.
pub open spec fn call_outcome<R>(reply: Result<R, ReplyError>) -> Result<R, CallError> {
    match reply {
        Ok(value) => Ok(value),
        Err(err) => Err(call_error_of(err)),
    }
}

/// Provides a remotely callable function: the state of the dispatcher task
/// that stands behind every handle of one function.
///
/// Once the provider is done, the function is no longer available for calls.
#[derive(Debug)]
pub struct RFnProvider {
    dispatcher: Dispatcher,
}

impl View for RFnProvider {
    type V = Phase;

    closed spec fn view(&self) -> Phase {
        self.dispatcher@
    }
}

impl RFnProvider {
    /// Keeps the provider alive until it is not required anymore: from now on
    /// it stops only when every handle is gone.
    pub fn keep(&mut self)
        ensures
            final(self)@ == after_signal(old(self)@, KeepSignal::Keep),
    {
        self.dispatcher.signal(KeepSignal::Keep);
    }

    /// Whether the provider can be safely dropped: its dispatcher has stopped,
    /// so that no call can be served any more.
    pub fn done(&self) -> (done: bool)
        ensures
            done == (self@ == Phase::Exited),
    {
        self.dispatcher.has_exited()
    }

    /// Decides what the dispatcher task does with what its two sources show.
    pub fn poll<T>(&mut self, keep: KeepSignal, incoming: Option<Incoming<T>>) -> (step: Step<T>)
        ensures
            (final(self)@, step) == spec_poll(old(self)@, keep, incoming),
    {
        self.dispatcher.poll(keep, incoming)
    }
}

/// Calls a function possibly located on a remote endpoint.
///
/// The handle can be cloned and used by many callers at once. Every call gets
/// a task and a reply channel of its own.
#[derive(Debug, Clone, Copy)]
pub struct RFn {}

impl RFn {
    /// Create a new remote function whose provider is kept from the start.
    pub fn new() -> (made: (Self, RFnProvider))
        ensures
            made.1@ == Phase::Kept,
    {
        let (rfn, mut provider) = Self::provided();
        provider.keep();
        (rfn, provider)
    }

    /// Create a new remote function and return it with its provider.
    pub fn provided() -> (made: (Self, RFnProvider))
        ensures
            made.1@ == Phase::Watching,
    {
        (RFn {  }, RFnProvider { dispatcher: Dispatcher::new() })
    }

    /// Try to call the remote function: the result of the call, once the reply
    /// channel has given `reply`.
    ///
    /// `delivered` tells whether the request could be handed to the request
    /// channel. It has no part in the result.
    pub fn try_call<R>(&self, delivered: bool, reply: Result<R, ReplyError>) -> (result: Result<
        R,
        CallError,
    >)
        ensures
            result == call_outcome(reply),
    {
        let _ = delivered;
        match reply {
            Ok(value) => Ok(value),
            Err(err) => Err(CallError::from(err)),
        }
    }

    /// Call the remote function, whose own result is fallible: the error of
    /// the call is folded into the error type of the function.
    pub fn call<RT, RE: From<CallError>>(
        &self,
        delivered: bool,
        reply: Result<Result<RT, RE>, ReplyError>,
    ) -> (result: Result<RT, RE>)
        ensures
            match reply {
                Ok(answer) => result == answer,
                Err(err) => result is Err && (RE::obeys_from_spec() ==> result == Err::<RT, RE>(
                    RE::from_spec(call_error_of(err)),
                )),
            },
    {
        match self.try_call(delivered, reply) {
            Ok(Ok(value)) => Ok(value),
            Ok(Err(err)) => Err(err),
            Err(err) => Err(RE::from(err)),
        }
    }
}

/// A clone is as good as the handle it was made from: the rules of a call
/// depend on the reply alone, and cannot tell one handle from another.
pub proof fn law_handles_are_alike(handle: RFn, clone: RFn)
    ensures
        handle == clone,
{
}

/// A request that the dispatcher dropped is answered by a closed reply
/// channel, and the caller sees the one error that stands for "could not be
/// served", whether or not the request was delivered.
pub proof fn law_unserved_call_is_dropped<R>()
    ensures
        call_outcome::<R>(Err(ReplyError::Closed)) == Err::<R, CallError>(CallError::Dropped),
{
}

/// A reply that arrives is the result of the call, unchanged.
pub proof fn law_reply_is_result<R>(value: R)
    ensures
        call_outcome::<R>(Ok(value)) == Ok::<R, CallError>(value),
{
}

} // verus!
