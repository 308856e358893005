//! Errors of connecting a channel that was sent to a remote endpoint.

use vstd::prelude::*;
use vstd::string::*;
use crate::outside::{
    connect_error_text, connect_error_to_string, listener_error_text, listener_error_to_string,
};

verus! {

/// Error connecting a remote channel.
#[derive(Debug)]
pub enum ChannelConnectError {
    /// The corresponding sender or receiver has been dropped.
    Dropped,
    /// Error initiating chmux connection.
    Connect(remoc::chmux::ConnectError),
    /// Error listening for or accepting chmux connection.
    Listen(remoc::chmux::ListenerError),
}

impl Clone for ChannelConnectError {
    fn clone(&self) -> (copy: Self)
        ensures
            copy == *self,
    {
        match self {
            ChannelConnectError::Dropped => ChannelConnectError::Dropped,
            ChannelConnectError::Connect(err) => ChannelConnectError::Connect(err.clone()),
            ChannelConnectError::Listen(err) => ChannelConnectError::Listen(err.clone()),
        }
    }
}

impl ChannelConnectError {
    /// The text of the error.
    pub open spec fn spec_message(self) -> Seq<char> {
        match self {
            ChannelConnectError::Dropped => "other part was dropped"@,
            ChannelConnectError::Connect(err) => "connect error: "@ + connect_error_text(err),
            ChannelConnectError::Listen(err) => "listen error: "@ + listener_error_text(err),
        }
    }

    /// The text of the error, as the error displays itself.
    pub fn message(&self) -> (text: String)
        ensures
            text@ == self.spec_message(),
    {
        match self {
            ChannelConnectError::Dropped => String::from_str("other part was dropped"),
            ChannelConnectError::Connect(err) => {
                let detail = connect_error_to_string(err);
                String::from_str("connect error: ").concat(detail.as_str())
            },
            ChannelConnectError::Listen(err) => {
                let detail = listener_error_to_string(err);
                String::from_str("listen error: ").concat(detail.as_str())
            },
        }
    }
}

} // verus!
