//! The values and functions of `remoc` and `bytes` that the core builds on.
//!
//! Nothing in this file is proved. Each contract states what the named outside
//! function does, as its source shows it.

use vstd::prelude::*;

verus! {

/// `remoc::chmux::ConnectError`, carried as it is.
#[verifier::external_type_specification]
#[verifier::external_body]
pub struct ExChmuxConnectError(remoc::chmux::ConnectError);

/// `remoc::chmux::ListenerError`, carried as it is.
#[verifier::external_type_specification]
#[verifier::external_body]
pub struct ExChmuxListenerError(remoc::chmux::ListenerError);

/// `remoc::chmux::RecvError`, carried as it is.
#[verifier::external_type_specification]
#[verifier::external_body]
pub struct ExChmuxRecvError(remoc::chmux::RecvError);

/// `remoc::rch::base::RecvError`, carried as it is.
#[verifier::external_type_specification]
#[verifier::external_body]
pub struct ExBaseRecvError(remoc::rch::base::RecvError);

/// `remoc::rch::base::SendErrorKind`, carried as it is.
#[verifier::external_type_specification]
#[verifier::external_body]
pub struct ExSendErrorKind(remoc::rch::base::SendErrorKind);

/// `remoc::chmux::DataBuf`: the buffer that a stream hands out for one message.
#[verifier::external_type_specification]
#[verifier::external_body]
pub struct ExDataBuf(remoc::chmux::DataBuf);

/// `bytes::Bytes`: a cheaply clonable buffer of bytes.
#[verifier::external_type_specification]
#[verifier::external_body]
pub struct ExBytes(bytes::Bytes);

/// `remoc::chmux::Receiver`: the receiving half of a live binary stream.
#[verifier::external_type_specification]
#[verifier::external_body]
pub struct ExChmuxReceiver(remoc::chmux::Receiver);

/// The most bytes that a `remoc::chmux::Receiver` takes for one message: what
/// its `max_data_size` returns.
pub uninterp spec fn receiver_max_data_size(stream: remoc::chmux::Receiver) -> usize;

/// The local port of a `remoc::chmux::Receiver`: what its `local_port`
/// returns.
pub uninterp spec fn receiver_local_port(stream: remoc::chmux::Receiver) -> u32;

/// The remote port of a `remoc::chmux::Receiver`: what its `remote_port`
/// returns.
pub uninterp spec fn receiver_remote_port(stream: remoc::chmux::Receiver) -> u32;

/// The bytes that a `bytes::Bytes` holds.
pub uninterp spec fn bytes_view(data: bytes::Bytes) -> Seq<u8>;

/// The bytes that a `remoc::chmux::DataBuf` holds, in order.
pub uninterp spec fn data_buf_view(buf: remoc::chmux::DataBuf) -> Seq<u8>;

/// What `Display` writes for a `remoc::chmux::ConnectError`.
pub uninterp spec fn connect_error_text(err: remoc::chmux::ConnectError) -> Seq<char>;

/// What `Display` writes for a `remoc::chmux::ListenerError`.
pub uninterp spec fn listener_error_text(err: remoc::chmux::ListenerError) -> Seq<char>;

/// What `Display` writes for a `remoc::chmux::RecvError`.
pub uninterp spec fn recv_error_text(err: remoc::chmux::RecvError) -> Seq<char>;

/// What `Display` writes for a `remoc::rch::base::RecvError`.
pub uninterp spec fn base_recv_error_text(err: remoc::rch::base::RecvError) -> Seq<char>;

/// What `Display` writes for a `remoc::rch::base::SendErrorKind`.
pub uninterp spec fn send_error_kind_text(kind: remoc::rch::base::SendErrorKind) -> Seq<char>;

/// What `remoc::rch::base::SendErrorKind::is_disconnected` answers.
pub uninterp spec fn send_error_kind_disconnected(kind: remoc::rch::base::SendErrorKind) -> bool;

/// `Display` of `remoc::chmux::ConnectError`: the text is a function of the
/// error alone.
#[verifier::external_body]
pub(crate) fn connect_error_to_string(err: &remoc::chmux::ConnectError) -> (text: String)
    ensures
        text@ == connect_error_text(*err),
{
    err.to_string()
}

/// `Display` of `remoc::chmux::ListenerError`: the text is a function of the
/// error alone.
#[verifier::external_body]
pub(crate) fn listener_error_to_string(err: &remoc::chmux::ListenerError) -> (text: String)
    ensures
        text@ == listener_error_text(*err),
{
    err.to_string()
}

/// `Display` of `remoc::chmux::RecvError`: the text is a function of the error
/// alone.
#[verifier::external_body]
pub(crate) fn recv_error_to_string(err: &remoc::chmux::RecvError) -> (text: String)
    ensures
        text@ == recv_error_text(*err),
{
    err.to_string()
}

/// `Display` of `remoc::rch::base::RecvError`: the text is a function of the
/// error alone.
#[verifier::external_body]
pub(crate) fn base_recv_error_to_string(err: &remoc::rch::base::RecvError) -> (text: String)
    ensures
        text@ == base_recv_error_text(*err),
{
    err.to_string()
}

/// `Display` of `remoc::rch::base::SendErrorKind`: the text is a function of
/// the error alone.
#[verifier::external_body]
pub(crate) fn send_error_kind_to_string(kind: &remoc::rch::base::SendErrorKind) -> (text: String)
    ensures
        text@ == send_error_kind_text(*kind),
{
    kind.to_string()
}

/// `remoc::rch::base::SendErrorKind::is_disconnected`: whether the failure is
/// one of the channel rather than of the item; a function of the error alone.
pub assume_specification[ remoc::rch::base::SendErrorKind::is_disconnected ](
    kind: &remoc::rch::base::SendErrorKind,
) -> (disconnected: bool)
    ensures
        disconnected == send_error_kind_disconnected(*kind),
;

/// `remoc::chmux::Receiver::set_max_data_size`: from now on the receiver takes
/// at most `max_data_size` bytes for one message. The call assigns this one
/// limit: the receiver stays on its two ports.
pub assume_specification[ remoc::chmux::Receiver::set_max_data_size ](
    stream: &mut remoc::chmux::Receiver,
    max_data_size: usize,
)
    ensures
        receiver_max_data_size(*final(stream)) == max_data_size,
        receiver_local_port(*final(stream)) == receiver_local_port(*old(stream)),
        receiver_remote_port(*final(stream)) == receiver_remote_port(*old(stream)),
;

/// `bytes::Bytes::len`: the number of bytes held.
pub assume_specification[ bytes::Bytes::len ](data: &bytes::Bytes) -> (len: usize)
    ensures
        len == bytes_view(*data).len(),
;

/// `Clone` of `bytes::Bytes`: the copy holds the same bytes.
pub assume_specification[ <bytes::Bytes as Clone>::clone ](data: &bytes::Bytes) -> (copy:
    bytes::Bytes)
    ensures
        bytes_view(copy) == bytes_view(*data),
;

/// `Clone` of `remoc::chmux::DataBuf` (derived): the copy holds the same
/// bytes.
pub assume_specification[ <remoc::chmux::DataBuf as Clone>::clone ](
    buf: &remoc::chmux::DataBuf,
) -> (copy: remoc::chmux::DataBuf)
    ensures
        data_buf_view(copy) == data_buf_view(*buf),
;

/// `Clone` of `remoc::rch::base::RecvError` (derived): the copy equals the
/// error it was made from.
pub assume_specification[ <remoc::rch::base::RecvError as Clone>::clone ](
    err: &remoc::rch::base::RecvError,
) -> (copy: remoc::rch::base::RecvError)
    ensures
        copy == *err,
;

/// `Clone` of `remoc::rch::base::SendErrorKind` (derived): the copy equals the
/// error it was made from.
pub assume_specification[ <remoc::rch::base::SendErrorKind as Clone>::clone ](
    kind: &remoc::rch::base::SendErrorKind,
) -> (copy: remoc::rch::base::SendErrorKind)
    ensures
        copy == *kind,
;

/// `Clone` of `remoc::chmux::ConnectError` (derived): the copy equals the
/// error it was made from.
pub assume_specification[ <remoc::chmux::ConnectError as Clone>::clone ](
    err: &remoc::chmux::ConnectError,
) -> (copy: remoc::chmux::ConnectError)
    ensures
        copy == *err,
;

/// `Clone` of `remoc::chmux::ListenerError` (derived): the copy equals the
/// error it was made from.
pub assume_specification[ <remoc::chmux::ListenerError as Clone>::clone ](
    err: &remoc::chmux::ListenerError,
) -> (copy: remoc::chmux::ListenerError)
    ensures
        copy == *err,
;

/// `Clone` of `remoc::chmux::RecvError` (derived): the copy equals the
/// error it was made from.
pub assume_specification[ <remoc::chmux::RecvError as Clone>::clone ](
    err: &remoc::chmux::RecvError,
) -> (copy: remoc::chmux::RecvError)
    ensures
        copy == *err,
;

} // verus!
