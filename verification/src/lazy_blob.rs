//! Lazy transmission of large binary data.
//!
//! A handle carries only the declared length of the data. The bytes are
//! fetched when they are first asked for, and kept in a cell that every clone
//! of the handle shares. The cell is only touched under its lock, and the lock
//! is held for a whole fetch, so that one fetch serves every clone and every
//! caller: whoever finds the cell empty starts the fetch, whoever comes later
//! finds it in flight or resolved.

use vstd::prelude::*;
use vstd::string::*;
use crate::decimal::{decimal_digits, push_decimal};
use crate::dispatch::{after_signal, spec_poll, Dispatcher, Incoming, KeepSignal, Phase, Step};
use crate::outside::{
    bytes_view, data_buf_view, receiver_local_port, receiver_max_data_size, receiver_remote_port,
    recv_error_text, recv_error_to_string,
};
use crate::sync::ChannelConnectError;

verus! {

/// The size of the binary data exceeds [usize::MAX] on this platform.
#[derive(Debug, Clone, Copy, PartialEq, Eq, Structural)]
pub struct UsizeExceeded(pub u64);

impl UsizeExceeded {
    /// The text of the error.
    pub open spec fn spec_message(self) -> Seq<char> {
        "binary data ("@ + decimal_digits(self.0 as nat)
            + " bytes) exceeds maximum array size"@
    }

    /// The text of the error, as the error displays itself.
    pub fn message(&self) -> (text: String)
        ensures
            text@ == self.spec_message(),
    {
        let mut text = String::from_str("binary data (");
        push_decimal(&mut text, self.0);
        text.append(" bytes) exceeds maximum array size");
        text
    }
}

/// An error occured fetching the binary data from the remote endpoint.
#[derive(Debug)]
pub enum FetchError {
    /// The provider has been dropped.
    Dropped,
    /// The size of the binary data exceeds [usize::MAX] on this platform.
    Size(UsizeExceeded),
    /// Receiving the binary data from the remote endpoint failed.
    RemoteReceive(remoc::chmux::RecvError),
    /// Connecting a sent channel failed.
    RemoteConnect(ChannelConnectError),
}

impl Clone for FetchError {
    fn clone(&self) -> (copy: Self)
        ensures
            copy == *self,
    {
        match self {
            FetchError::Dropped => FetchError::Dropped,
            FetchError::Size(err) => FetchError::Size(*err),
            FetchError::RemoteReceive(err) => FetchError::RemoteReceive(err.clone()),
            FetchError::RemoteConnect(err) => FetchError::RemoteConnect(err.clone()),
        }
    }
}

impl From<UsizeExceeded> for FetchError {
    fn from(err: UsizeExceeded) -> (fetch_error: Self) {
        FetchError::Size(err)
    }
}

impl vstd::std_specs::convert::FromSpecImpl<UsizeExceeded> for FetchError {
    open spec fn obeys_from_spec() -> bool {
        true
    }

    open spec fn from_spec(err: UsizeExceeded) -> Self {
        FetchError::Size(err)
    }
}

impl FetchError {
    /// The text of the error.
    pub open spec fn spec_message(self) -> Seq<char> {
        match self {
            FetchError::Dropped => "provider was dropped"@,
            FetchError::Size(err) => err.spec_message(),
            FetchError::RemoteReceive(err) => "receive error: "@ + recv_error_text(err),
            FetchError::RemoteConnect(err) => "connect error: "@ + err.spec_message(),
        }
    }

    /// The text of the error, as the error displays itself.
    pub fn message(&self) -> (text: String)
        ensures
            text@ == self.spec_message(),
    {
        match self {
            FetchError::Dropped => String::from_str("provider was dropped"),
            FetchError::Size(err) => err.message(),
            FetchError::RemoteReceive(err) => {
                let detail = recv_error_to_string(err);
                String::from_str("receive error: ").concat(detail.as_str())
            },
            FetchError::RemoteConnect(err) => {
                let detail = err.message();
                String::from_str("connect error: ").concat(detail.as_str())
            },
        }
    }
}

/// What a fetch ends in: the data, or the error that ended it.
pub type FetchResult = Result<remoc::chmux::DataBuf, FetchError>;

/// Whether two results stand for the same resolution: the same bytes, or the
/// same error.
pub open spec fn same_resolution(a: FetchResult, b: FetchResult) -> bool {
    match (a, b) {
        (Ok(x), Ok(y)) => data_buf_view(x) == data_buf_view(y),
        (Err(e), Err(f)) => e == f,
        _ => false,
    }
}

/// The declared length as a local size, if it can be one.
pub open spec fn local_len(len: u64) -> Result<usize, UsizeExceeded> {
    if len <= usize::MAX {
        Ok(len as usize)
    } else {
        Err(UsizeExceeded(len))
    }
}

/// The state of the cell that the clones of one handle share.
#[derive(Debug)]
pub enum FetchState {
    /// Nobody has started a fetch.
    Empty,
    /// A fetch was started and has not ended.
    InFlight,
    /// The fetch has ended; this is what it ended in, for good.
    Resolved(FetchResult),
}

/// What the holder of the lock has to do before the cell can be read.
#[derive(Debug, Clone, Copy, PartialEq, Eq, Structural)]
pub enum FetchPlan {
    /// Start the one fetch, and let the stream take at most this many bytes.
    Start { max_data_size: usize },
    /// Wait for the fetch that is already in flight.
    Resume,
    /// Nothing: the cell is resolved.
    Done,
}

/// One attempt to fetch by a handle of declared length `len`: the state of the
/// cell afterwards and the plan, or the error that kept the attempt from
/// starting.
///
/// A length that cannot be a local size ends the fetch before it begins: the
/// cell is resolved to the size error, which is also what the attempt returns.
pub open spec fn spec_fetch(state: FetchState, len: u64) -> (FetchState, Result<FetchPlan, FetchError>) {
    match state {
        FetchState::Empty => match local_len(len) {
            Ok(size) => (FetchState::InFlight, Ok(FetchPlan::Start { max_data_size: size })),
            Err(err) => (FetchState::Resolved(Err(FetchError::Size(err))), Err(FetchError::Size(err))),
        },
        FetchState::InFlight => (FetchState::InFlight, Ok(FetchPlan::Resume)),
        FetchState::Resolved(result) => (FetchState::Resolved(result), Ok(FetchPlan::Done)),
    }
}

/// The end of the fetch in flight: the cell takes the result. A cell with no
/// fetch in flight stays as it is.
pub open spec fn spec_resolve(state: FetchState, result: FetchResult) -> FetchState {
    match state {
        FetchState::InFlight => FetchState::Resolved(result),
        _ => state,
    }
}

/// The cell in which the clones of one handle keep the fetched data.
#[derive(Debug)]
pub struct FetchCell {
    state: FetchState,
}

impl View for FetchCell {
    type V = FetchState;

    closed spec fn view(&self) -> FetchState {
        self.state
    }
}

impl Default for FetchCell {
    fn default() -> (cell: Self)
        ensures
            cell@ == FetchState::Empty,
    {
        FetchCell { state: FetchState::Empty }
    }
}

impl FetchCell {
    /// An empty cell.
    pub fn new() -> (cell: Self)
        ensures
            cell@ == FetchState::Empty,
    {
        FetchCell { state: FetchState::Empty }
    }

    /// Whether the fetch has ended.
    pub fn is_resolved(&self) -> (resolved: bool)
        ensures
            resolved == (self@ is Resolved),
    {
        match &self.state {
            FetchState::Resolved(_) => true,
            _ => false,
        }
    }

    /// Whether a fetch was started and has not ended.
    pub fn is_in_flight(&self) -> (in_flight: bool)
        ensures
            in_flight == (self@ is InFlight),
    {
        match &self.state {
            FetchState::InFlight => true,
            _ => false,
        }
    }

    /// Records the end of the fetch in flight.
    pub fn resolve(&mut self, result: FetchResult)
        ensures
            final(self)@ == spec_resolve(old(self)@, result),
    {
        if self.is_in_flight() {
            self.state = FetchState::Resolved(result);
        }
    }
}

/// What the provider of a blob is made of, as contracts see it.
pub struct ProviderState {
    /// Where its dispatcher stands.
    pub phase: Phase,
    /// The bytes it holds.
    pub data: Seq<u8>,
}

/// Holds the data for a [LazyBlob], together with the state of the dispatcher
/// task that hands it out.
///
/// Once the provider is done, the data is no longer available for fetching.
#[derive(Debug)]
pub struct Provider {
    data: bytes::Bytes,
    dispatcher: Dispatcher,
}

impl View for Provider {
    type V = ProviderState;

    closed spec fn view(&self) -> ProviderState {
        ProviderState { phase: self.dispatcher@, data: bytes_view(self.data) }
    }
}

impl Provider {
    /// Keeps the provider alive until it is not required anymore: from now on
    /// it stops only when every handle is gone.
    pub fn keep(&mut self)
        ensures
            final(self)@.phase == after_signal(old(self)@.phase, KeepSignal::Keep),
            final(self)@.data == old(self)@.data,
    {
        self.dispatcher.signal(KeepSignal::Keep);
    }

    /// Whether the provider can be safely dropped: its dispatcher has stopped,
    /// so that no fetch can be served any more.
    pub fn done(&self) -> (done: bool)
        ensures
            done == (self@.phase == Phase::Exited),
    {
        self.dispatcher.has_exited()
    }

    /// Decides what the dispatcher task does with what its two sources show.
    ///
    /// An accepted request comes back with a copy of the data of its own, for
    /// the task that will transfer it.
    pub fn poll<T>(&mut self, keep: KeepSignal, incoming: Option<Incoming<T>>) -> (step: Step<
        (T, bytes::Bytes),
    >)
        ensures
            final(self)@.data == old(self)@.data,
            final(self)@.phase == spec_poll(old(self)@.phase, keep, incoming).0,
            match spec_poll(old(self)@.phase, keep, incoming).1 {
                Step::Spawn(request) => step matches Step::Spawn(work) && work.0 == request
                    && bytes_view(work.1) == old(self)@.data,
                Step::Idle => step is Idle,
                Step::Exit => step is Exit,
            },
    {
        match self.dispatcher.poll(keep, incoming) {
            Step::Spawn(request) => Step::Spawn((request, self.data.clone())),
            Step::Idle => Step::Idle,
            Step::Exit => Step::Exit,
        }
    }
}

/// What a transfer task sends, and over which stream: the payload over the
/// stream that the request's placeholder was connected to. A placeholder that
/// was already taken, or a stream that could not be opened, ends the task with
/// nothing sent.
pub fn transfer<S, E>(payload: bytes::Bytes, stream: Option<Result<S, E>>) -> (sending: Option<
    (S, bytes::Bytes),
>)
    ensures
        match stream {
            Some(Ok(open)) => sending == Some((open, payload)),
            _ => sending is None,
        },
{
    match stream {
        Some(Ok(open)) => Some((open, payload)),
        _ => None,
    }
}

/// The stream that the requester's placeholder resolved to. A placeholder whose
/// other half was dropped without being connected means that the provider is
/// gone.
pub fn placeholder_stream<R>(resolved: Option<R>) -> (stream: Result<R, FetchError>)
    ensures
        match resolved {
            Some(open) => stream == Ok::<R, FetchError>(open),
            None => stream == Err::<R, FetchError>(FetchError::Dropped),
        },
{
    match resolved {
        Some(open) => Ok(open),
        None => Err(FetchError::Dropped),
    }
}

/// The live stream, once the transport has tried to connect it, set up to take
/// no more bytes than the handle declared: a peer that sends more than was
/// agreed is cut off by the stream. It is the stream that was handed in, on
/// the same two ports, with nothing but its limit changed.
pub fn connected_stream(
    connected: Result<remoc::chmux::Receiver, ChannelConnectError>,
    max_data_size: usize,
) -> (stream: Result<remoc::chmux::Receiver, FetchError>)
    ensures
        match connected {
            Ok(given) => stream matches Ok(open) && receiver_max_data_size(open) == max_data_size
                && receiver_local_port(open) == receiver_local_port(given)
                && receiver_remote_port(open) == receiver_remote_port(given),
            Err(err) => stream == Err::<remoc::chmux::Receiver, FetchError>(
                FetchError::RemoteConnect(err),
            ),
        },
{
    match connected {
        Ok(mut open) => {
            open.set_max_data_size(max_data_size);
            Ok(open)
        },
        Err(err) => Err(FetchError::RemoteConnect(err)),
    }
}

/// The result of a fetch, given what the one receive on the stream gave. A
/// stream that ends without a payload means that the provider is gone.
pub fn received_payload(
    received: Result<Option<remoc::chmux::DataBuf>, remoc::chmux::RecvError>,
) -> (result: FetchResult)
    ensures
        match received {
            Ok(Some(data)) => result == Ok::<remoc::chmux::DataBuf, FetchError>(data),
            Ok(None) => result == Err::<remoc::chmux::DataBuf, FetchError>(FetchError::Dropped),
            Err(err) => result == Err::<remoc::chmux::DataBuf, FetchError>(
                FetchError::RemoteReceive(err),
            ),
        },
{
    match received {
        Ok(Some(data)) => Ok(data),
        Ok(None) => Err(FetchError::Dropped),
        Err(err) => Err(FetchError::RemoteReceive(err)),
    }
}

/// Lazily transferred binary data.
///
/// The handle holds the length of the data, fixed when the blob was made. The
/// data itself is reached through the [`FetchCell`] that the clones of the
/// handle share.
#[derive(Debug, Clone, Copy)]
pub struct LazyBlob {
    len: u64,
}

impl View for LazyBlob {
    type V = u64;

    closed spec fn view(&self) -> u64 {
        self.len
    }
}

impl LazyBlob {
    /// Create a new LazyBlob with the specified data, whose provider is kept
    /// from the start.
    pub fn new(data: bytes::Bytes) -> (made: (Self, Provider))
        ensures
            made.0@ == bytes_view(data).len(),
            made.0@ <= usize::MAX,
            made.1@ == (ProviderState { phase: Phase::Kept, data: bytes_view(data) }),
    {
        let (lazy_blob, mut provider) = Self::provided(data);
        provider.keep();
        (lazy_blob, provider)
    }

    /// Create a new LazyBlob with the specified data and return it together
    /// with its provider.
    pub fn provided(data: bytes::Bytes) -> (made: (Self, Provider))
        ensures
            made.0@ == bytes_view(data).len(),
            made.0@ <= usize::MAX,
            made.1@ == (ProviderState { phase: Phase::Watching, data: bytes_view(data) }),
    {
        let len = data.len() as u64;
        let lazy_blob = LazyBlob { len };
        let provider = Provider { data, dispatcher: Dispatcher::new() };
        (lazy_blob, provider)
    }

    /// The handle of a blob of which only the declared length is known, as it
    /// arrives from a peer.
    pub fn from_declared_len(len: u64) -> (lazy_blob: Self)
        ensures
            lazy_blob@ == len,
    {
        LazyBlob { len }
    }

    /// The declared length, as it travels with the handle.
    pub fn declared_len(&self) -> (len: u64)
        ensures
            len == self@,
    {
        self.len
    }

    /// Returns true if the binary data has zero length.
    pub fn is_empty(&self) -> (empty: bool)
        ensures
            empty == (self@ == 0),
    {
        match self.len() {
            Ok(len) => len == 0,
            Err(_) => false,
        }
    }

    /// Returns the length of the binary data.
    ///
    /// This will not fetch the data.
    pub fn len(&self) -> (len: Result<usize, UsizeExceeded>)
        ensures
            len == local_len(self@),
    {
        if self.len <= usize::MAX as u64 {
            Ok(self.len as usize)
        } else {
            Err(UsizeExceeded(self.len))
        }
    }

    /// Decides, under the lock of the cell, what has to happen before the data
    /// can be read.
    ///
    /// Only an empty cell starts a fetch, and only if the declared length can
    /// be a local size. If it cannot, nothing is asked of the provider: the
    /// size error is returned and kept in the cell as what the fetch ended in,
    /// for every handle to see.
    pub fn fetch(&self, cell: &mut FetchCell) -> (plan: Result<FetchPlan, FetchError>)
        ensures
            (final(cell)@, plan) == spec_fetch(old(cell)@, self@),
    {
        if cell.is_resolved() {
            Ok(FetchPlan::Done)
        } else if cell.is_in_flight() {
            Ok(FetchPlan::Resume)
        } else {
            match self.len() {
                Ok(size) => {
                    cell.state = FetchState::InFlight;
                    Ok(FetchPlan::Start { max_data_size: size })
                },
                Err(err) => {
                    cell.state = FetchState::Resolved(Err(FetchError::from(err)));
                    Err(FetchError::from(err))
                },
            }
        }
    }

    /// Returns a copy of what the fetch ended in, and leaves the cell to the
    /// other handles.
    pub fn get(&self, cell: &FetchCell) -> (result: FetchResult)
        requires
            cell@ is Resolved,
        ensures
            same_resolution(result, cell@->Resolved_0),
    {
        match &cell.state {
            FetchState::Resolved(Ok(data)) => Ok(data.clone()),
            FetchState::Resolved(Err(err)) => Err(err.clone()),
            _ => vstd::pervasive::unreached(),
        }
    }

    /// Returns what the fetch ended in, taken out of a cell that no other
    /// handle shares: the data is moved, not copied.
    pub fn into_inner(self, cell: FetchCell) -> (result: FetchResult)
        requires
            cell@ is Resolved,
        ensures
            result == cell@->Resolved_0,
    {
        match cell.state {
            FetchState::Resolved(result) => result,
            _ => vstd::pervasive::unreached(),
        }
    }
}

/// What can happen to a cell: a handle of some declared length attempts a
/// fetch, or the fetch in flight ends.
pub enum CellEvent {
    /// A handle of declared length `len` attempts a fetch.
    Fetch { len: u64 },
    /// The fetch in flight ends in `result`.
    Resolve { result: FetchResult },
}

/// The cell after one event.
pub open spec fn cell_after(state: FetchState, event: CellEvent) -> FetchState {
    match event {
        CellEvent::Fetch { len } => spec_fetch(state, len).0,
        CellEvent::Resolve { result } => spec_resolve(state, result),
    }
}

/// Whether the event makes its caller start a fetch.
pub open spec fn starts_fetch(state: FetchState, event: CellEvent) -> bool {
    match event {
        CellEvent::Fetch { len } => spec_fetch(state, len).1 matches Ok(FetchPlan::Start { .. }),
        CellEvent::Resolve { .. } => false,
    }
}

/// The cell after a sequence of events.
pub open spec fn cell_run(state: FetchState, events: Seq<CellEvent>) -> FetchState
    decreases events.len(),
{
    if events.len() == 0 {
        state
    } else {
        cell_run(cell_after(state, events[0]), events.skip(1))
    }
}

/// How many fetches a sequence of events starts.
pub open spec fn fetches_started(state: FetchState, events: Seq<CellEvent>) -> nat
    decreases events.len(),
{
    if events.len() == 0 {
        0
    } else {
        let first: nat = if starts_fetch(state, events[0]) {
            1
        } else {
            0
        };
        first + fetches_started(cell_after(state, events[0]), events.skip(1))
    }
}

/// Single flight: whatever the handles do and in whatever order, a cell sees
/// at most one fetch started, and none once it has left the empty state.
pub proof fn law_single_flight(state: FetchState, events: Seq<CellEvent>)
    ensures
        fetches_started(state, events) <= 1,
        !(state is Empty) ==> fetches_started(state, events) == 0,
        !(state is Empty) ==> !(cell_run(state, events) is Empty),
    decreases events.len(),
{
    if events.len() > 0 {
        law_single_flight(cell_after(state, events[0]), events.skip(1));
    }
}

/// What a fetch ended in is what every handle sees from then on: the cell
/// keeps the result whatever happens afterwards, no further fetch is started,
/// and every attempt to fetch is told that there is nothing left to do.
pub proof fn law_resolution_is_final(result: FetchResult, events: Seq<CellEvent>, len: u64)
    ensures
        cell_run(FetchState::Resolved(result), events) == FetchState::Resolved(result),
        fetches_started(FetchState::Resolved(result), events) == 0,
        spec_fetch(cell_run(FetchState::Resolved(result), events), len) == (
            FetchState::Resolved(result),
            Ok::<FetchPlan, FetchError>(FetchPlan::Done),
        ),
    decreases events.len(),
{
    if events.len() > 0 {
        law_resolution_is_final(result, events.skip(1), len);
    }
}

/// Every handle gets the data: once the fetch has ended in a buffer, whatever
/// the handles do afterwards, a copy read from the cell holds the bytes of
/// that buffer.
pub proof fn law_every_get_returns_the_data(
    received: remoc::chmux::DataBuf,
    events: Seq<CellEvent>,
    copy: FetchResult,
)
    requires
        same_resolution(
            copy,
            cell_run(spec_resolve(FetchState::InFlight, Ok(received)), events)->Resolved_0,
        ),
    ensures
        cell_run(spec_resolve(FetchState::InFlight, Ok(received)), events) == FetchState::Resolved(
            Ok(received),
        ),
        copy matches Ok(data) && data_buf_view(data) == data_buf_view(received),
{
    law_resolution_is_final(Ok(received), events, 0);
}

/// A provider that is gone is remembered: once the fetch has ended with the
/// provider dropped, every handle is told so from then on, and nobody tries
/// again.
pub proof fn law_dropped_is_cached(events: Seq<CellEvent>, copy: FetchResult)
    requires
        same_resolution(
            copy,
            cell_run(spec_resolve(FetchState::InFlight, Err(FetchError::Dropped)), events)->Resolved_0,
        ),
    ensures
        cell_run(spec_resolve(FetchState::InFlight, Err(FetchError::Dropped)), events)
            == FetchState::Resolved(Err(FetchError::Dropped)),
        fetches_started(spec_resolve(FetchState::InFlight, Err(FetchError::Dropped)), events) == 0,
        copy == Err::<remoc::chmux::DataBuf, FetchError>(FetchError::Dropped),
{
    law_resolution_is_final(Err(FetchError::Dropped), events, 0);
}

/// The first result wins: a fetch in flight that ends in `result` resolves the
/// cell to `result`, and no later result replaces it.
pub proof fn law_first_result_wins(result: FetchResult, later: FetchResult)
    ensures
        spec_resolve(spec_resolve(FetchState::InFlight, result), later) == FetchState::Resolved(
            result,
        ),
{
}

/// A size that cannot be local is a terminal error like any other: the first
/// attempt resolves the cell to the size error and returns it, no fetch is
/// ever started, and whatever the handles do afterwards, a copy read from the
/// cell is that error.
pub proof fn law_oversize_is_terminal(len: u64, events: Seq<CellEvent>, copy: FetchResult)
    requires
        len > usize::MAX,
        same_resolution(copy, cell_run(spec_fetch(FetchState::Empty, len).0, events)->Resolved_0),
    ensures
        spec_fetch(FetchState::Empty, len) == (
            FetchState::Resolved(Err(FetchError::Size(UsizeExceeded(len)))),
            Err::<FetchPlan, FetchError>(FetchError::Size(UsizeExceeded(len))),
        ),
        cell_run(spec_fetch(FetchState::Empty, len).0, events) == FetchState::Resolved(
            Err(FetchError::Size(UsizeExceeded(len))),
        ),
        fetches_started(FetchState::Empty, seq![CellEvent::Fetch { len }] + events) == 0,
        copy == Err::<remoc::chmux::DataBuf, FetchError>(FetchError::Size(UsizeExceeded(len))),
{
    let error = Err::<remoc::chmux::DataBuf, FetchError>(FetchError::Size(UsizeExceeded(len)));
    law_resolution_is_final(error, events, len);
    let all = seq![CellEvent::Fetch { len }] + events;
    assert(all[0] == (CellEvent::Fetch { len }));
    assert(all.skip(1) =~= events);
}

} // verus!
