//! The dispatcher behind a handle: which request it accepts, and when it stops.
//!
//! A dispatcher watches two sources. The keep-alive signal tells whether its
//! owner decided to keep it or let go of it; the request channel brings the
//! work. Whenever one of them is ready the shell calls [`Dispatcher::poll`] with
//! what it observed and carries out the [`Step`] it gets back. The shutdown
//! condition is always looked at first: once the owner has let go, no request
//! is accepted any more, even one that is ready at the same moment.

use vstd::prelude::*;

verus! {

/// How many requests the channel between the handles and their dispatcher
/// holds: one, however many callers there are.
pub const REQUEST_CAPACITY: usize = 1;

/// What the keep-alive signal shows at the moment of a poll.
#[derive(Debug, Clone, Copy, PartialEq, Eq, Structural)]
pub enum KeepSignal {
    /// The owner has not decided yet.
    Pending,
    /// The owner asked to stay alive for as long as a handle exists.
    Keep,
    /// The owner went away without asking to stay alive.
    Released,
}

/// What the request channel shows at the moment of a poll.
#[derive(Debug)]
pub enum Incoming<T> {
    /// A request arrived.
    Request(T),
    /// Every handle is gone: no request will ever arrive.
    Closed,
    /// Receiving failed; the channel may still bring requests.
    Failed,
}

/// What the shell does after a poll.
#[derive(Debug)]
pub enum Step<T> {
    /// Start one independent task for this request.
    Spawn(T),
    /// Nothing to do; poll again when a source becomes ready.
    Idle,
    /// Stop: the dispatcher task ends, and with it both sources are dropped.
    Exit,
}

/// Where a dispatcher stands in its life.
#[derive(Debug, Clone, Copy, PartialEq, Eq, Structural)]
pub enum Phase {
    /// Serving, and watching the keep-alive signal.
    Watching,
    /// Serving until every handle is gone; the keep-alive signal is settled.
    Kept,
    /// Stopped for good.
    Exited,
}

/// One round of observations: the keep-alive signal and the request channel.
pub struct Observation<T> {
    /// What the keep-alive signal shows.
    pub keep: KeepSignal,
    /// What the request channel shows, if it is ready.
    pub incoming: Option<Incoming<T>>,
}

/// The phase after looking at the keep-alive signal alone.
pub open spec fn after_signal(phase: Phase, keep: KeepSignal) -> Phase {
    match (phase, keep) {
        (Phase::Watching, KeepSignal::Keep) => Phase::Kept,
        (Phase::Watching, KeepSignal::Released) => Phase::Exited,
        _ => phase,
    }
}

/// One poll: the next phase and the step to carry out.
///
/// The signal is applied first. A dispatcher that has not stopped by then
/// accepts the request that is ready, stops when the channel is closed, and
/// otherwise stays as it is.
pub open spec fn spec_poll<T>(phase: Phase, keep: KeepSignal, incoming: Option<Incoming<T>>) -> (
    Phase,
    Step<T>,
) {
    let settled = after_signal(phase, keep);
    if settled == Phase::Exited {
        (Phase::Exited, Step::Exit)
    } else {
        match incoming {
            Some(Incoming::Request(request)) => (settled, Step::Spawn(request)),
            Some(Incoming::Closed) => (Phase::Exited, Step::Exit),
            Some(Incoming::Failed) => (settled, Step::Idle),
            None => (settled, Step::Idle),
        }
    }
}

/// The requests that a sequence of observations carries, in order.
pub open spec fn offered<T>(trace: Seq<Observation<T>>) -> Seq<T>
    decreases trace.len(),
{
    if trace.len() == 0 {
        Seq::empty()
    } else {
        let earlier = offered(trace.drop_last());
        match trace.last().incoming {
            Some(Incoming::Request(request)) => earlier.push(request),
            _ => earlier,
        }
    }
}

/// A dispatcher polled with each observation of `trace` in turn: the phase it
/// ends in, and the requests for which it started a task, in order.
pub open spec fn run<T>(phase: Phase, trace: Seq<Observation<T>>) -> (Phase, Seq<T>)
    decreases trace.len(),
{
    if trace.len() == 0 {
        (phase, Seq::empty())
    } else {
        let (before, spawned) = run(phase, trace.drop_last());
        let (after, step) = spec_poll(before, trace.last().keep, trace.last().incoming);
        match step {
            Step::Spawn(request) => (after, spawned.push(request)),
            _ => (after, spawned),
        }
    }
}

/// Whether some observation of `trace` shows the request channel closed.
pub open spec fn sees_closed<T>(trace: Seq<Observation<T>>) -> bool {
    exists|i: int| 0 <= i < trace.len() && (#[trigger] trace[i]).incoming == Some(Incoming::<T>::Closed)
}

/// The state of one dispatcher task.
#[derive(Debug)]
pub struct Dispatcher {
    phase: Phase,
}

impl View for Dispatcher {
    type V = Phase;

    closed spec fn view(&self) -> Phase {
        self.phase
    }
}

impl Dispatcher {
    /// A dispatcher that serves and watches the keep-alive signal.
    pub fn new() -> (dispatcher: Self)
        ensures
            dispatcher@ == Phase::Watching,
    {
        Dispatcher { phase: Phase::Watching }
    }

    /// The phase the dispatcher is in.
    pub fn phase(&self) -> (phase: Phase)
        ensures
            phase == self@,
    {
        self.phase
    }

    /// Whether the dispatcher has stopped for good.
    pub fn has_exited(&self) -> (exited: bool)
        ensures
            exited == (self@ == Phase::Exited),
    {
        match self.phase {
            Phase::Exited => true,
            _ => false,
        }
    }

    /// Settles the keep-alive signal without looking at the request channel.
    pub fn signal(&mut self, keep: KeepSignal)
        ensures
            final(self)@ == after_signal(old(self)@, keep),
    {
        match (self.phase, keep) {
            (Phase::Watching, KeepSignal::Keep) => {
                self.phase = Phase::Kept;
            },
            (Phase::Watching, KeepSignal::Released) => {
                self.phase = Phase::Exited;
            },
            _ => {},
        }
    }

    /// Decides what to do with what the two sources show.
    ///
    /// A request handed in is either returned inside [`Step::Spawn`] or
    /// dropped: it is dropped exactly when the dispatcher has stopped.
    pub fn poll<T>(&mut self, keep: KeepSignal, incoming: Option<Incoming<T>>) -> (step: Step<T>)
        ensures
            (final(self)@, step) == spec_poll(old(self)@, keep, incoming),
    {
        self.signal(keep);
        if self.has_exited() {
            return Step::Exit;
        }
        match incoming {
            Some(Incoming::Request(request)) => Step::Spawn(request),
            Some(Incoming::Closed) => {
                self.phase = Phase::Exited;
                Step::Exit
            },
            Some(Incoming::Failed) => Step::Idle,
            None => Step::Idle,
        }
    }
}

/// Shutdown has priority: a dispatcher whose owner went away without keeping it
/// stops at the next poll, whatever the request channel shows, and takes no
/// request with it.
pub proof fn law_release_has_priority<T>(incoming: Option<Incoming<T>>)
    ensures
        spec_poll(Phase::Watching, KeepSignal::Released, incoming) == (Phase::Exited, Step::<T>::Exit),
{
}

/// A dispatcher that has stopped stays stopped and starts nothing, whatever it
/// is shown afterwards.
pub proof fn law_exit_is_final<T>(trace: Seq<Observation<T>>)
    ensures
        run(Phase::Exited, trace) == (Phase::Exited, Seq::<T>::empty()),
    decreases trace.len(),
{
    if trace.len() > 0 {
        law_exit_is_final(trace.drop_last());
    }
}

/// A dispatcher that has not stopped accepts the request that is ready, unless
/// the same poll brings the news that its owner let go of it.
pub proof fn law_running_serves<T>(phase: Phase, keep: KeepSignal, request: T)
    requires
        phase != Phase::Exited,
        !(phase == Phase::Watching && keep == KeepSignal::Released),
    ensures
        spec_poll(phase, keep, Some(Incoming::Request(request))).1 == Step::Spawn(request),
        spec_poll(phase, keep, Some(Incoming::Request(request))).0 != Phase::Exited,
{
}

/// Once kept, the keep-alive signal no longer matters: the dispatcher behaves
/// as if the signal were still pending.
pub proof fn law_kept_ignores_signal<T>(keep: KeepSignal, incoming: Option<Incoming<T>>)
    ensures
        spec_poll(Phase::Kept, keep, incoming) == spec_poll(Phase::Kept, KeepSignal::Pending, incoming),
{
}

/// To keep and then poll is to poll with the keep signal.
pub proof fn law_keep_then_poll<T>(incoming: Option<Incoming<T>>)
    ensures
        spec_poll(Phase::Watching, KeepSignal::Keep, incoming) == spec_poll(
            after_signal(Phase::Watching, KeepSignal::Keep),
            KeepSignal::Pending,
            incoming,
        ),
{
}

/// At most one task per request, and none for a request that was never made:
/// the requests for which tasks were started are the first of the requests that
/// were offered, each once and in the order in which they came. While the
/// dispatcher has not stopped, they are all of them.
pub proof fn law_one_task_per_request<T>(phase: Phase, trace: Seq<Observation<T>>)
    ensures
        run(phase, trace).1.is_prefix_of(offered(trace)),
        run(phase, trace).0 != Phase::Exited ==> run(phase, trace).1 == offered(trace),
    decreases trace.len(),
{
    if trace.len() > 0 {
        law_one_task_per_request(phase, trace.drop_last());
    }
}

/// A kept dispatcher serves every request for as long as a handle exists:
/// until the request channel is seen closed, each request offered gets its
/// task, whatever the keep-alive signal shows.
pub proof fn law_kept_serves_all<T>(trace: Seq<Observation<T>>)
    requires
        !sees_closed(trace),
    ensures
        run(Phase::Kept, trace) == (Phase::Kept, offered(trace)),
    decreases trace.len(),
{
    if trace.len() > 0 {
        let earlier = trace.drop_last();
        assert forall|i: int| 0 <= i < earlier.len() implies (#[trigger] earlier[i]).incoming != Some(
            Incoming::<T>::Closed,
        ) by {
            assert(earlier[i] == trace[i]);
        }
        law_kept_serves_all(earlier);
    }
}

/// Polling through one sequence of observations and then through another is
/// polling through the two joined.
pub proof fn lemma_run_concat<T>(phase: Phase, first: Seq<Observation<T>>, second: Seq<Observation<T>>)
    ensures
        run(phase, first + second) == (
            run(run(phase, first).0, second).0,
            run(phase, first).1 + run(run(phase, first).0, second).1,
        ),
    decreases second.len(),
{
    if second.len() == 0 {
        assert(first + second =~= first);
    } else {
        lemma_run_concat(phase, first, second.drop_last());
        assert((first + second).drop_last() =~= first + second.drop_last());
    }
}

/// A dispatcher whose owner went away before the first poll starts no task at
/// all: every request made afterwards is dropped unanswered.
pub proof fn law_released_serves_none<T>(trace: Seq<Observation<T>>)
    requires
        trace.len() > 0,
        trace[0].keep == KeepSignal::Released,
    ensures
        run(Phase::Watching, trace) == (Phase::Exited, Seq::<T>::empty()),
    decreases trace.len(),
{
    if trace.len() == 1 {
        assert(run(Phase::Watching, trace.drop_last()) == (Phase::Watching, Seq::<T>::empty()));
    } else {
        law_released_serves_none(trace.drop_last());
    }
}

/// When the owner goes away without keeping the dispatcher, the tasks that
/// were started before stay started, and no request that comes with the news
/// or after it gets a task.
pub proof fn law_release_ends_service<T>(before: Seq<Observation<T>>, after: Seq<Observation<T>>)
    requires
        run(Phase::Watching, before).0 == Phase::Watching,
        after.len() > 0,
        after[0].keep == KeepSignal::Released,
    ensures
        run(Phase::Watching, before + after) == (Phase::Exited, run(Phase::Watching, before).1),
{
    lemma_run_concat(Phase::Watching, before, after);
    law_released_serves_none(after);
}

} // verus!
