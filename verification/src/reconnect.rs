//! How the listener keeps its connection: when it connects, waits and stops.
use vstd::arithmetic::power2::{lemma2_to64, lemma_pow2_unfold, pow2};
use vstd::prelude::*;

use crate::client::{auth_failure, is_auth_failure};
use crate::error::AgentError;
use crate::text::contains_text;

verus! {

/// The first wait before the listener connects again, in milliseconds.
pub const FIRST_BACKOFF_MS: u64 = 1000;

/// The longest wait before the listener connects again, in milliseconds.
pub const MAX_BACKOFF_MS: u64 = 30_000;

/// What the listener is doing.
#[derive(Clone, Copy, Debug, PartialEq, Eq, Structural)]
pub enum Phase {
    /// It opens a connection.
    Connecting,
    /// It reads from the connection.
    Reading,
    /// It waits before it connects again.
    Waiting,
    /// It has stopped.
    Stopped,
}

/// What happens to the listener.
#[derive(Debug)]
pub enum Event {
    /// The connection is open.
    Connected,
    /// The connection could not be opened.
    ConnectFailed(AgentError),
    /// A text came.
    Text(String),
    /// Something other than a text came.
    OtherFrame,
    /// The connection failed.
    ReadFailed,
    /// The connection was closed.
    Ended,
    /// The wait is over.
    Waited,
    /// The listener is to stop.
    Shutdown,
}

/// What the listener does next.
#[derive(Debug)]
pub enum Action {
    /// Open a connection.
    Connect,
    /// Read from the connection.
    Read,
    /// Handle the text, then read from the connection.
    Deliver(String),
    /// Wait so many milliseconds.
    Wait(u64),
    /// Stop.
    Stop,
}

/// The state of the listener.
pub struct LoopView {
    pub phase: Phase,
    /// The next wait, in milliseconds.
    pub backoff_ms: int,
}

/// The wait that follows a wait: twice as long, up to the longest.
pub open spec fn next_backoff(backoff_ms: int) -> int {
    if 2 * backoff_ms < MAX_BACKOFF_MS {
        2 * backoff_ms
    } else {
        MAX_BACKOFF_MS as int
    }
}

/// The state after an event. An event that cannot come in a phase changes
/// nothing.
pub open spec fn after(state: LoopView, event: Event) -> LoopView {
    match (state.phase, event) {
        (Phase::Connecting, Event::Connected) => LoopView {
            phase: Phase::Reading,
            backoff_ms: FIRST_BACKOFF_MS as int,
        },
        (Phase::Connecting, Event::ConnectFailed(error)) => LoopView {
            phase: if auth_failure(error) {
                Phase::Stopped
            } else {
                Phase::Waiting
            },
            ..state
        },
        (Phase::Reading, Event::ReadFailed) => LoopView { phase: Phase::Waiting, ..state },
        (Phase::Reading, Event::Ended) => LoopView { phase: Phase::Waiting, ..state },
        (Phase::Reading, Event::Shutdown) => LoopView { phase: Phase::Stopped, ..state },
        (Phase::Waiting, Event::Shutdown) => LoopView { phase: Phase::Stopped, ..state },
        (Phase::Waiting, Event::Waited) => LoopView {
            phase: Phase::Connecting,
            backoff_ms: next_backoff(state.backoff_ms),
        },
        _ => state,
    }
}

/// `action` is what follows an event: what the new phase calls for, and for a
/// text that was read, that it is handled.
pub open spec fn follows(state: LoopView, event: Event, action: Action) -> bool {
    let next = after(state, event);
    match (state.phase, event) {
        (Phase::Reading, Event::Text(text)) => action == Action::Deliver(text),
        _ => match next.phase {
            Phase::Connecting => action is Connect,
            Phase::Reading => action is Read,
            Phase::Waiting => action matches Action::Wait(ms) && ms == next.backoff_ms,
            Phase::Stopped => action is Stop,
        },
    }
}

/// The state of a listener that starts.
pub open spec fn initial() -> LoopView {
    LoopView { phase: Phase::Connecting, backoff_ms: FIRST_BACKOFF_MS as int }
}

/// The listener's connection.
#[derive(Debug)]
pub struct ListenerLoop {
    phase: Phase,
    backoff_ms: u64,
}

impl View for ListenerLoop {
    type V = LoopView;

    closed spec fn view(&self) -> LoopView {
        LoopView { phase: self.phase, backoff_ms: self.backoff_ms as int }
    }
}

impl ListenerLoop {
    #[verifier::type_invariant]
    spec fn well_formed(self) -> bool {
        FIRST_BACKOFF_MS <= self.backoff_ms <= MAX_BACKOFF_MS
    }

    /// A listener that starts: it is to connect.
    pub fn new() -> (state: Self)
        ensures
            state@ == initial(),
    {
        ListenerLoop { phase: Phase::Connecting, backoff_ms: FIRST_BACKOFF_MS }
    }

    /// What the listener is doing.
    pub fn phase(&self) -> (phase: Phase)
        ensures
            phase == self@.phase,
    {
        self.phase
    }

    /// Takes an event in, and says what is to be done next. The next wait is
    /// never shorter than the first and never longer than the longest.
    pub fn step(&mut self, event: Event) -> (action: Action)
        ensures
            final(self)@ == after(old(self)@, event),
            follows(old(self)@, event, action),
            FIRST_BACKOFF_MS <= final(self)@.backoff_ms <= MAX_BACKOFF_MS,
    {
        proof {
            use_type_invariant(&*self);
        }
        match self.phase {
            Phase::Connecting => match event {
                Event::Connected => {
                    self.backoff_ms = FIRST_BACKOFF_MS;
                    self.phase = Phase::Reading;
                },
                Event::ConnectFailed(error) => {
                    if is_auth_failure(&error) {
                        self.phase = Phase::Stopped;
                    } else {
                        self.phase = Phase::Waiting;
                    }
                },
                _ => {},
            },
            Phase::Reading => match event {
                Event::Text(text) => {
                    return Action::Deliver(text);
                },
                Event::ReadFailed => {
                    self.phase = Phase::Waiting;
                },
                Event::Ended => {
                    self.phase = Phase::Waiting;
                },
                Event::Shutdown => {
                    self.phase = Phase::Stopped;
                },
                _ => {},
            },
            Phase::Waiting => match event {
                Event::Waited => {
                    let doubled: u64 = self.backoff_ms * 2;
                    self.backoff_ms = if doubled < MAX_BACKOFF_MS {
                        doubled
                    } else {
                        MAX_BACKOFF_MS
                    };
                    self.phase = Phase::Connecting;
                },
                Event::Shutdown => {
                    self.phase = Phase::Stopped;
                },
                _ => {},
            },
            Phase::Stopped => {},
        }
        match self.phase {
            Phase::Connecting => Action::Connect,
            Phase::Reading => Action::Read,
            Phase::Waiting => Action::Wait(self.backoff_ms),
            Phase::Stopped => Action::Stop,
        }
    }
}

/// The state after several events.
pub open spec fn after_all(state: LoopView, events: Seq<Event>) -> LoopView
    decreases events.len(),
{
    if events.len() == 0 {
        state
    } else {
        after(after_all(state, events.drop_last()), events.last())
    }
}

/// Whatever happens, the wait stays between one second and thirty.
pub proof fn law_backoff_stays_in_bounds(events: Seq<Event>)
    ensures
        FIRST_BACKOFF_MS <= after_all(initial(), events).backoff_ms <= MAX_BACKOFF_MS,
    decreases events.len(),
{
    if events.len() > 0 {
        law_backoff_stays_in_bounds(events.drop_last());
    }
}

/// A listener that has stopped does nothing more, whatever happens.
pub proof fn law_stopped_stays_stopped(state: LoopView, events: Seq<Event>)
    requires
        state.phase == Phase::Stopped,
    ensures
        after_all(state, events) == state,
    decreases events.len(),
{
    if events.len() > 0 {
        law_stopped_stays_stopped(state, events.drop_last());
    }
}

/// An authentication failure stops a listener that connects. Nothing else
/// stops a listener but being told to.
pub proof fn law_only_auth_failure_or_shutdown_stops(state: LoopView, event: Event)
    requires
        state.phase != Phase::Stopped,
    ensures
        after(state, event).phase == Phase::Stopped <==> {
            ||| state.phase == Phase::Connecting && event is ConnectFailed && auth_failure(
                event->ConnectFailed_0,
            )
            ||| state.phase != Phase::Connecting && event is Shutdown
        },
{
}

/// A listener that is told to stop does so at once, and for good, unless it
/// connects: then it makes no more than the attempt under way, and stops when it
/// is told to after that, whether the attempt succeeded or failed.
pub proof fn law_shutdown_stops(state: LoopView, attempt: Event, later: Seq<Event>)
    requires
        state.phase != Phase::Stopped,
        attempt is Connected || attempt is ConnectFailed,
    ensures
        state.phase != Phase::Connecting ==> after_all(
            after(state, Event::Shutdown),
            later,
        ).phase == Phase::Stopped,
        state.phase == Phase::Connecting ==> after_all(
            after(after(state, attempt), Event::Shutdown),
            later,
        ).phase == Phase::Stopped,
{
    if state.phase == Phase::Connecting {
        law_stopped_stays_stopped(after(after(state, attempt), Event::Shutdown), later);
    } else {
        law_stopped_stays_stopped(after(state, Event::Shutdown), later);
    }
}

/// A lost connection is opened again after the first wait, however often it
/// failed before.
pub proof fn law_connection_resets_the_wait(state: LoopView, lost: Event)
    requires
        state.phase == Phase::Connecting,
        lost is ReadFailed || lost is Ended,
    ensures
        after(after(state, Event::Connected), lost) == (LoopView {
            phase: Phase::Waiting,
            backoff_ms: FIRST_BACKOFF_MS as int,
        }),
{
}

/// The events of attempts that all fail, with the wait after each.
pub open spec fn failed_attempts(errors: Seq<AgentError>) -> Seq<Event>
    decreases errors.len(),
{
    if errors.len() == 0 {
        Seq::empty()
    } else {
        failed_attempts(errors.drop_last()).push(Event::ConnectFailed(errors.last())).push(
            Event::Waited,
        )
    }
}

/// The wait doubles with every attempt that fails, up to thirty seconds,
/// whatever came before: after `n` failures it is what it was times two to the
/// power of `n`.
pub proof fn law_backoff_is_exponential(state: LoopView, errors: Seq<AgentError>)
    requires
        state.phase == Phase::Connecting,
        FIRST_BACKOFF_MS <= state.backoff_ms <= MAX_BACKOFF_MS,
        forall|i: int| 0 <= i < errors.len() ==> !auth_failure(#[trigger] errors[i]),
    ensures
        ({
            let later = after_all(state, failed_attempts(errors));
            let exponential = state.backoff_ms * pow2(errors.len());
            &&& later.phase == Phase::Connecting
            &&& later.backoff_ms == if exponential < MAX_BACKOFF_MS {
                exponential
            } else {
                MAX_BACKOFF_MS as int
            }
        }),
    decreases errors.len(),
{
    let wait = state.backoff_ms;
    if errors.len() == 0 {
        lemma2_to64();
        assert(wait * 1 == wait);
    } else {
        let earlier = errors.drop_last();
        law_backoff_is_exponential(state, earlier);
        let before = failed_attempts(earlier);
        let failed = before.push(Event::ConnectFailed(errors.last()));
        let waited = failed.push(Event::Waited);
        assert(failed.drop_last() =~= before);
        assert(waited.drop_last() =~= failed);
        assert(!auth_failure(errors[errors.len() - 1]));
        assert(after_all(state, failed) == after(
            after_all(state, before),
            Event::ConnectFailed(errors.last()),
        ));
        lemma_pow2_unfold(errors.len());
        let power = pow2(earlier.len());
        assert(pow2(errors.len()) == 2 * power);
        assert(wait * (2 * power) == 2 * (wait * power)) by (nonlinear_arith);
    }
}

/// A listener that cannot connect stops where the error says "authentication
/// failed" or "HTTP 401", and otherwise waits and connects again, whatever the
/// error is.
pub proof fn law_only_a_refused_token_ends_the_retries(state: LoopView, error: AgentError)
    requires
        state.phase == Phase::Connecting,
    ensures
        ({
            let refused = contains_text(error.text(), "authentication failed"@) || contains_text(
                error.text(),
                "HTTP 401"@,
            );
            let next = after(state, Event::ConnectFailed(error));
            &&& refused ==> next.phase == Phase::Stopped
            &&& !refused ==> next.phase == Phase::Waiting && next.backoff_ms == state.backoff_ms
                && after(next, Event::Waited).phase == Phase::Connecting
        }),
{
}

/// A listener starts by connecting, and its first wait is one second.
pub proof fn law_listener_starts_connecting()
    ensures
        initial().phase == Phase::Connecting,
        initial().backoff_ms == 1000,
        FIRST_BACKOFF_MS == 1000,
        MAX_BACKOFF_MS == 30_000,
{
}

/// Each wait is followed by one of twice its length, or of thirty seconds where
/// that is shorter.
pub proof fn law_waits_double(state: LoopView)
    requires
        state.phase == Phase::Waiting,
    ensures
        ({
            let next = after(state, Event::Waited);
            &&& next.phase == Phase::Connecting
            &&& next.backoff_ms <= 30_000
            &&& next.backoff_ms <= 2 * state.backoff_ms || 2 * state.backoff_ms > 30_000
            &&& next.backoff_ms == 2 * state.backoff_ms || next.backoff_ms == 30_000 && 2
                * state.backoff_ms >= 30_000
        }),
{
}

/// A text that is read is handled as it is, and the listener reads on; so it does
/// after anything else that is read. A connection that is lost, for whatever
/// reason, is followed by a wait. Only while it reads does a listener handle texts.
pub proof fn law_every_text_is_handled(state: LoopView, event: Event, action: Action)
    requires
        follows(state, event, action),
    ensures
        state.phase == Phase::Reading && event is Text ==> action is Deliver && action->Deliver_0
            == event->Text_0 && after(state, event) == state,
        state.phase == Phase::Reading && !(event is Text || event is ReadFailed || event is Ended
            || event is Shutdown) ==> action is Read && after(state, event) == state,
        state.phase == Phase::Reading && (event is ReadFailed || event is Ended) ==> action is Wait
            && action->Wait_0 == state.backoff_ms && after(state, event).phase == Phase::Waiting
            && after(state, event).backoff_ms == state.backoff_ms,
        action is Deliver ==> state.phase == Phase::Reading && event is Text,
{
}

/// What a listener does is what its phase calls for: to connect, to wait for as
/// long as it has come to, or to stop.
pub proof fn law_action_fits_the_phase(state: LoopView, event: Event, action: Action)
    requires
        follows(state, event, action),
    ensures
        action is Connect <==> after(state, event).phase == Phase::Connecting,
        action is Wait <==> after(state, event).phase == Phase::Waiting,
        action is Stop <==> after(state, event).phase == Phase::Stopped,
        action is Wait ==> action->Wait_0 == after(state, event).backoff_ms,
{
}

/// An open connection is read from, and the next wait is one second again. No
/// other event lets a listener that connects read.
pub proof fn law_open_connection_is_read(state: LoopView, event: Event)
    requires
        state.phase == Phase::Connecting,
    ensures
        after(state, event).phase == Phase::Reading <==> event is Connected,
        event is Connected ==> after(state, event).backoff_ms == 1000,
        !(event is Connected || event is ConnectFailed) ==> after(state, event) == state,
        !(event is Connected) ==> after(state, event).backoff_ms == state.backoff_ms,
{
}

/// A listener that waits goes on waiting until the wait is over or it is told to
/// stop.
pub proof fn law_only_time_or_a_stop_ends_a_wait(state: LoopView, event: Event)
    requires
        state.phase == Phase::Waiting,
        !(event is Waited || event is Shutdown),
    ensures
        after(state, event) == state,
{
}

} // verus!
