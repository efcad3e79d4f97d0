//! The polling loop as a state machine.
//!
//! The loop never sleeps, connects or reads. At every moment it has one
//! [`Request`] pending: the one operation the caller is to perform next. The
//! caller performs it and reports the outcome as an [`Event`]; the loop
//! answers with a [`Directive`] that names the next request, a handle to let
//! go of, and a line for the diagnostic stream. Cancellation is an event like
//! any other, so a wait is over as soon as the caller notices the signal.
//!
//! A read is counted the moment it succeeds, and the count limit is looked
//! at right then: the reading that meets it ends the loop without an
//! interval wait, so the loop never sets out to secure a connection with
//! its limit already met. A failed read leads straight back to securing a
//! connection, without a wait of its own.
//!
//! Nothing here is fatal but a record that cannot be written. Connection
//! and read failures are retried for as long as the session lasts.

use crate::backoff::{lemma_backoff_stays_bounded, Backoff, BackoffPolicy, BackoffState};
use crate::connection::{
    ConnectStep,
    ConnectionState,
    ConnectionSupervisor,
    Ensured,
    Supervision,
};
use crate::notice::Notice;
use crate::session::{OutputFormat, Session, WatchSession};
use vstd::prelude::*;

verus! {

/// Why a loop came to its end.
#[derive(Clone, Copy, Debug, PartialEq, Eq, Structural)]
pub enum Termination {
    /// The count limit was met.
    Completed,
    /// The user asked to stop.
    Cancelled,
    /// A record could not be formatted or written.
    Failed,
}

/// Where the loop stands.
#[derive(Clone, Copy, Debug, PartialEq, Eq, Structural)]
pub enum Phase {
    /// A usable connection is being secured.
    AwaitingConnection,
    /// A connection attempt failed; `delay` seconds are being waited out.
    BackoffWait { delay: u64 },
    /// A reading is being taken and written out.
    Reading,
    /// The polling interval is being waited out.
    IntervalWait,
    /// The loop is over.
    Terminated(Termination),
}

/// The one operation the caller is to perform next.
#[derive(Clone, Copy, Debug, PartialEq, Eq, Structural)]
pub enum Request {
    /// Ask the held handle whether it is still connected.
    Probe,
    /// Attempt a connection within the session's timeout.
    Connect,
    /// Read the sensor through the held handle and write the record out,
    /// after the header line if `with_header` is set.
    Read { with_header: bool },
    /// Wait for `secs` seconds, or until cancellation, whichever comes
    /// first.
    Wait { secs: u64 },
    /// Nothing more: leave the loop.
    Stop(Termination),
}

/// A handle the loop no longer owns.
pub enum Release<H> {
    /// No handle was given up.
    Nothing,
    /// Close this connection; a failure to do so is of no consequence.
    Disconnect(H),
    /// This handle was found dead: drop it.
    Discard(H),
}

/// What happened to the operation that was pending.
pub enum Event<H> {
    /// The held handle reported whether it is still connected.
    Probed { alive: bool },
    /// The connection attempt produced a handle.
    Connected(H),
    /// The connection attempt failed.
    ConnectFailed,
    /// The read failed.
    ReadFailed,
    /// The read succeeded and its record was written out.
    Emitted,
    /// The read succeeded, but its record could not be formatted or
    /// written.
    EmitFailed,
    /// The wait ran its full length.
    WaitElapsed,
    /// Cancellation was requested.
    Cancelled,
}

/// The loop's answer to an event.
pub struct Directive<H> {
    /// A line for the diagnostic stream, if the event calls for one.
    pub notice: Option<Notice>,
    /// A handle the loop let go of.
    pub release: Release<H>,
    /// What to do next.
    pub request: Request,
}

/// What a [`PollLoop`] stands for.
pub struct Watch<H> {
    pub session: Session,
    pub format: OutputFormat,
    pub phase: Phase,
    pub supervision: Supervision<H>,
    pub backoff: Backoff,
    pub readings_taken: u64,
    pub header_written: bool,
}

impl<H> Release<H> {
    /// Hands `handle` over to be closed, if there is one.
    pub open spec fn disconnect(handle: Option<H>) -> Release<H> {
        match handle {
            Some(h) => Release::Disconnect(h),
            None => Release::Nothing,
        }
    }

    /// Hands `handle` over to be dropped, if there is one.
    pub open spec fn discard(handle: Option<H>) -> Release<H> {
        match handle {
            Some(h) => Release::Discard(h),
            None => Release::Nothing,
        }
    }
}

impl<H> Release<H> {
    /// The handle that was let go of, if any.
    pub open spec fn handle(self) -> Option<H> {
        match self {
            Release::Nothing => None,
            Release::Disconnect(h) => Some(h),
            Release::Discard(h) => Some(h),
        }
    }
}

impl<H> Event<H> {
    /// The handle that comes with the event, if any.
    pub open spec fn handle(self) -> Option<H> {
        match self {
            Event::Connected(h) => Some(h),
            _ => None,
        }
    }


    /// A read that succeeded, whether or not its record could be written.
    pub open spec fn is_successful_read(self) -> bool {
        self is Emitted || self is EmitFailed
    }

    /// Evidence that the connection works.
    pub open spec fn is_connect_success(self) -> bool {
        self is Connected || self == (Event::<H>::Probed { alive: true })
    }
}

impl<H> Watch<H> {
    /// The state a session starts in: no connection, no reading taken, the
    /// backoff at its floor, and the header counted as written if the caller
    /// wants none.
    pub open spec fn start(
        session: Session,
        format: OutputFormat,
        policy: BackoffPolicy,
        header_suppressed: bool,
    ) -> Watch<H> {
        Watch {
            session,
            format,
            phase: Phase::AwaitingConnection,
            supervision: Supervision::idle(),
            backoff: Backoff::fresh(policy),
            readings_taken: 0,
            header_written: header_suppressed,
        }
    }

    /// Whether the next record is to be preceded by the header line.
    pub open spec fn with_header(self) -> bool {
        self.format.has_header() && !self.header_written
    }

    /// The operation the loop is waiting for.
    pub open spec fn pending(self) -> Request {
        match self.phase {
            Phase::AwaitingConnection => match self.supervision.next_step() {
                ConnectStep::Probe => Request::Probe,
                ConnectStep::Connect => Request::Connect,
            },
            Phase::BackoffWait { delay } => Request::Wait { secs: delay },
            Phase::Reading => Request::Read { with_header: self.with_header() },
            Phase::IntervalWait => Request::Wait { secs: self.session.poll_interval },
            Phase::Terminated(reason) => Request::Stop(reason),
        }
    }

    /// Whether `event` is a possible outcome of the pending operation.
    /// Cancellation is noticed before a connection is attempted and during
    /// a wait, never while a read is under way.
    pub open spec fn admits(self, event: Event<H>) -> bool {
        match self.phase {
            Phase::AwaitingConnection => match event {
                Event::Cancelled => true,
                Event::Probed { .. } => self.supervision.next_step() == ConnectStep::Probe,
                Event::Connected(_) | Event::ConnectFailed => self.supervision.next_step()
                    == ConnectStep::Connect,
                _ => false,
            },
            Phase::BackoffWait { .. } | Phase::IntervalWait => event is WaitElapsed
                || event is Cancelled,
            Phase::Reading => event is ReadFailed || event is Emitted || event is EmitFailed,
            Phase::Terminated(_) => false,
        }
    }

    /// The count of successful reads after one more, held at the largest
    /// number the counter can show.
    pub open spec fn one_more_reading(self) -> u64 {
        if self.readings_taken < u64::MAX {
            (self.readings_taken + 1) as u64
        } else {
            self.readings_taken
        }
    }

    /// The state with the phase changed and all else as it was.
    pub open spec fn moved_to(self, phase: Phase) -> Watch<H> {
        Watch { phase, ..self }
    }

    /// The end of the loop: the connection, if any, is handed over to be
    /// closed.
    pub open spec fn stopped(self, reason: Termination, notice: Option<Notice>) -> (
        Watch<H>,
        Directive<H>,
    ) {
        (
            Watch {
                phase: Phase::Terminated(reason),
                supervision: Supervision::idle(),
                ..self
            },
            Directive {
                notice,
                release: Release::disconnect(self.supervision.connection.handle()),
                request: Request::Stop(reason),
            },
        )
    }

    /// What an admitted event does while a connection is being secured.
    pub open spec fn awaiting_connection(self, event: Event<H>) -> (Watch<H>, Directive<H>) {
        match event {
            Event::Probed { alive } => {
                if alive {
                    let next = Watch {
                        phase: Phase::Reading,
                        backoff: self.backoff.succeeded(),
                        ..self
                    };
                    (
                        next,
                        Directive {
                            notice: None,
                            release: Release::Nothing,
                            request: next.pending(),
                        },
                    )
                } else {
                    let next = Watch { supervision: self.supervision.probed(false), ..self };
                    (
                        next,
                        Directive {
                            notice: Some(Notice::ConnectionLost),
                            release: Release::Nothing,
                            request: next.pending(),
                        },
                    )
                }
            },
            Event::Connected(handle) => {
                let next = Watch {
                    phase: Phase::Reading,
                    supervision: self.supervision.attempted(Some(handle)),
                    backoff: self.backoff.succeeded(),
                    ..self
                };
                (
                    next,
                    Directive {
                        notice: None,
                        release: Release::discard(self.supervision.connection.handle()),
                        request: next.pending(),
                    },
                )
            },
            Event::ConnectFailed => {
                let delay = self.backoff.current_delay;
                let next = Watch {
                    phase: Phase::BackoffWait { delay },
                    supervision: self.supervision.attempted(None),
                    backoff: self.backoff.failed(),
                    ..self
                };
                (
                    next,
                    Directive {
                        notice: Some(Notice::ConnectFailed { retry_in: delay }),
                        release: Release::discard(self.supervision.connection.handle()),
                        request: next.pending(),
                    },
                )
            },
            _ => self.stopped(Termination::Cancelled, Some(Notice::ShuttingDown)),
        }
    }

    /// What an admitted event does while a read is under way. Every
    /// successful read is counted; a failed one is not, and costs the
    /// connection.
    pub open spec fn reading(self, event: Event<H>) -> (Watch<H>, Directive<H>) {
        match event {
            Event::Emitted => {
                let counted = Watch {
                    readings_taken: self.one_more_reading(),
                    header_written: self.header_written || self.format.has_header(),
                    ..self
                };
                if counted.session.limit_reached(counted.readings_taken) {
                    counted.stopped(
                        Termination::Completed,
                        Some(Notice::Completed { readings: counted.readings_taken }),
                    )
                } else {
                    let next = counted.moved_to(Phase::IntervalWait);
                    (
                        next,
                        Directive {
                            notice: None,
                            release: Release::Nothing,
                            request: next.pending(),
                        },
                    )
                }
            },
            Event::EmitFailed => {
                let counted = Watch { readings_taken: self.one_more_reading(), ..self };
                counted.stopped(Termination::Failed, None)
            },
            _ => {
                let next = Watch {
                    phase: Phase::AwaitingConnection,
                    supervision: Supervision::idle(),
                    ..self
                };
                (
                    next,
                    Directive {
                        notice: Some(Notice::ReadFailed),
                        release: Release::disconnect(self.supervision.connection.handle()),
                        request: next.pending(),
                    },
                )
            },
        }
    }

    /// What an admitted event does during either wait: cancellation ends
    /// the loop at once, the end of the wait leads back to securing a
    /// connection.
    pub open spec fn waiting(self, event: Event<H>) -> (Watch<H>, Directive<H>) {
        if event is Cancelled {
            self.stopped(Termination::Cancelled, Some(Notice::ShuttingDown))
        } else {
            let next = self.moved_to(Phase::AwaitingConnection);
            (next, Directive { notice: None, release: Release::Nothing, request: next.pending() })
        }
    }

    /// The transition function: an event that the pending operation cannot
    /// have produced is handed back and changes nothing; any other moves
    /// the loop on.
    pub open spec fn step(self, event: Event<H>) -> (Watch<H>, Result<Directive<H>, Event<H>>) {
        if !self.admits(event) {
            (self, Err(event))
        } else {
            let (next, directive) = match self.phase {
                Phase::AwaitingConnection => self.awaiting_connection(event),
                Phase::Reading => self.reading(event),
                _ => self.waiting(event),
            };
            (next, Ok(directive))
        }
    }

    /// What holds of every state a session can be in.
    pub open spec fn wf(self) -> bool {
        &&& self.session.wf()
        &&& self.backoff.wf()
        &&& self.supervision.wf()
        &&& self.session.bounded() ==> self.readings_taken <= self.session.count_limit
        &&& self.session.limit_reached(self.readings_taken) ==> self.phase is Terminated
        &&& match self.phase {
            Phase::AwaitingConnection => true,
            Phase::BackoffWait { delay } => {
                &&& self.supervision == Supervision::<H>::idle()
                &&& self.backoff.policy.min_delay <= delay <= self.backoff.policy.max_delay
            },
            Phase::Reading | Phase::IntervalWait => {
                &&& self.supervision.connection is Connected
                &&& !self.supervision.stale
            },
            Phase::Terminated(_) => self.supervision == Supervision::<H>::idle(),
        }
    }
}

/// How many readings have been taken. The count only ever grows.
#[derive(Clone, Copy, Debug)]
pub struct ProgressCounters {
    readings_taken: u64,
}

impl View for ProgressCounters {
    type V = u64;

    closed spec fn view(&self) -> u64 {
        self.readings_taken
    }
}

impl ProgressCounters {
    /// Starts at zero.
    pub fn new() -> (counters: ProgressCounters)
        ensures
            counters@ == 0,
    {
        ProgressCounters { readings_taken: 0 }
    }

    /// The number of successful reads so far.
    pub fn readings_taken(&self) -> (count: u64)
        ensures
            count == self@,
    {
        self.readings_taken
    }

    /// Counts one more successful read. The count stops at the largest
    /// number it can show.
    pub fn record_read(&mut self)
        ensures
            final(self)@ == if old(self)@ < u64::MAX {
                (old(self)@ + 1) as u64
            } else {
                old(self)@
            },
    {
        if self.readings_taken < u64::MAX {
            self.readings_taken = self.readings_taken + 1;
        }
    }
}

/// Whether the header line of delimited output is behind us.
#[derive(Clone, Copy, Debug)]
pub struct EmitState {
    header_written: bool,
}

impl View for EmitState {
    type V = bool;

    closed spec fn view(&self) -> bool {
        self.header_written
    }
}

impl EmitState {
    /// A caller who wants no header has it counted as written from the
    /// start.
    pub fn new(header_suppressed: bool) -> (state: EmitState)
        ensures
            state@ == header_suppressed,
    {
        EmitState { header_written: header_suppressed }
    }

    /// Whether the header is behind us.
    pub fn header_written(&self) -> (written: bool)
        ensures
            written == self@,
    {
        self.header_written
    }

    /// Whether the next record in `format` is to be preceded by the header.
    pub fn with_header(&self, format: OutputFormat) -> (needed: bool)
        ensures
            needed == (format.has_header() && !self@),
    {
        format.carries_header() && !self.header_written
    }

    /// Notes that a record in `format` was written out.
    pub fn record_emitted(&mut self, format: OutputFormat)
        ensures
            final(self)@ == (old(self)@ || format.has_header()),
    {
        if format.carries_header() {
            self.header_written = true;
        }
    }
}

fn closing<H>(handle: Option<H>) -> (release: Release<H>)
    ensures
        release == Release::disconnect(handle),
{
    match handle {
        Some(h) => Release::Disconnect(h),
        None => Release::Nothing,
    }
}

fn dropping<H>(handle: Option<H>) -> (release: Release<H>)
    ensures
        release == Release::discard(handle),
{
    match handle {
        Some(h) => Release::Discard(h),
        None => Release::Nothing,
    }
}

/// The polling loop of one watch session. It owns the connection handle,
/// the backoff, the reading count and the header flag, and changes them only
/// in answer to events.
pub struct PollLoop<H> {
    session: WatchSession,
    format: OutputFormat,
    phase: Phase,
    supervisor: ConnectionSupervisor<H>,
    backoff: BackoffState,
    progress: ProgressCounters,
    emit: EmitState,
}

impl<H> View for PollLoop<H> {
    type V = Watch<H>;

    closed spec fn view(&self) -> Watch<H> {
        Watch {
            session: self.session@,
            format: self.format,
            phase: self.phase,
            supervision: self.supervisor@,
            backoff: self.backoff@,
            readings_taken: self.progress@,
            header_written: self.emit@,
        }
    }
}

impl<H> PollLoop<H> {
    /// Sets up the loop of a session with the standard backoff: from two
    /// seconds up to five minutes.
    pub fn new(session: WatchSession, format: OutputFormat, header_suppressed: bool) -> (poll_loop:
        PollLoop<H>)
        ensures
            poll_loop@ == Watch::<H>::start(
                session@,
                format,
                BackoffPolicy::standard(),
                header_suppressed,
            ),
            poll_loop@.wf(),
    {
        PollLoop::with_policy(session, format, BackoffPolicy::standard(), header_suppressed)
    }

    /// Sets up the loop of a session with a backoff of the caller's choice.
    pub fn with_policy(
        session: WatchSession,
        format: OutputFormat,
        policy: BackoffPolicy,
        header_suppressed: bool,
    ) -> (poll_loop: PollLoop<H>)
        ensures
            poll_loop@ == Watch::<H>::start(session@, format, policy, header_suppressed),
            policy.wf() ==> poll_loop@.wf(),
    {
        proof {
            use_type_invariant(&session);
            session.lemma_inv_is_wf();
        }
        PollLoop {
            session,
            format,
            phase: Phase::AwaitingConnection,
            supervisor: ConnectionSupervisor::new(),
            backoff: BackoffState::new(policy),
            progress: ProgressCounters::new(),
            emit: EmitState::new(header_suppressed),
        }
    }

    /// The configuration this loop runs under.
    pub fn session(&self) -> (session: &WatchSession)
        ensures
            session@ == self@.session,
    {
        &self.session
    }

    /// The format records are written in.
    pub fn format(&self) -> (format: OutputFormat)
        ensures
            format == self@.format,
    {
        self.format
    }

    /// Where the loop stands.
    pub fn phase(&self) -> (phase: Phase)
        ensures
            phase == self@.phase,
    {
        self.phase
    }

    /// Whether the loop is over.
    pub fn is_terminated(&self) -> (over: bool)
        ensures
            over == (self@.phase is Terminated),
    {
        match self.phase {
            Phase::Terminated(_) => true,
            _ => false,
        }
    }

    /// The number of successful reads so far.
    pub fn readings_taken(&self) -> (count: u64)
        ensures
            count == self@.readings_taken,
    {
        self.progress.readings_taken()
    }

    /// Whether the header line is behind us.
    pub fn header_written(&self) -> (written: bool)
        ensures
            written == self@.header_written,
    {
        self.emit.header_written()
    }

    /// The delay that the next failed connection attempt will announce.
    pub fn backoff_delay(&self) -> (delay: u64)
        ensures
            delay == self@.backoff.current_delay,
    {
        self.backoff.current_delay()
    }

    /// Whether a connection handle is held.
    pub fn is_connected(&self) -> (connected: bool)
        ensures
            connected == (self@.supervision.connection is Connected),
    {
        self.supervisor.is_connected()
    }

    /// The handle held, for the caller to probe or read from.
    pub fn handle(&self) -> (handle: Option<&H>)
        ensures
            handle.is_some() == (self@.supervision.connection is Connected),
            handle matches Some(h) ==> self@.supervision.connection == ConnectionState::Connected(
                *h,
            ),
    {
        self.supervisor.handle()
    }

    /// The operation the loop is waiting for.
    pub fn pending(&self) -> (request: Request)
        ensures
            request == self@.pending(),
    {
        match self.phase {
            Phase::AwaitingConnection => match self.supervisor.next_step() {
                ConnectStep::Probe => Request::Probe,
                ConnectStep::Connect => Request::Connect,
            },
            Phase::BackoffWait { delay } => Request::Wait { secs: delay },
            Phase::Reading => Request::Read { with_header: self.emit.with_header(self.format) },
            Phase::IntervalWait => Request::Wait { secs: self.session.poll_interval_secs() },
            Phase::Terminated(reason) => Request::Stop(reason),
        }
    }

    /// Ends the loop and hands over the connection, if any, to be closed.
    fn stop(&mut self, reason: Termination, notice: Option<Notice>) -> (directive: Directive<H>)
        ensures
            (final(self)@, directive) == old(self)@.stopped(reason, notice),
    {
        let released = self.supervisor.shutdown();
        self.phase = Phase::Terminated(reason);
        Directive { notice, release: closing(released), request: Request::Stop(reason) }
    }

    /// Moves to `phase` and asks for whatever is pending there.
    fn proceed(&mut self, phase: Phase, notice: Option<Notice>, release: Release<H>) -> (directive:
        Directive<H>)
        ensures
            final(self)@ == old(self)@.moved_to(phase),
            directive == (Directive { notice, release, request: final(self)@.pending() }),
    {
        self.phase = phase;
        Directive { notice, release, request: self.pending() }
    }

    /// Takes the outcome of a connection attempt.
    fn connect_outcome(&mut self, attempt: Option<H>) -> (directive: Directive<H>)
        ensures
            (final(self)@, directive) == old(self)@.awaiting_connection(
                match attempt {
                    Some(h) => Event::Connected(h),
                    None => Event::ConnectFailed,
                },
            ),
    {
        match self.supervisor.on_connect(attempt, &mut self.backoff) {
            Ensured::Connected { replaced } => self.proceed(
                Phase::Reading,
                None,
                dropping(replaced),
            ),
            Ensured::RetryAfter { delay, discarded } => self.proceed(
                Phase::BackoffWait { delay },
                Some(Notice::ConnectFailed { retry_in: delay }),
                dropping(discarded),
            ),
        }
    }

    /// The transition out of securing a connection. In any other phase the
    /// event is handed back.
    pub fn on_awaiting_connection(&mut self, event: Event<H>) -> (result: Result<
        Directive<H>,
        Event<H>,
    >)
        ensures
            old(self)@.phase is AwaitingConnection ==> (final(self)@, result) == old(self)@.step(
                event,
            ),
            !(old(self)@.phase is AwaitingConnection) ==> final(self)@ == old(self)@ && result
                == Err::<Directive<H>, _>(event),
            old(self)@.wf() ==> final(self)@.wf(),
    {
        proof {
            if self@.wf() {
                lemma_step_preserves_wf(self@, event);
            }
        }
        match self.phase {
            Phase::AwaitingConnection => {},
            _ => {
                return Err(event);
            },
        }
        let probing = match self.supervisor.next_step() {
            ConnectStep::Probe => true,
            ConnectStep::Connect => false,
        };
        match event {
            Event::Cancelled => Ok(self.stop(Termination::Cancelled, Some(Notice::ShuttingDown))),
            Event::Probed { alive } => {
                if !probing {
                    Err(Event::Probed { alive })
                } else if self.supervisor.on_probe(alive, &mut self.backoff) {
                    Ok(self.proceed(Phase::Reading, None, Release::Nothing))
                } else {
                    Ok(
                        self.proceed(
                            Phase::AwaitingConnection,
                            Some(Notice::ConnectionLost),
                            Release::Nothing,
                        ),
                    )
                }
            },
            Event::Connected(handle) => {
                if probing {
                    Err(Event::Connected(handle))
                } else {
                    Ok(self.connect_outcome(Some(handle)))
                }
            },
            Event::ConnectFailed => {
                if probing {
                    Err(Event::ConnectFailed)
                } else {
                    Ok(self.connect_outcome(None))
                }
            },
            other => Err(other),
        }
    }

    /// The transition out of a backoff wait. In any other phase the event is
    /// handed back.
    pub fn on_backoff_wait(&mut self, event: Event<H>) -> (result: Result<Directive<H>, Event<H>>)
        ensures
            old(self)@.phase is BackoffWait ==> (final(self)@, result) == old(self)@.step(event),
            !(old(self)@.phase is BackoffWait) ==> final(self)@ == old(self)@ && result == Err::<
                Directive<H>,
                _,
            >(event),
            old(self)@.wf() ==> final(self)@.wf(),
    {
        proof {
            if self@.wf() {
                lemma_step_preserves_wf(self@, event);
            }
        }
        match self.phase {
            Phase::BackoffWait { .. } => self.on_wait(event),
            _ => Err(event),
        }
    }

    /// The transition out of an interval wait. In any other phase the event
    /// is handed back.
    pub fn on_interval_wait(&mut self, event: Event<H>) -> (result: Result<Directive<H>, Event<H>>)
        ensures
            old(self)@.phase is IntervalWait ==> (final(self)@, result) == old(self)@.step(event),
            !(old(self)@.phase is IntervalWait) ==> final(self)@ == old(self)@ && result == Err::<
                Directive<H>,
                _,
            >(event),
            old(self)@.wf() ==> final(self)@.wf(),
    {
        proof {
            if self@.wf() {
                lemma_step_preserves_wf(self@, event);
            }
        }
        match self.phase {
            Phase::IntervalWait => self.on_wait(event),
            _ => Err(event),
        }
    }

    /// What either wait does with an event.
    fn on_wait(&mut self, event: Event<H>) -> (result: Result<Directive<H>, Event<H>>)
        requires
            old(self)@.phase is BackoffWait || old(self)@.phase is IntervalWait,
        ensures
            (final(self)@, result) == old(self)@.step(event),
    {
        match event {
            Event::Cancelled => Ok(self.stop(Termination::Cancelled, Some(Notice::ShuttingDown))),
            Event::WaitElapsed => Ok(
                self.proceed(Phase::AwaitingConnection, None, Release::Nothing),
            ),
            other => Err(other),
        }
    }

    /// The transition out of a read. In any other phase the event is handed
    /// back.
    pub fn on_reading(&mut self, event: Event<H>) -> (result: Result<Directive<H>, Event<H>>)
        ensures
            old(self)@.phase is Reading ==> (final(self)@, result) == old(self)@.step(event),
            !(old(self)@.phase is Reading) ==> final(self)@ == old(self)@ && result == Err::<
                Directive<H>,
                _,
            >(event),
            old(self)@.wf() ==> final(self)@.wf(),
    {
        proof {
            if self@.wf() {
                lemma_step_preserves_wf(self@, event);
            }
        }
        match self.phase {
            Phase::Reading => {},
            _ => {
                return Err(event);
            },
        }
        match event {
            Event::Emitted => {
                self.progress.record_read();
                self.emit.record_emitted(self.format);
                let readings = self.progress.readings_taken();
                if self.session.limit_reached(readings) {
                    Ok(self.stop(Termination::Completed, Some(Notice::Completed { readings })))
                } else {
                    Ok(self.proceed(Phase::IntervalWait, None, Release::Nothing))
                }
            },
            Event::EmitFailed => {
                self.progress.record_read();
                Ok(self.stop(Termination::Failed, None))
            },
            Event::ReadFailed => {
                let released = self.supervisor.report_read_failure();
                Ok(
                    self.proceed(
                        Phase::AwaitingConnection,
                        Some(Notice::ReadFailed),
                        closing(released),
                    ),
                )
            },
            other => Err(other),
        }
    }

    /// Takes the outcome of the pending operation and answers with what to
    /// do next. An event that the pending operation cannot have produced is
    /// handed back and changes nothing; once the loop is over that is every
    /// event.
    pub fn step(&mut self, event: Event<H>) -> (result: Result<Directive<H>, Event<H>>)
        ensures
            (final(self)@, result) == old(self)@.step(event),
            old(self)@.wf() ==> final(self)@.wf(),
    {
        match self.phase {
            Phase::AwaitingConnection => self.on_awaiting_connection(event),
            Phase::BackoffWait { .. } => self.on_backoff_wait(event),
            Phase::Reading => self.on_reading(event),
            Phase::IntervalWait => self.on_interval_wait(event),
            Phase::Terminated(_) => Err(event),
        }
    }
}

/// No event takes a well-formed state to one that is not.
pub proof fn lemma_step_preserves_wf<H>(watch: Watch<H>, event: Event<H>)
    requires
        watch.wf(),
    ensures
        watch.step(event).0.wf(),
{
    lemma_backoff_stays_bounded(watch.backoff);
}

} // verus!
