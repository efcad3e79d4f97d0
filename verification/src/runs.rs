//! What holds of whole runs of the polling loop, whatever the device and the
//! user do.
//!
//! A run is a state and the events delivered to it, one after the other. An
//! event the loop does not admit changes nothing, so every sequence of events
//! is a run.

use crate::backoff::{
    lemma_backoff_stays_bounded,
    lemma_delay_after_closed_form,
    Backoff,
    BackoffPolicy,
};
use crate::connection::Supervision;
use crate::notice::Notice;
use crate::poll_loop::{
    lemma_step_preserves_wf,
    Directive,
    Event,
    Phase,
    Release,
    Request,
    Termination,
    Watch,
};
use crate::session::{OutputFormat, Session};
use vstd::arithmetic::power2::pow2;
use vstd::math::min;
use vstd::prelude::*;

verus! {

/// The state after `events` have been delivered to `watch` in order.
pub open spec fn run<H>(watch: Watch<H>, events: Seq<Event<H>>) -> Watch<H>
    decreases events.len(),
{
    if events.len() == 0 {
        watch
    } else {
        run(watch, events.drop_last()).step(events.last()).0
    }
}

/// How many of `events` were admitted as successful reads.
pub open spec fn successful_reads<H>(watch: Watch<H>, events: Seq<Event<H>>) -> nat
    decreases events.len(),
{
    if events.len() == 0 {
        0
    } else {
        let before = run(watch, events.drop_last());
        let earlier = successful_reads(watch, events.drop_last());
        if before.admits(events.last()) && events.last().is_successful_read() {
            earlier + 1
        } else {
            earlier
        }
    }
}

/// For each record written out during the run, in order: whether it was
/// preceded by the header line.
pub open spec fn records<H>(watch: Watch<H>, events: Seq<Event<H>>) -> Seq<bool>
    decreases events.len(),
{
    if events.len() == 0 {
        Seq::empty()
    } else {
        let before = run(watch, events.drop_last());
        let earlier = records(watch, events.drop_last());
        if before.admits(events.last()) && events.last() is Emitted {
            earlier.push(before.with_header())
        } else {
            earlier
        }
    }
}

/// How many connection attempts have failed in a row at the end of the run,
/// counting back to the last sign of a working connection.
pub open spec fn failure_streak<H>(watch: Watch<H>, events: Seq<Event<H>>) -> nat
    decreases events.len(),
{
    if events.len() == 0 {
        0
    } else {
        let before = run(watch, events.drop_last());
        let earlier = failure_streak(watch, events.drop_last());
        if !before.admits(events.last()) {
            earlier
        } else if events.last() is ConnectFailed {
            earlier + 1
        } else if events.last().is_connect_success() {
            0
        } else {
            earlier
        }
    }
}

/// A run never changes the session, the format or the backoff policy.
pub proof fn lemma_run_keeps_configuration<H>(watch: Watch<H>, events: Seq<Event<H>>)
    ensures
        run(watch, events).session == watch.session,
        run(watch, events).format == watch.format,
        run(watch, events).backoff.policy == watch.backoff.policy,
    decreases events.len(),
{
    if events.len() > 0 {
        lemma_run_keeps_configuration(watch, events.drop_last());
    }
}

/// Every state reached from a well-formed state is well formed.
pub proof fn lemma_run_preserves_wf<H>(watch: Watch<H>, events: Seq<Event<H>>)
    requires
        watch.wf(),
    ensures
        run(watch, events).wf(),
    decreases events.len(),
{
    if events.len() > 0 {
        lemma_run_preserves_wf(watch, events.drop_last());
        lemma_step_preserves_wf(run(watch, events.drop_last()), events.last());
    }
}

/// A session that is set up from usable durations and bounds starts well
/// formed.
pub proof fn lemma_start_is_wf<H>(
    session: Session,
    format: OutputFormat,
    policy: BackoffPolicy,
    header_suppressed: bool,
)
    requires
        session.wf(),
        policy.wf(),
    ensures
        Watch::<H>::start(session, format, policy, header_suppressed).wf(),
        Watch::<H>::start(session, format, policy, header_suppressed).pending()
            == Request::Connect,
{
}

/// The delay changes in two ways only: a failed connection attempt doubles
/// it, up to the ceiling, and a sign of a working connection puts it back
/// at the floor. The reading count never goes down, and the header flag,
/// once set, stays set.
pub proof fn lemma_step_moves_forward<H>(watch: Watch<H>, event: Event<H>)
    ensures
        watch.step(event).0.backoff == if watch.admits(event) && event is ConnectFailed {
            watch.backoff.failed()
        } else if watch.admits(event) && event.is_connect_success() {
            watch.backoff.succeeded()
        } else {
            watch.backoff
        },
        watch.step(event).0.readings_taken >= watch.readings_taken,
        watch.step(event).0.readings_taken != watch.readings_taken ==> watch.admits(event)
            && event.is_successful_read(),
        watch.header_written ==> watch.step(event).0.header_written,
        watch.step(event).0.header_written != watch.header_written ==> watch.admits(event)
            && event is Emitted,
{
}

/// A failed connection attempt announces the current delay, on the
/// diagnostic stream and as the wait to perform, and lets go of a dead
/// handle if one was still held.
pub proof fn lemma_failure_announces_current_delay<H>(watch: Watch<H>)
    requires
        watch.admits(Event::ConnectFailed),
    ensures
        watch.step(Event::ConnectFailed).1 == Ok::<Directive<H>, Event<H>>(
            Directive {
                notice: Some(Notice::ConnectFailed { retry_in: watch.backoff.current_delay }),
                release: Release::discard(watch.supervision.connection.handle()),
                request: Request::Wait { secs: watch.backoff.current_delay },
            },
        ),
        watch.step(Event::ConnectFailed).0.phase == (Phase::BackoffWait {
            delay: watch.backoff.current_delay,
        }),
        watch.step(Event::ConnectFailed).0.supervision == Supervision::<H>::idle(),
{
}

/// Any sign of a working connection puts the backoff back at its floor.
pub proof fn lemma_success_resets_backoff<H>(watch: Watch<H>, event: Event<H>)
    requires
        watch.admits(event),
        event.is_connect_success(),
    ensures
        watch.step(event).0.backoff == Backoff::fresh(watch.backoff.policy),
        watch.step(event).0.phase == Phase::Reading,
{
}

/// In a run that starts with the backoff at its floor, the delay that the
/// next failed attempt will announce is the floor doubled once for each
/// failure in a row so far, cut off at the ceiling. With the standard policy
/// the failures of a streak therefore announce 2, 4, 8, ... and then 300
/// seconds, and the first failure after a success announces 2 again.
pub proof fn lemma_delay_follows_failure_streak<H>(watch: Watch<H>, events: Seq<Event<H>>)
    requires
        watch.wf(),
        watch.backoff == Backoff::fresh(watch.backoff.policy),
    ensures
        run(watch, events).backoff.current_delay == watch.backoff.policy.delay_after(
            failure_streak(watch, events),
        ),
        run(watch, events).backoff.current_delay == min(
            watch.backoff.policy.min_delay * pow2(failure_streak(watch, events)),
            watch.backoff.policy.max_delay as int,
        ),
    decreases events.len(),
{
    let policy = watch.backoff.policy;
    lemma_delay_after_closed_form(policy, failure_streak(watch, events));
    if events.len() > 0 {
        let before = run(watch, events.drop_last());
        lemma_delay_follows_failure_streak(watch, events.drop_last());
        lemma_run_keeps_configuration(watch, events.drop_last());
        lemma_run_preserves_wf(watch, events.drop_last());
        lemma_backoff_stays_bounded(before.backoff);
    }
}

/// A connection attempt that fails after `n` failures in a row asks for a
/// wait of the floor doubled `n` times, cut off at the ceiling: with the
/// standard policy 2, 4, 8, ... up to 300 seconds, and 2 seconds again for
/// the first failure after a success. This holds at any point of any run
/// that began with the backoff at its floor.
pub proof fn lemma_failure_waits_by_streak<H>(watch: Watch<H>, events: Seq<Event<H>>)
    requires
        watch.wf(),
        watch.backoff == Backoff::fresh(watch.backoff.policy),
        run(watch, events).admits(Event::ConnectFailed),
    ensures
        run(watch, events).step(Event::ConnectFailed).1 is Ok,
        run(watch, events).step(Event::ConnectFailed).1->Ok_0.request == (Request::Wait {
            secs: min(
                watch.backoff.policy.min_delay * pow2(failure_streak(watch, events)),
                watch.backoff.policy.max_delay as int,
            ) as u64,
        }),
        failure_streak(watch, events.push(Event::ConnectFailed)) == failure_streak(watch, events)
            + 1,
{
    lemma_delay_follows_failure_streak(watch, events);
    lemma_failure_announces_current_delay(run(watch, events));
    assert(events.push(Event::ConnectFailed).drop_last() =~= events);
}

/// The delays of the standard policy: two seconds doubled once per earlier
/// failure, and never more than five minutes.
pub proof fn lemma_standard_delays(failures: nat)
    ensures
        BackoffPolicy::spec_standard().delay_after(failures) == min(
            2 * pow2(failures) as int,
            300,
        ),
{
    lemma_delay_after_closed_form(BackoffPolicy::spec_standard(), failures);
}

/// The reading count is the count at the start plus the successful reads of
/// the run, held at the largest number the counter can show.
pub proof fn lemma_readings_count_successful_reads<H>(watch: Watch<H>, events: Seq<Event<H>>)
    ensures
        run(watch, events).readings_taken == min(
            watch.readings_taken + successful_reads(watch, events),
            u64::MAX as int,
        ),
    decreases events.len(),
{
    if events.len() > 0 {
        lemma_readings_count_successful_reads(watch, events.drop_last());
    }
}

/// Once the loop is over nothing moves it: every event is handed back, so no
/// request is ever issued again.
pub proof fn lemma_terminated_is_final<H>(watch: Watch<H>, events: Seq<Event<H>>)
    requires
        watch.phase is Terminated,
    ensures
        run(watch, events) == watch,
        successful_reads(watch, events) == 0,
        records(watch, events) == Seq::<bool>::empty(),
        forall|event: Event<H>| #[trigger] watch.step(event) == (watch, Err::<Directive<H>, _>(event)),
    decreases events.len(),
{
    if events.len() > 0 {
        lemma_terminated_is_final(watch, events.drop_last());
    }
}

/// With a count limit, no run takes more successful reads than the limit
/// allows, counting those taken before it began. The moment the limit is met
/// the loop is over: nothing is pending but to stop, and no event is
/// admitted, however many failures came before.
pub proof fn lemma_count_limit_is_exact<H>(watch: Watch<H>, events: Seq<Event<H>>)
    requires
        watch.wf(),
        watch.session.bounded(),
    ensures
        watch.readings_taken + successful_reads(watch, events) <= watch.session.count_limit,
        run(watch, events).readings_taken == watch.readings_taken + successful_reads(
            watch,
            events,
        ),
        run(watch, events).readings_taken == watch.session.count_limit ==> {
            &&& run(watch, events).phase is Terminated
            &&& run(watch, events).pending() is Stop
            &&& forall|event: Event<H>| !(#[trigger] run(watch, events).admits(event))
        },
        !(run(watch, events).phase is Terminated) ==> run(watch, events).readings_taken
            < watch.session.count_limit,
{
    lemma_run_preserves_wf(watch, events);
    lemma_run_keeps_configuration(watch, events);
    lemma_readings_count_successful_reads(watch, events);
}

/// The read that meets the count limit ends the loop as completed, without
/// an interval wait, and hands the connection over to be closed.
pub proof fn lemma_last_reading_completes<H>(watch: Watch<H>)
    requires
        watch.wf(),
        watch.phase is Reading,
        watch.session.bounded(),
        watch.readings_taken + 1 == watch.session.count_limit,
    ensures
        watch.step(Event::Emitted).0.phase == Phase::Terminated(Termination::Completed),
        watch.step(Event::Emitted).0.readings_taken == watch.session.count_limit,
        watch.step(Event::Emitted).1 == Ok::<Directive<H>, Event<H>>(
            Directive {
                notice: Some(Notice::Completed { readings: watch.session.count_limit as u64 }),
                release: Release::disconnect(watch.supervision.connection.handle()),
                request: Request::Stop(Termination::Completed),
            },
        ),
        watch.step(Event::Emitted).1->Ok_0.release is Disconnect,
{
}

/// The header line precedes the first record written out and no other;
/// where the format has no header, or the caller wanted none, it precedes no
/// record at all. Reconnections in between make no difference.
pub proof fn lemma_header_written_once<H>(watch: Watch<H>, events: Seq<Event<H>>)
    ensures
        forall|i: int|
            0 <= i < records(watch, events).len() ==> #[trigger] records(watch, events)[i] == (
            watch.with_header() && i == 0),
        run(watch, events).with_header() == (watch.with_header() && records(watch, events).len()
            == 0),
    decreases events.len(),
{
    if events.len() > 0 {
        let earlier = records(watch, events.drop_last());
        lemma_header_written_once(watch, events.drop_last());
        lemma_run_keeps_configuration(watch, events.drop_last());
        assert forall|i: int| 0 <= i < records(watch, events).len() implies #[trigger] records(
            watch,
            events,
        )[i] == (watch.with_header() && i == 0) by {
            if i < earlier.len() {
                assert(records(watch, events)[i] == earlier[i]);
            }
        }
    }
}

/// The header decision of a read is the one its request carried: nothing
/// that can happen while the read is pending changes it.
pub proof fn lemma_request_carries_header_decision<H>(watch: Watch<H>)
    requires
        watch.phase is Reading,
    ensures
        watch.pending() == (Request::Read { with_header: watch.with_header() }),
        records(watch, seq![Event::<H>::Emitted]) == seq![watch.with_header()],
{
    let events = seq![Event::<H>::Emitted];
    assert(events.drop_last() == Seq::<Event<H>>::empty());
    assert(events.last() == Event::<H>::Emitted);
    assert(run(watch, events.drop_last()) == watch);
    assert(records(watch, events.drop_last()) == Seq::<bool>::empty());
}

/// A cancellation that arrives during a wait ends the loop in that very
/// step: the connection, if one is held, is handed over to be closed, and
/// whatever is delivered afterwards is handed back without a connection
/// attempt or a read being asked for.
pub proof fn lemma_cancellation_ends_wait<H>(watch: Watch<H>, later: Seq<Event<H>>)
    requires
        watch.phase is BackoffWait || watch.phase is IntervalWait,
    ensures
        watch.step(Event::Cancelled).0.phase == Phase::Terminated(Termination::Cancelled),
        watch.step(Event::Cancelled).0.supervision == Supervision::<H>::idle(),
        watch.step(Event::Cancelled).0.readings_taken == watch.readings_taken,
        watch.step(Event::Cancelled).1 == Ok::<Directive<H>, Event<H>>(
            Directive {
                notice: Some(Notice::ShuttingDown),
                release: Release::disconnect(watch.supervision.connection.handle()),
                request: Request::Stop(Termination::Cancelled),
            },
        ),
        run(watch.step(Event::Cancelled).0, later) == watch.step(Event::Cancelled).0,
        forall|event: Event<H>| #[trigger]
            watch.step(Event::Cancelled).0.step(event).1 == Err::<Directive<H>, _>(event),
{
    lemma_terminated_is_final(watch.step(Event::Cancelled).0, later);
}

/// Cancellation is also honoured before a connection attempt, and never
/// while a read is under way.
pub proof fn lemma_cancellation_points<H>(watch: Watch<H>)
    ensures
        watch.admits(Event::Cancelled) == (watch.phase is AwaitingConnection
            || watch.phase is BackoffWait || watch.phase is IntervalWait),
        watch.admits(Event::Cancelled) ==> watch.step(Event::Cancelled).0.phase
            == Phase::Terminated(Termination::Cancelled),
{
}

/// A failed read is not counted, costs the connection, and leaves a new
/// connection attempt as the only thing the loop will accept: the handle
/// that failed is handed over to be closed and can be neither probed nor
/// read from again.
pub proof fn lemma_read_failure_forces_reconnect<H>(watch: Watch<H>)
    requires
        watch.wf(),
        watch.phase is Reading,
    ensures
        watch.step(Event::ReadFailed).0.readings_taken == watch.readings_taken,
        watch.step(Event::ReadFailed).0.header_written == watch.header_written,
        watch.step(Event::ReadFailed).0.backoff == watch.backoff,
        watch.step(Event::ReadFailed).0.phase == Phase::AwaitingConnection,
        watch.step(Event::ReadFailed).0.supervision == Supervision::<H>::idle(),
        watch.step(Event::ReadFailed).0.pending() == Request::Connect,
        watch.step(Event::ReadFailed).1 == Ok::<Directive<H>, Event<H>>(
            Directive {
                notice: Some(Notice::ReadFailed),
                release: Release::Disconnect(watch.supervision.connection->Connected_0),
                request: Request::Connect,
            },
        ),
        forall|alive: bool| !(#[trigger] watch.step(Event::ReadFailed).0.admits(
            Event::Probed { alive },
        )),
        !watch.step(Event::ReadFailed).0.admits(Event::Emitted),
        !watch.step(Event::ReadFailed).0.admits(Event::EmitFailed),
        !watch.step(Event::ReadFailed).0.admits(Event::ReadFailed),
{
}

/// How often `handle` occurs in a place that holds one handle at most.
pub open spec fn occurrences<H>(place: Option<H>, handle: H) -> nat {
    if place == Some(handle) {
        1
    } else {
        0
    }
}

/// No handle is lost and none appears from nowhere: what the loop holds
/// after an event, together with what it lets go of, is what it held
/// before together with what the event brought.
pub proof fn lemma_handles_are_accounted_for<H>(watch: Watch<H>, event: Event<H>, handle: H)
    requires
        watch.admits(event),
    ensures
        occurrences(watch.step(event).0.supervision.connection.handle(), handle) + occurrences(
            watch.step(event).1->Ok_0.release.handle(),
            handle,
        ) == occurrences(watch.supervision.connection.handle(), handle) + occurrences(
            event.handle(),
            handle,
        ),
{
}

/// Every way out of the loop lets go of the connection: the handle held at
/// that moment is handed over to be closed, and the loop is left holding
/// none.
pub proof fn lemma_every_exit_releases_the_connection<H>(watch: Watch<H>, event: Event<H>)
    requires
        !(watch.phase is Terminated),
        watch.step(event).0.phase is Terminated,
    ensures
        watch.step(event).1 is Ok,
        watch.step(event).1->Ok_0.release == Release::disconnect(
            watch.supervision.connection.handle(),
        ),
        watch.step(event).1->Ok_0.request == Request::Stop(
            watch.step(event).0.phase->Terminated_0,
        ),
        watch.step(event).0.supervision == Supervision::<H>::idle(),
{
}

/// A read is only ever asked of a handle that is held and believed alive,
/// and a probe only of a handle that is held.
pub proof fn lemma_requests_match_connection<H>(watch: Watch<H>)
    requires
        watch.wf(),
    ensures
        watch.pending() is Read ==> watch.supervision.connection is Connected
            && !watch.supervision.stale,
        watch.pending() is Probe ==> watch.supervision.connection is Connected
            && !watch.supervision.stale,
        watch.pending() is Stop ==> watch.supervision.connection is Disconnected,
        watch.pending() is Stop <==> watch.phase is Terminated,
{
}

/// No failure ends the loop: it ends only when the count limit is met, on
/// cancellation, or when a record cannot be written.
pub proof fn lemma_only_three_ways_out<H>(watch: Watch<H>, event: Event<H>)
    requires
        !(watch.phase is Terminated),
        watch.step(event).0.phase is Terminated,
    ensures
        watch.admits(event),
        event is Cancelled || event is EmitFailed || (event is Emitted
            && watch.session.limit_reached(watch.one_more_reading())),
        event is Cancelled ==> watch.step(event).0.phase == Phase::Terminated(
            Termination::Cancelled,
        ),
        event is EmitFailed ==> watch.step(event).0.phase == Phase::Terminated(
            Termination::Failed,
        ),
        event is Emitted ==> watch.step(event).0.phase == Phase::Terminated(
            Termination::Completed,
        ),
{
}

} // verus!
