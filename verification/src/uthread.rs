//! The event loop of a service, one turn at a time.
use crate::uservice::{UMsg, URecvError, UReport, UService};
use std::ops::ControlFlow;
use vstd::prelude::*;
use vstd::string::to_string_from_display_ensures;

verus! {

/// What a turn of the loop does with what it received.
#[derive(Debug, PartialEq, Eq)]
pub enum UStep<Msg> {
    /// Hand the message to the service.
    Process(Msg),
    /// Stop the service: it was ordered to.
    Terminate,
    /// Nothing arrived in time: tick.
    Tick,
    /// The channel is broken: report it and leave.
    Broken,
}

/// How the loop goes on after the service took a message.
#[derive(Debug, PartialEq, Eq)]
pub enum UNext<E> {
    /// Wait for the next message.
    Continue,
    /// Report the error, then wait for the next message.
    Report(E),
    /// Stop the service, which asked for it with an exit code.
    Stop(u8),
}

/// Why the loop has ended.
#[derive(Clone, Copy, Debug, PartialEq, Eq, Structural)]
pub enum UStop {
    /// The owner of the thread ordered the service to stop.
    Ordered,
    /// The service asked to stop, with an exit code.
    Requested(u8),
    /// The channel to the service is broken.
    Broken,
}

/// Decides what a turn does with what it received.
pub fn on_received<Msg>(received: Result<UMsg<Msg>, URecvError>) -> (step: UStep<Msg>)
    ensures
        step == match received {
            Ok(UMsg::Msg(msg)) => UStep::Process(msg),
            Ok(UMsg::Terminate) => UStep::<Msg>::Terminate,
            Err(URecvError::Timeout) => UStep::<Msg>::Tick,
            Err(URecvError::Disconnected) => UStep::<Msg>::Broken,
        },
{
    match received {
        Ok(UMsg::Msg(msg)) => UStep::Process(msg),
        Ok(UMsg::Terminate) => UStep::Terminate,
        Err(URecvError::Timeout) => UStep::Tick,
        Err(URecvError::Disconnected) => UStep::Broken,
    }
}

/// Decides how the loop goes on after the service took a message: an
/// error is reported and never ends the loop; only `Break` does.
pub fn on_processed<E>(result: Result<ControlFlow<u8>, E>) -> (next: UNext<E>)
    ensures
        next == match result {
            Err(err) => UNext::Report(err),
            Ok(ControlFlow::Break(code)) => UNext::<E>::Stop(code),
            Ok(ControlFlow::Continue(_)) => UNext::<E>::Continue,
        },
{
    match result {
        Err(err) => UNext::Report(err),
        Ok(ControlFlow::Break(code)) => UNext::Stop(code),
        Ok(ControlFlow::Continue(_)) => UNext::Continue,
    }
}

/// How long the loop waits for a message before the next tick is due: what
/// is left of the interval since the last tick, and no time at all where
/// the tick is overdue. So a tick comes with every idle interval, and a
/// message that is being handled when the interval ends delays the tick
/// by no more than its own handling.
pub fn next_wait(interval: u128, elapsed: u128) -> (wait: u128)
    ensures
        wait == if elapsed >= interval {
            0
        } else {
            interval - elapsed
        },
        wait <= interval,
        elapsed < interval ==> elapsed + wait == interval,
{
    if elapsed >= interval {
        0
    } else {
        interval - elapsed
    }
}

/// Whether an error of the service was reported: its text was made, and
/// the service was asked to report it under the context.
pub open spec fn error_reported<S: UService>(service: &S, context: &str, err: S::Error) -> bool {
    exists|text: String, line: &str, report: UReport|
        {
            &&& #[trigger] to_string_from_display_ensures::<S::Error>(&err, text)
            &&& line@ == text@
            &&& #[trigger] call_ensures(S::error, (service, context, line), report)
        }
}

/// One turn of the loop of a service: takes what was received, calls the
/// service, and says whether the loop has ended, and why.
///
/// A message goes to `process`. `Break` with a code ends the loop with that
/// code, after `terminate` was called; `Continue` lets it go on; an error
/// is reported as a process error and lets it go on. The order to stop
/// calls `terminate` and ends the loop. A timeout calls `tick`, reports
/// its error as a tick error, and lets the loop go on. A broken channel is
/// reported and ends the loop, without `terminate`.
pub fn turn<S: UService>(service: &mut S, received: Result<UMsg<S::Msg>, URecvError>) -> (stop:
    Option<UStop>)
    ensures
        received matches Ok(UMsg::Msg(msg)) ==> exists|
            s0: &mut S,
            processed: Result<ControlFlow<u8>, S::Error>,
        |
            {
                &&& *s0 == *old(service)
                &&& #[trigger] call_ensures(S::process, (s0, msg), processed)
                &&& match processed {
                    Ok(ControlFlow::Break(code)) => {
                        &&& stop == Some(UStop::Requested(code))
                        &&& exists|s1: &mut S|
                            {
                                &&& *s1 == *final(s0)
                                &&& *final(s1) == *final(service)
                                &&& #[trigger] call_ensures(S::terminate, (s1,), ())
                            }
                    },
                    Ok(ControlFlow::Continue(_)) => stop is None && *final(service) == *final(s0),
                    Err(err) => {
                        &&& stop is None
                        &&& *final(service) == *final(s0)
                        &&& error_reported::<S>(&*final(s0), "service process error", err)
                    },
                }
            },
        received matches Ok(UMsg::Terminate) ==> stop == Some(UStop::Ordered) && exists|
            s0: &mut S,
        |
            {
                &&& *s0 == *old(service)
                &&& *final(s0) == *final(service)
                &&& #[trigger] call_ensures(S::terminate, (s0,), ())
            },
        received matches Err(URecvError::Timeout) ==> stop is None && exists|
            s0: &mut S,
            ticked: Result<(), S::Error>,
        |
            {
                &&& *s0 == *old(service)
                &&& *final(s0) == *final(service)
                &&& #[trigger] call_ensures(S::tick, (s0,), ticked)
                &&& ticked matches Err(err) ==> error_reported::<S>(
                    &*final(s0),
                    "service tick error",
                    err,
                )
            },
        received matches Err(URecvError::Disconnected) ==> {
            &&& stop == Some(UStop::Broken)
            &&& *final(service) == *old(service)
            &&& exists|report: UReport| #[trigger]
                call_ensures(
                    S::error,
                    (&*old(service), "channel to the service is broken", "disconnected"),
                    report,
                )
        },
{
    match on_received(received) {
        UStep::Process(msg) => {
            match on_processed(service.process(msg)) {
                UNext::Continue => None,
                UNext::Report(err) => {
                    let text = err.to_string();
                    let _ = service.error("service process error", text.as_str());
                    None
                },
                UNext::Stop(code) => {
                    service.terminate();
                    Some(UStop::Requested(code))
                },
            }
        },
        UStep::Terminate => {
            service.terminate();
            Some(UStop::Ordered)
        },
        UStep::Tick => {
            match service.tick() {
                Ok(()) => {},
                Err(err) => {
                    let text = err.to_string();
                    let _ = service.error("service tick error", text.as_str());
                },
            }
            None
        },
        UStep::Broken => {
            let _ = service.error("channel to the service is broken", "disconnected");
            Some(UStop::Broken)
        },
    }
}

} // verus!
