//! In-process services: the messages they take over a channel, and how
//! their errors reach a monitor.
use std::fmt::Display;
use std::ops::ControlFlow;
use std::time::{Duration, Instant};
use vstd::pervasive::unreached;
use vstd::prelude::*;
use vstd::string::StringExecFns;

verus! {

#[verifier::external_type_specification]
#[verifier::external_body]
#[verifier::reject_recursive_types(T)]
pub struct ExSender<T>(crossbeam_channel::Sender<T>);

#[verifier::external_type_specification]
#[verifier::external_body]
#[verifier::reject_recursive_types(T)]
pub struct ExReceiver<T>(crossbeam_channel::Receiver<T>);

#[verifier::external_type_specification]
#[verifier::external_body]
pub struct ExInstant(std::time::Instant);

/// What a service finds in its channel: a message, or the order to stop.
#[derive(Clone, Debug, PartialEq, Eq)]
pub enum UMsg<Msg> {
    Msg(Msg),
    Terminate,
}

/// A message that came back because the channel is disconnected.
#[derive(Debug, PartialEq, Eq)]
pub struct USendError<T>(pub T);

/// A message that came back from an attempt to send without waiting.
#[derive(Debug, PartialEq, Eq)]
pub enum UTrySendError<T> {
    /// The channel is full.
    Full(T),
    /// The channel is disconnected.
    Disconnected(T),
}

/// A message that came back from an attempt to send within a time.
#[derive(Debug, PartialEq, Eq)]
pub enum USendTimeoutError<T> {
    /// The channel stayed full until the time was over.
    Timeout(T),
    /// The channel is disconnected.
    Disconnected(T),
}

/// Why nothing was received.
#[derive(Clone, Copy, Debug, PartialEq, Eq, Structural)]
pub enum URecvError {
    /// Nothing arrived within the time.
    Timeout,
    /// The channel is empty and disconnected.
    Disconnected,
}

impl<T> UTrySendError<T> {
    /// The message that came back.
    pub open spec fn msg(self) -> T {
        match self {
            UTrySendError::Full(m) => m,
            UTrySendError::Disconnected(m) => m,
        }
    }
}

impl<T> USendTimeoutError<T> {
    /// The message that came back.
    pub open spec fn msg(self) -> T {
        match self {
            USendTimeoutError::Timeout(m) => m,
            USendTimeoutError::Disconnected(m) => m,
        }
    }
}

/// `crossbeam_channel::unbounded`: a new channel without a bound.
#[verifier::external_body]
fn channel_unbounded<T>() -> (ends: (crossbeam_channel::Sender<T>, crossbeam_channel::Receiver<T>))
{
    crossbeam_channel::unbounded()
}

/// `Sender::send` of crossbeam_channel: an error holds the message that was
/// to be sent.
#[verifier::external_body]
fn channel_send<T>(sender: &crossbeam_channel::Sender<T>, msg: T) -> (r: Result<(), T>)
    ensures
        r matches Err(back) ==> back == msg,
{
    sender.send(msg).map_err(|crossbeam_channel::SendError(back)| back)
}

/// `Sender::try_send` of crossbeam_channel: an error holds the message that
/// was to be sent.
#[verifier::external_body]
fn channel_try_send<T>(sender: &crossbeam_channel::Sender<T>, msg: T) -> (r: Result<
    (),
    UTrySendError<T>,
>)
    ensures
        r matches Err(e) ==> e.msg() == msg,
{
    sender.try_send(msg).map_err(
        |e|
            match e {
                crossbeam_channel::TrySendError::Full(back) => UTrySendError::Full(back),
                crossbeam_channel::TrySendError::Disconnected(back) => UTrySendError::Disconnected(
                    back,
                ),
            },
    )
}

/// `Sender::send_timeout` of crossbeam_channel: an error holds the message
/// that was to be sent.
#[verifier::external_body]
fn channel_send_timeout<T>(
    sender: &crossbeam_channel::Sender<T>,
    msg: T,
    timeout: Duration,
) -> (r: Result<(), USendTimeoutError<T>>)
    ensures
        r matches Err(e) ==> e.msg() == msg,
{
    sender.send_timeout(msg, timeout).map_err(
        |e|
            match e {
                crossbeam_channel::SendTimeoutError::Timeout(back) => USendTimeoutError::Timeout(
                    back,
                ),
                crossbeam_channel::SendTimeoutError::Disconnected(back) => {
                    USendTimeoutError::Disconnected(back)
                },
            },
    )
}

/// `Sender::send_deadline` of crossbeam_channel: an error holds the message
/// that was to be sent.
#[verifier::external_body]
fn channel_send_deadline<T>(
    sender: &crossbeam_channel::Sender<T>,
    msg: T,
    deadline: Instant,
) -> (r: Result<(), USendTimeoutError<T>>)
    ensures
        r matches Err(e) ==> e.msg() == msg,
{
    sender.send_deadline(msg, deadline).map_err(
        |e|
            match e {
                crossbeam_channel::SendTimeoutError::Timeout(back) => USendTimeoutError::Timeout(
                    back,
                ),
                crossbeam_channel::SendTimeoutError::Disconnected(back) => {
                    USendTimeoutError::Disconnected(back)
                },
            },
    )
}

/// `Sender::is_empty` of crossbeam_channel.
#[verifier::external_body]
fn channel_is_empty<T>(sender: &crossbeam_channel::Sender<T>) -> bool {
    sender.is_empty()
}

/// `Sender::is_full` of crossbeam_channel.
#[verifier::external_body]
fn channel_is_full<T>(sender: &crossbeam_channel::Sender<T>) -> bool {
    sender.is_full()
}

/// `Sender::len` of crossbeam_channel.
#[verifier::external_body]
fn channel_len<T>(sender: &crossbeam_channel::Sender<T>) -> usize {
    sender.len()
}

/// `Sender::capacity` of crossbeam_channel.
#[verifier::external_body]
fn channel_capacity<T>(sender: &crossbeam_channel::Sender<T>) -> Option<usize> {
    sender.capacity()
}

/// `Clone::clone` of `crossbeam_channel::Sender`: one more sender of the
/// same channel.
#[verifier::external_body]
fn channel_sender_clone<T>(sender: &crossbeam_channel::Sender<T>) -> crossbeam_channel::Sender<T> {
    sender.clone()
}

/// `Receiver::recv` of crossbeam_channel: waits for a message; there is
/// none where the channel is empty and disconnected.
#[verifier::external_body]
fn channel_recv<T>(receiver: &crossbeam_channel::Receiver<T>) -> Option<T> {
    receiver.recv().ok()
}

/// `Receiver::recv_timeout` of crossbeam_channel: waits for a message, for
/// the given time at most.
#[verifier::external_body]
fn channel_recv_timeout<T>(receiver: &crossbeam_channel::Receiver<T>, timeout: Duration) -> Result<
    T,
    URecvError,
> {
    receiver.recv_timeout(timeout).map_err(
        |e|
            match e {
                crossbeam_channel::RecvTimeoutError::Timeout => URecvError::Timeout,
                crossbeam_channel::RecvTimeoutError::Disconnected => URecvError::Disconnected,
            },
    )
}

/// The sending end of the channel of a service. It sends messages only:
/// the order to stop is not for its users to give.
#[verifier::reject_recursive_types(Msg)]
pub struct USender<Msg>(pub(crate) crossbeam_channel::Sender<UMsg<Msg>>);

/// The receiving end of the channel of a service.
#[verifier::reject_recursive_types(Msg)]
pub struct UReceiver<Msg>(pub(crate) crossbeam_channel::Receiver<UMsg<Msg>>);

/// A new channel for a service, without a bound.
pub fn uchannel<Msg>() -> (USender<Msg>, UReceiver<Msg>) {
    let (sender, receiver) = channel_unbounded();
    (USender(sender), UReceiver(receiver))
}

impl<Msg> Clone for USender<Msg> {
    fn clone(&self) -> Self {
        USender(channel_sender_clone(&self.0))
    }
}

impl<Msg> USender<Msg> {
    /// What the answer of the channel to a message means for the one who
    /// sent it: the message comes back out of its envelope.
    pub fn sent(outcome: Result<(), UMsg<Msg>>) -> (r: Result<(), USendError<Msg>>)
        requires
            outcome matches Err(back) ==> back is Msg,
        ensures
            r == match outcome {
                Ok(_) => Ok::<(), USendError<Msg>>(()),
                Err(back) => Err::<(), USendError<Msg>>(USendError(back->Msg_0)),
            },
    {
        match outcome {
            Ok(()) => Ok(()),
            Err(UMsg::Msg(back)) => Err(USendError(back)),
            Err(UMsg::Terminate) => unreached(),
        }
    }

    /// Sends a message, waiting while the channel is full. The message
    /// comes back where the channel is disconnected.
    pub fn send(&self, msg: Msg) -> (r: Result<(), USendError<Msg>>)
        ensures
            r matches Err(e) ==> e.0 == msg,
    {
        Self::sent(channel_send(&self.0, UMsg::Msg(msg)))
    }

    /// What the answer of the channel to an attempt means for the one who
    /// made it: the message comes back out of its envelope, for the reason
    /// that the channel gave.
    pub fn tried(outcome: Result<(), UTrySendError<UMsg<Msg>>>) -> (r: Result<
        (),
        UTrySendError<Msg>,
    >)
        requires
            outcome matches Err(e) ==> e.msg() is Msg,
        ensures
            r == match outcome {
                Ok(_) => Ok::<(), UTrySendError<Msg>>(()),
                Err(UTrySendError::Full(back)) => Err::<(), UTrySendError<Msg>>(
                    UTrySendError::Full(back->Msg_0),
                ),
                Err(UTrySendError::Disconnected(back)) => Err::<(), UTrySendError<Msg>>(
                    UTrySendError::Disconnected(back->Msg_0),
                ),
            },
    {
        match outcome {
            Ok(()) => Ok(()),
            Err(UTrySendError::Full(UMsg::Msg(back))) => Err(UTrySendError::Full(back)),
            Err(UTrySendError::Disconnected(UMsg::Msg(back))) => Err(
                UTrySendError::Disconnected(back),
            ),
            Err(UTrySendError::Full(UMsg::Terminate)) => unreached(),
            Err(UTrySendError::Disconnected(UMsg::Terminate)) => unreached(),
        }
    }

    /// Sends a message without waiting. The message comes back where the
    /// channel is full or disconnected.
    pub fn try_send(&self, msg: Msg) -> (r: Result<(), UTrySendError<Msg>>)
        ensures
            r matches Err(e) ==> e.msg() == msg,
    {
        Self::tried(channel_try_send(&self.0, UMsg::Msg(msg)))
    }

    /// Takes the message out of the envelope in which it came back.
    fn convert_timeout_error(err: USendTimeoutError<UMsg<Msg>>) -> (e: USendTimeoutError<Msg>)
        requires
            err.msg() is Msg,
        ensures
            e == match err {
                USendTimeoutError::Timeout(back) => USendTimeoutError::Timeout(back->Msg_0),
                USendTimeoutError::Disconnected(back) => USendTimeoutError::Disconnected(
                    back->Msg_0,
                ),
            },
    {
        match err {
            USendTimeoutError::Timeout(UMsg::Msg(back)) => USendTimeoutError::Timeout(back),
            USendTimeoutError::Disconnected(UMsg::Msg(back)) => USendTimeoutError::Disconnected(
                back,
            ),
            USendTimeoutError::Timeout(UMsg::Terminate) => unreached(),
            USendTimeoutError::Disconnected(UMsg::Terminate) => unreached(),
        }
    }

    /// What the answer of the channel to a message with a time limit means
    /// for the one who sent it: the message comes back out of its envelope,
    /// for the reason that the channel gave.
    pub fn timed(outcome: Result<(), USendTimeoutError<UMsg<Msg>>>) -> (r: Result<
        (),
        USendTimeoutError<Msg>,
    >)
        requires
            outcome matches Err(e) ==> e.msg() is Msg,
        ensures
            r == match outcome {
                Ok(_) => Ok::<(), USendTimeoutError<Msg>>(()),
                Err(USendTimeoutError::Timeout(back)) => Err::<(), USendTimeoutError<Msg>>(
                    USendTimeoutError::Timeout(back->Msg_0),
                ),
                Err(USendTimeoutError::Disconnected(back)) => Err::<(), USendTimeoutError<Msg>>(
                    USendTimeoutError::Disconnected(back->Msg_0),
                ),
            },
    {
        match outcome {
            Ok(()) => Ok(()),
            Err(err) => Err(Self::convert_timeout_error(err)),
        }
    }

    /// Sends a message, waiting for the given time at most. The message
    /// comes back where the time is over or the channel is disconnected.
    pub fn send_timeout(&self, msg: Msg, timeout: Duration) -> (r: Result<
        (),
        USendTimeoutError<Msg>,
    >)
        ensures
            r matches Err(e) ==> e.msg() == msg,
    {
        Self::timed(channel_send_timeout(&self.0, UMsg::Msg(msg), timeout))
    }

    /// Sends a message, waiting until the given time at most. The message
    /// comes back where the time is over or the channel is disconnected.
    pub fn send_deadline(&self, msg: Msg, deadline: Instant) -> (r: Result<
        (),
        USendTimeoutError<Msg>,
    >)
        ensures
            r matches Err(e) ==> e.msg() == msg,
    {
        Self::timed(channel_send_deadline(&self.0, UMsg::Msg(msg), deadline))
    }

    /// Whether the channel holds no message now.
    pub fn is_empty(&self) -> bool {
        channel_is_empty(&self.0)
    }

    /// Whether the channel takes no more messages now.
    pub fn is_full(&self) -> bool {
        channel_is_full(&self.0)
    }

    /// The number of messages in the channel now.
    pub fn len(&self) -> usize {
        channel_len(&self.0)
    }

    /// The bound of the channel, if it has one.
    pub fn capacity(&self) -> Option<usize> {
        channel_capacity(&self.0)
    }

    /// What the answer of the channel to the order to stop means: an order
    /// that came back found the channel disconnected.
    pub fn stopped(outcome: Result<(), UMsg<Msg>>) -> (r: Result<(), URecvError>)
        ensures
            r == match outcome {
                Ok(_) => Ok::<(), URecvError>(()),
                Err(_) => Err::<(), URecvError>(URecvError::Disconnected),
            },
    {
        match outcome {
            Ok(()) => Ok(()),
            Err(_) => Err(URecvError::Disconnected),
        }
    }

    /// Orders the service to stop. Fails where the channel is disconnected:
    /// the service is gone already.
    pub fn terminate(&self) -> (r: Result<(), URecvError>)
        ensures
            r matches Err(e) ==> e == URecvError::Disconnected,
    {
        Self::stopped(channel_send(&self.0, UMsg::Terminate))
    }
}

impl<Msg> UReceiver<Msg> {
    /// What a wait without a time limit gave: what arrived, or the news
    /// that the channel is empty and disconnected.
    pub fn waited(got: Option<UMsg<Msg>>) -> (r: Result<UMsg<Msg>, URecvError>)
        ensures
            r == match got {
                Some(msg) => Ok::<UMsg<Msg>, URecvError>(msg),
                None => Err::<UMsg<Msg>, URecvError>(URecvError::Disconnected),
            },
    {
        match got {
            Some(msg) => Ok(msg),
            None => Err(URecvError::Disconnected),
        }
    }

    /// Waits for what comes next: without ticks until something arrives,
    /// with ticks for the time of one tick at most.
    pub fn recv(&self, ticks: Option<Duration>) -> (r: Result<UMsg<Msg>, URecvError>)
        ensures
            ticks is None ==> r != Err::<UMsg<Msg>, URecvError>(URecvError::Timeout),
    {
        match ticks {
            Some(timeout) => channel_recv_timeout(&self.0, timeout),
            None => Self::waited(channel_recv(&self.0)),
        }
    }
}

/// Where a service answers a request, if the one who asked waits for an
/// answer.
#[verifier::reject_recursive_types(T)]
#[verifier::reject_recursive_types(E)]
pub struct UResponder<T, E>(pub Option<crossbeam_channel::Sender<Result<T, E>>>);

impl<T, E> UResponder<T, E> {
    /// What the answer of the channel to an answer means for the service:
    /// an answer that came back found nobody waiting any more.
    pub fn responded(outcome: Result<(), Result<T, E>>) -> (r: Result<
        (),
        USendError<Result<T, E>>,
    >)
        ensures
            r == match outcome {
                Ok(_) => Ok::<(), USendError<Result<T, E>>>(()),
                Err(back) => Err::<(), USendError<Result<T, E>>>(USendError(back)),
            },
    {
        match outcome {
            Ok(()) => Ok(()),
            Err(back) => Err(USendError(back)),
        }
    }

    /// Sends the answer to the one who asked. Without one who waits there
    /// is nothing to do; the answer comes back where the one who waited is
    /// gone.
    pub fn respond(&self, msg: Result<T, E>) -> (r: Result<(), USendError<Result<T, E>>>)
        ensures
            self.0 is None ==> r is Ok,
            r matches Err(e) ==> e.0 == msg,
    {
        match &self.0 {
            Some(sender) => Self::responded(channel_send(sender, msg)),
            None => Ok(()),
        }
    }
}

/// An error of a service, as its monitor gets it.
#[derive(Clone, PartialEq, Eq, Debug)]
pub struct UErrorMsg {
    pub service: String,
    pub error: String,
}

/// What became of an error report.
#[derive(Clone, Copy, Debug, PartialEq, Eq, Structural)]
pub enum UReport {
    /// The service has no monitor.
    Unmonitored,
    /// The monitor got the report.
    Sent,
    /// The channel to the monitor is broken.
    BrokenMonitor,
}

/// The text of an error with its context: the context, ` - `, the error.
pub open spec fn report_text(context: Seq<char>, err: Seq<char>) -> Seq<char> {
    context + seq![' ', '-', ' '] + err
}

/// Reports the errors of a service to its monitor.
pub struct UErrorSender {
    sender: Option<USender<UErrorMsg>>,
    service_name: &'static str,
}

impl UErrorSender {
    /// Whether there is a monitor to report to.
    pub closed spec fn monitored(&self) -> bool {
        self.sender is Some
    }

    /// The name of the service whose errors are reported.
    pub closed spec fn service(&self) -> Seq<char> {
        self.service_name@
    }

    /// A reporter for the service of the given name.
    pub fn new(sender: Option<USender<UErrorMsg>>, service_name: &'static str) -> (reporter: Self)
        ensures
            reporter.monitored() == sender is Some,
            reporter.service() == service_name@,
    {
        UErrorSender { sender, service_name }
    }

    /// The line that reports an error with its context.
    pub fn line(context: &str, err: &str) -> (text: String)
        ensures
            text@ == report_text(context@, err@),
    {
        let text = String::from_str(context).concat(" - ").concat(err);
        proof {
            reveal_strlit(" - ");
            assert(" - "@ =~= seq![' ', '-', ' ']);
        }
        text
    }

    /// The message that tells the monitor of an error.
    pub fn message(&self, error: String) -> (msg: UErrorMsg)
        ensures
            msg.service@ == self.service(),
            msg.error == error,
    {
        UErrorMsg { service: String::from_str(self.service_name), error }
    }

    /// Reports an error with its context.
    pub fn report(&self, context: &str, err: &str) -> (r: UReport)
        ensures
            r is Unmonitored <==> !self.monitored(),
    {
        self.report_brief(Self::line(context, err))
    }

    /// Reports an error. A monitor that is gone is no error of the
    /// service: the caller learns of it and goes on.
    pub fn report_brief(&self, error: String) -> (r: UReport)
        ensures
            r is Unmonitored <==> !self.monitored(),
    {
        match &self.sender {
            None => UReport::Unmonitored,
            Some(sender) => {
                let msg = self.message(error);
                match sender.send(msg) {
                    Ok(()) => UReport::Sent,
                    Err(_) => UReport::BrokenMonitor,
                }
            },
        }
    }
}

/// A service that runs on a thread of its own and takes its messages from
/// a channel.
pub trait UService: Send + Sized + 'static {
    /// The messages that the service takes
    type Msg: Send;

    /// The errors of the service
    type Error: Display + Sync;

    /// The name of the service
    const NAME: &'static str;

    /// Called when no message arrived within the time of a tick. Does
    /// nothing unless the service says otherwise.
    fn tick(&mut self) -> (r: Result<(), Self::Error>)
        default_ensures
            r is Ok,
            *final(self) == *old(self),
    {
        Ok(())
    }

    /// Takes a message. `Break` with an exit code stops the service.
    fn process(&mut self, msg: Self::Msg) -> Result<ControlFlow<u8>, Self::Error>;

    /// Called once, when the service stops.
    fn terminate(&mut self);

    /// The channel to the monitor that gets the errors of the service;
    /// none unless the service says otherwise.
    fn monitor(&self) -> (monitor: Option<&USender<UErrorMsg>>)
        default_ensures
            monitor is None,
    {
        None
    }

    /// Hands the service the sending end of its own channel, before its
    /// first message. A service that does not send to itself drops it.
    fn set_self_sender(&mut self, sender: USender<Self::Msg>) {
    }

    /// The sending end of the service's own channel, if the service kept
    /// it.
    fn self_sender(&self) -> (sender: Option<USender<Self::Msg>>)
        default_ensures
            sender is None,
    {
        None
    }

    /// The reporter of the errors of this service: under the name of the
    /// service, to the monitor that the service names, if it names one.
    fn error_sender(&self) -> (reporter: UErrorSender)
        ensures
            reporter.service() == Self::NAME@,
        default_ensures
            exists|monitor: Option<&USender<UErrorMsg>>| #[trigger]
                call_ensures(Self::monitor, (self,), monitor) && reporter.monitored()
                    == monitor is Some,
    {
        let sender = match self.monitor() {
            Some(sender) => Some(sender.clone()),
            None => None,
        };
        UErrorSender::new(sender, Self::NAME)
    }

    /// Reports an error of this service with its context, through the
    /// reporter of the service: the answer is `Unmonitored` just where
    /// that reporter has no monitor.
    fn error(&self, context: &str, err: &str) -> (r: UReport)
        default_ensures
            exists|reporter: UErrorSender| #[trigger]
                call_ensures(Self::error_sender, (self,), reporter) && (r is Unmonitored
                    <==> !reporter.monitored()),
    {
        self.error_sender().report(context, err)
    }

    /// Reports an error of this service, through the reporter of the
    /// service: the answer is `Unmonitored` just where that reporter has no
    /// monitor.
    fn error_brief(&self, err: String) -> (r: UReport)
        default_ensures
            exists|reporter: UErrorSender| #[trigger]
                call_ensures(Self::error_sender, (self,), reporter) && (r is Unmonitored
                    <==> !reporter.monitored()),
    {
        self.error_sender().report_brief(err)
    }
}

} // verus!
