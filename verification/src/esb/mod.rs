//! Service bus: addresses, bus configuration and the routing controller.
pub mod bus;
pub mod controller;

pub use bus::{BusConfig, BusId, ClientId, ServiceAddress, ServiceName, SocketRole};
pub use controller::{
    BusAction, Controller, EndpointList, Handler, PollItem, RoutedFrame, SessionPlan,
    SessionState,
};

use crate::rpc::error::{take_transport, transport_cause};
use vstd::prelude::*;

verus! {

/// Errors on a service bus.
#[derive(Clone, Debug)]
pub enum BusError<A: ServiceAddress> {
    /// unexpected server response
    UnexpectedServerResponse,
    /// message serialization or structure error
    Presentation(internet2::presentation::Error),
    /// error sending a message from the first address to the second
    Send(A, A, internet2::transport::Error),
    /// transport-level protocol error
    Transport(internet2::transport::Error),
    /// provided service bus id is unknown
    UnknownBusId(String),
    /// error of the service itself
    ServiceError(String),
}

impl<A: ServiceAddress> BusError<A> {
    /// A presentation error as a bus error: the transport error inside it
    /// where it wraps one, and the presentation error itself otherwise.
    pub fn from_presentation(err: internet2::presentation::Error) -> (e: Self)
        ensures
            e == match transport_cause(err) {
                Some(cause) => BusError::<A>::Transport(cause),
                None => BusError::<A>::Presentation(err),
            },
    {
        match take_transport(err) {
            Ok(cause) => BusError::Transport(cause),
            Err(other) => BusError::Presentation(other),
        }
    }
}

} // verus!
