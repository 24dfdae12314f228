use super::connection::{Api, EndpointId, EndpointSet};
use super::error::{ClientError, Failure};
use crate::esb::controller::{ready_entries, ready_of};
use std::marker::PhantomData;
use vstd::laws_eq::obeys_concrete_eq;
use vstd::prelude::*;
use vstd::std_specs::convert::{FromSpec, IntoSpec};

verus! {

/// Answers the requests of an RPC API, and decides which errors of the
/// client connection end the server.
pub trait Handler<E: EndpointId>: Sized {
    /// The API that the server speaks
    type Api: Api;

    /// The errors of the server itself, each of which a failure reports
    type Error: Into<Failure<<Self::Api as Api>::FailureCodeExt>>;

    /// Answers a request, with a reply or with an error that becomes a
    /// failure reply.
    fn handle(&mut self, endpoint: E, request: <Self::Api as Api>::Request) -> Result<
        <Self::Api as Api>::Reply,
        Self::Error,
    >;

    /// Called for each error of the client connection. An error that it
    /// returns ends the server.
    fn handle_err(&mut self, error: ClientError) -> Result<(), ClientError>;
}

/// The reply that goes out for what the handler made of a request: its
/// reply, or the reply that reports its error as a failure.
pub open spec fn reply_of<A: Api, X: Into<Failure<A::FailureCodeExt>>>(
    handled: Result<A::Reply, X>,
) -> A::Reply {
    match handled {
        Ok(reply) => reply,
        Err(err) => <A::Reply as FromSpec<Failure<A::FailureCodeExt>>>::from_spec(
            <X as IntoSpec<Failure<A::FailureCodeExt>>>::into_spec(err),
        ),
    }
}

/// Whether a reply is the one that goes out for what the handler made of
/// a request: its reply as it is, or, for its error, what the reply type
/// makes of the failure that the error turns into.
pub open spec fn replied<A: Api, X: Into<Failure<A::FailureCodeExt>>>(
    handled: Result<A::Reply, X>,
    reply: A::Reply,
) -> bool {
    match handled {
        Ok(r) => reply == r,
        Err(err) => exists|failure: Failure<A::FailureCodeExt>|
            {
                &&& #[trigger] call_ensures(
                    <X as Into<Failure<A::FailureCodeExt>>>::into,
                    (err,),
                    failure,
                )
                &&& call_ensures(
                    <A::Reply as From<Failure<A::FailureCodeExt>>>::from,
                    (failure,),
                    reply,
                )
            },
    }
}

/// Makes the one reply that goes out for what the handler made of a
/// request.
pub fn reply_for<A: Api, X: Into<Failure<A::FailureCodeExt>>>(
    handled: Result<A::Reply, X>,
) -> (reply: A::Reply)
    ensures
        replied::<A, X>(handled, reply),
        handled matches Ok(r) ==> reply == r,
        <A::Reply as FromSpec<Failure<A::FailureCodeExt>>>::obeys_from_spec() && <X as IntoSpec<
            Failure<A::FailureCodeExt>,
        >>::obeys_into_spec() ==> reply == reply_of::<A, X>(handled),
{
    match handled {
        Ok(reply) => reply,
        Err(err) => {
            let failure: Failure<A::FailureCodeExt> = err.into();
            A::Reply::from(failure)
        },
    }
}

/// The server side of an RPC API: the endpoints it listens on and the
/// handler of its requests. The shell around it owns the sessions.
#[verifier::reject_recursive_types(A)]
pub struct RpcServer<E, A, H> where A: Api, E: EndpointId, H: Handler<E, Api = A> {
    endpoints: EndpointSet<E>,
    handler: H,
    api: PhantomData<A>,
}

impl<E, A, H> RpcServer<E, A, H> where A: Api, E: EndpointId, H: Handler<E, Api = A> {
    /// The endpoints, in the order in which they are polled.
    pub closed spec fn endpoints(&self) -> Seq<E> {
        self.endpoints@
    }

    /// The handler.
    pub closed spec fn service(&self) -> H {
        self.handler
    }

    /// A server on the given endpoints, each of them once. A list that
    /// names no endpoint twice is kept as it is.
    pub fn with(endpoints: Vec<E>, handler: H) -> (server: Self)
        ensures
            server.service() == handler,
            obeys_concrete_eq::<E>() ==> server.endpoints().no_duplicates(),
            obeys_concrete_eq::<E>() ==> forall|e: E|
                server.endpoints().contains(e) <==> endpoints@.contains(e),
            obeys_concrete_eq::<E>() && endpoints@.no_duplicates() ==> server.endpoints()
                == endpoints@,
    {
        RpcServer { endpoints: EndpointSet::new(endpoints), handler, api: PhantomData }
    }

    /// The endpoints on which a poll found something, in the order of the
    /// poll set.
    pub fn poll(&self, revents: &[i16]) -> (ready: Vec<E>)
        ensures
            ready@ == ready_of(self.endpoints(), revents@),
    {
        ready_entries(self.endpoints.ids().as_slice(), revents)
    }

    /// Takes one request from an endpoint and gives the one reply that
    /// goes out for it, whether the handler answers or fails.
    pub fn run(&mut self, endpoint: E, request: A::Request) -> (reply: A::Reply)
        ensures
            final(self).endpoints() == old(self).endpoints(),
            exists|h: &mut H, handled: Result<A::Reply, H::Error>|
                {
                    &&& *h == old(self).service()
                    &&& *final(h) == final(self).service()
                    &&& #[trigger] call_ensures(H::handle, (h, endpoint, request), handled)
                    &&& replied::<A, H::Error>(handled, reply)
                },
    {
        let handled = self.handler.handle(endpoint, request);
        reply_for::<A, H::Error>(handled)
    }

    /// Hands an error of the client connection to the handler; the error
    /// that it returns, if any, ends the server.
    pub fn recover(&mut self, error: ClientError) -> (r: Result<(), ClientError>)
        ensures
            final(self).endpoints() == old(self).endpoints(),
            exists|h: &mut H|
                {
                    &&& *h == old(self).service()
                    &&& *final(h) == final(self).service()
                    &&& #[trigger] call_ensures(H::handle_err, (h, error), r)
                },
    {
        self.handler.handle_err(error)
    }
}

} // verus!
