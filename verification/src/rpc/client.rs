use super::connection::{Api, EndpointId, EndpointSet};
use super::error::{transport_cause, Failure, FailureCodeExt, ServerError};
use std::marker::PhantomData;
use vstd::laws_eq::obeys_concrete_eq;
use vstd::prelude::*;

verus! {

/// The client side of an RPC API: the endpoints it may ask, and what a
/// reply means for the caller. The shell around it owns the sessions.
#[verifier::reject_recursive_types(A)]
pub struct RpcClient<E: EndpointId, A: Api> {
    endpoints: EndpointSet<E>,
    api: PhantomData<A>,
}

/// What the caller of a request gets for what came back, once the reply
/// was asked whether it reports a failure: the reply, the failure that it
/// reports, or the error in reading it.
pub open spec fn outcome_of<R, Ext: FailureCodeExt>(
    received: Result<Result<Failure<Ext>, R>, internet2::presentation::Error>,
) -> Result<R, ServerError<Ext>> {
    match received {
        Err(err) => match transport_cause(err) {
            Some(cause) => Err(ServerError::Transport(cause)),
            None => Err(ServerError::Presentation(err)),
        },
        Ok(Ok(failure)) => Err(ServerError::ServerFailure(failure)),
        Ok(Err(reply)) => Ok(reply),
    }
}

/// Decides what the caller of a request gets for what came back, once the
/// reply was asked whether it reports a failure.
pub fn outcome<R, Ext: FailureCodeExt>(
    received: Result<Result<Failure<Ext>, R>, internet2::presentation::Error>,
) -> (r: Result<R, ServerError<Ext>>)
    ensures
        r == outcome_of(received),
{
    match received {
        Err(err) => Err(ServerError::from_presentation(err)),
        Ok(Ok(failure)) => Err(ServerError::ServerFailure(failure)),
        Ok(Err(reply)) => Ok(reply),
    }
}

impl<E: EndpointId, A: Api> RpcClient<E, A> {
    /// The endpoints, each of them once, in the order in which they were
    /// given.
    pub closed spec fn endpoints(&self) -> Seq<E> {
        self.endpoints@
    }

    /// A client for the given endpoints, each of them once. A list that
    /// names no endpoint twice is kept as it is.
    pub fn with(endpoints: Vec<E>) -> (client: Self)
        ensures
            obeys_concrete_eq::<E>() ==> client.endpoints().no_duplicates(),
            obeys_concrete_eq::<E>() ==> forall|e: E|
                client.endpoints().contains(e) <==> endpoints@.contains(e),
            obeys_concrete_eq::<E>() && endpoints@.no_duplicates() ==> client.endpoints()
                == endpoints@,
    {
        RpcClient { endpoints: EndpointSet::new(endpoints), api: PhantomData }
    }

    /// Finds the session on which a request to an endpoint goes: the
    /// place of the endpoint among those of the client.
    pub fn session(&self, endpoint: E) -> (r: Result<usize, ServerError<A::FailureCodeExt>>)
        ensures
            r matches Ok(i) ==> i < self.endpoints().len(),
            r matches Err(e) ==> e is UnknownEndpoint,
            obeys_concrete_eq::<E>() ==> match r {
                Ok(i) => self.endpoints()[i as int] == endpoint && i == self.endpoints().index_of(
                    endpoint,
                ),
                Err(_) => !self.endpoints().contains(endpoint),
            },
    {
        match self.endpoints.find(&endpoint) {
            Some(i) => Ok(i),
            None => Err(ServerError::UnknownEndpoint(endpoint.to_string())),
        }
    }

    /// Decides what the caller of a request gets for what came back from
    /// the server: an error in reading the reply as it is, a reply that
    /// reports a failure as that failure, and any other reply as itself.
    pub fn request(received: Result<A::Reply, internet2::presentation::Error>) -> (r: Result<
        A::Reply,
        ServerError<A::FailureCodeExt>,
    >)
        ensures
            received matches Err(err) ==> r == outcome_of::<A::Reply, A::FailureCodeExt>(
                Err(err),
            ),
            received is Ok ==> r is Ok || r->Err_0 is ServerFailure,
            received matches Ok(reply) ==> exists|asked: Result<Failure<A::FailureCodeExt>, A::Reply>| #[trigger]
                call_ensures(A::failure, (reply,), asked) && r == outcome_of::<
                    A::Reply,
                    A::FailureCodeExt,
                >(Ok(asked)),
    {
        match received {
            Err(err) => outcome(Err(err)),
            Ok(reply) => outcome(Ok(A::failure(reply))),
        }
    }
}

} // verus!
