use crate::rpc::error::{Failure, FailureCodeExt};
use std::hash::Hash;
use std::fmt::{Debug, Display};
use vstd::laws_eq::obeys_concrete_eq;
use vstd::prelude::*;

verus! {

/// Marker for the requests of an RPC API.
pub trait Request: Debug + Display {

}

/// Marker for the replies of an RPC API.
pub trait Reply: Debug + Display {

}

/// Identifier of an RPC endpoint, chosen by the host application.
pub trait EndpointId: Copy + Eq + Hash + Debug + Display {

}

/// The endpoints of a client or a server, each of them once, in the order
/// in which their sessions are polled.
pub struct EndpointSet<E: EndpointId> {
    ids: Vec<E>,
}

impl<E: EndpointId> View for EndpointSet<E> {
    type V = Seq<E>;

    closed spec fn view(&self) -> Seq<E> {
        self.ids@
    }
}

impl<E: EndpointId> EndpointSet<E> {
    /// No endpoint stands in the set twice, where endpoints compare as
    /// they are.
    #[verifier::type_invariant]
    spec fn inv(self) -> bool {
        obeys_concrete_eq::<E>() ==> self.ids@.no_duplicates()
    }

    /// Where an endpoint stands among some endpoints: its first place.
    fn place(ids: &Vec<E>, endpoint: &E) -> (r: Option<usize>)
        ensures
            r matches Some(i) ==> i < ids@.len(),
            obeys_concrete_eq::<E>() ==> match r {
                Some(i) => ids@[i as int] == *endpoint && forall|j: int|
                    0 <= j < i ==> ids@[j] != *endpoint,
                None => !ids@.contains(*endpoint),
            },
    {
        let mut i: usize = 0;
        while i < ids.len()
            invariant
                i <= ids.len(),
                obeys_concrete_eq::<E>() ==> forall|j: int| 0 <= j < i ==> ids@[j] != *endpoint,
            decreases ids.len() - i,
        {
            proof {
                reveal(obeys_concrete_eq);
            }
            if ids[i] == *endpoint {
                return Some(i);
            }
            i += 1;
        }
        None
    }

    /// The set of the given endpoints: each of them once, at the place
    /// where it stands first. A list that names no endpoint twice is kept
    /// as it is.
    pub fn new(endpoints: Vec<E>) -> (set: Self)
        ensures
            obeys_concrete_eq::<E>() ==> set@.no_duplicates(),
            obeys_concrete_eq::<E>() ==> forall|e: E| set@.contains(e) <==> endpoints@.contains(e),
            obeys_concrete_eq::<E>() && endpoints@.no_duplicates() ==> set@ == endpoints@,
    {
        let mut ids: Vec<E> = Vec::new();
        let mut i: usize = 0;
        while i < endpoints.len()
            invariant
                i <= endpoints.len(),
                obeys_concrete_eq::<E>() ==> ids@.no_duplicates(),
                obeys_concrete_eq::<E>() ==> forall|e: E|
                    ids@.contains(e) <==> endpoints@.subrange(0, i as int).contains(e),
                obeys_concrete_eq::<E>() && endpoints@.no_duplicates() ==> ids@
                    == endpoints@.subrange(0, i as int),
            decreases endpoints.len() - i,
        {
            let endpoint = endpoints[i];
            let ghost before = ids@;
            let ghost seen = endpoints@.subrange(0, i as int);
            let ghost next = endpoints@.subrange(0, i + 1);
            assert(next =~= seen.push(endpoint));
            let found = Self::place(&ids, &endpoint);
            if found.is_none() {
                ids.push(endpoint);
            }
            proof {
                assert(ids@ =~= if found is None {
                    before.push(endpoint)
                } else {
                    before
                });
                if obeys_concrete_eq::<E>() {
                    assert(forall|e: E| before.contains(e) <==> seen.contains(e));
                    assert forall|e: E| ids@.contains(e) <==> next.contains(e) by {
                        if next.contains(e) {
                            let k = choose|k: int| 0 <= k < next.len() && next[k] == e;
                            if k < i {
                                assert(seen[k] == e);
                                assert(seen.contains(e));
                                assert(before.contains(e));
                                let m = choose|m: int| 0 <= m < before.len() && before[m] == e;
                                assert(ids@[m] == e);
                            } else {
                                assert(e == endpoint);
                                if found is None {
                                    assert(ids@[before.len() as int] == e);
                                } else {
                                    assert(ids@[found->Some_0 as int] == e);
                                }
                            }
                        }
                        if ids@.contains(e) {
                            let m = choose|m: int| 0 <= m < ids@.len() && ids@[m] == e;
                            if m < before.len() {
                                assert(before[m] == e);
                                assert(before.contains(e));
                                let k = choose|k: int| 0 <= k < seen.len() && seen[k] == e;
                                assert(next[k] == e);
                            } else {
                                assert(next[i as int] == e);
                            }
                        }
                    }
                    if endpoints@.no_duplicates() {
                        if found is Some {
                            let m = found->Some_0 as int;
                            assert(before[m] == endpoint);
                            assert(endpoints@[m] == endpoints@[i as int]);
                        }
                        assert(ids@ =~= next);
                    }
                }
            }
            i += 1;
        }
        assert(endpoints@.subrange(0, endpoints@.len() as int) =~= endpoints@);
        EndpointSet { ids }
    }

    /// The place of an endpoint in the set.
    pub fn find(&self, endpoint: &E) -> (r: Option<usize>)
        ensures
            r matches Some(i) ==> i < self@.len(),
            obeys_concrete_eq::<E>() ==> match r {
                Some(i) => self@[i as int] == *endpoint && i == self@.index_of(*endpoint),
                None => !self@.contains(*endpoint),
            },
    {
        proof {
            use_type_invariant(self);
        }
        let r = Self::place(&self.ids, endpoint);
        proof {
            if obeys_concrete_eq::<E>() && r is Some {
                let k = self@.index_of(*endpoint);
                assert(self@[r->Some_0 as int] == *endpoint);
                assert(self@[k] == *endpoint);
            }
        }
        r
    }

    /// The endpoints, in their order. None stands there twice.
    pub fn ids(&self) -> (ids: &Vec<E>)
        ensures
            ids@ == self@,
            obeys_concrete_eq::<E>() ==> ids@.no_duplicates(),
    {
        proof {
            use_type_invariant(self);
        }
        &self.ids
    }
}

/// An RPC API: the requests it takes, the replies it gives, the failure
/// codes of its own, and which of its replies report a failure.
pub trait Api {
    /// Requests supported by RPC API
    type Request: Request;

    /// Replies supported by RPC API
    type Reply: Reply + From<Failure<Self::FailureCodeExt>>;

    /// Failure codes that the service adds to the reserved ones
    type FailureCodeExt: FailureCodeExt;

    /// Takes the failure out of a reply that reports one, and hands any
    /// other reply back.
    fn failure(reply: Self::Reply) -> Result<Failure<Self::FailureCodeExt>, Self::Reply>;
}

} // verus!
