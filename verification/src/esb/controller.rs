use super::bus::{carrier_locator, has_locator, role_of, socket_role};
use super::{BusConfig, BusError, BusId, ServiceAddress, SocketRole};
use crate::rpc::Request;
use vstd::laws_eq::obeys_concrete_eq;
use vstd::prelude::*;
use std::marker::PhantomData;
use vstd::slice::slice_to_vec;
use vstd::utf8::encode_utf8;

verus! {

/// A frame that is routed from one service to another, as it goes over a
/// bus.
#[derive(Clone, PartialEq, Eq, Hash, Debug)]
pub struct RoutedFrame {
    /// The service that the frame is handed to next
    pub hop: Vec<u8>,
    /// The service that sent the message
    pub src: Vec<u8>,
    /// The service that the message is for
    pub dst: Vec<u8>,
    /// The message
    pub msg: Vec<u8>,
}

/// A frame as four byte strings: next hop, source, destination, message.
pub struct FrameView {
    pub hop: Seq<u8>,
    pub src: Seq<u8>,
    pub dst: Seq<u8>,
    pub msg: Seq<u8>,
}

impl View for RoutedFrame {
    type V = FrameView;

    open spec fn view(&self) -> FrameView {
        FrameView { hop: self.hop@, src: self.src@, dst: self.dst@, msg: self.msg@ }
    }
}

/// The service that gets a frame next: the destination, unless the bus has
/// a router and the source is not that router.
pub open spec fn route(router: Option<Seq<u8>>, source: Seq<u8>, dest: Seq<u8>) -> Seq<u8> {
    match router {
        None => dest,
        Some(r) => if source == r {
            dest
        } else {
            r
        },
    }
}

/// The router that a bus keeps: none where the configured one is the
/// service itself.
pub open spec fn own_router(router: Option<Seq<u8>>, identity: Seq<u8>) -> Option<Seq<u8>> {
    match router {
        Some(r) if r == identity => None,
        other => other,
    }
}

/// Whether two byte strings are the same.
pub fn same_bytes(a: &[u8], b: &[u8]) -> (same: bool)
    ensures
        same == (a@ == b@),
{
    if a.len() != b.len() {
        return false;
    }
    let mut i: usize = 0;
    while i < a.len()
        invariant
            i <= a.len(),
            a.len() == b.len(),
            forall|j: int| 0 <= j < i ==> a@[j] == b@[j],
        decreases a.len() - i,
    {
        if a[i] != b[i] {
            return false;
        }
        i += 1;
    }
    assert(a@ =~= b@);
    true
}

/// What the shell around the controller is asked to do on a bus.
#[derive(Clone, PartialEq, Eq, Debug)]
pub enum BusAction {
    /// Send a frame.
    Send(RoutedFrame),
    /// Give the session a new local identity.
    SetIdentity(Vec<u8>),
}

/// An action over byte strings.
pub enum ActionView {
    Send(FrameView),
    SetIdentity(Seq<u8>),
}

impl View for BusAction {
    type V = ActionView;

    open spec fn view(&self) -> ActionView {
        match self {
            BusAction::Send(frame) => ActionView::Send(frame@),
            BusAction::SetIdentity(identity) => ActionView::SetIdentity(identity@),
        }
    }
}

/// The bytes of a byte string that may be missing.
pub open spec fn opt_view(bytes: Option<Vec<u8>>) -> Option<Seq<u8>> {
    match bytes {
        Some(b) => Some(b@),
        None => None,
    }
}

/// Makes the frame for a message from `src` to `dst` on a bus with the
/// given router.
pub fn route_frame(router: &Option<Vec<u8>>, src: Vec<u8>, dst: Vec<u8>, msg: Vec<u8>) -> (frame:
    RoutedFrame)
    ensures
        frame@ == (FrameView {
            hop: route(opt_view(*router), src@, dst@),
            src: src@,
            dst: dst@,
            msg: msg@,
        }),
{
    let hop = match router {
        None => slice_to_vec(dst.as_slice()),
        Some(via) => {
            if same_bytes(src.as_slice(), via.as_slice()) {
                slice_to_vec(dst.as_slice())
            } else {
                slice_to_vec(via.as_slice())
            }
        },
    };
    RoutedFrame { hop, src, dst, msg }
}

/// The buses of a service, each with its routing policy, and the actions
/// that wait for the shell.
pub struct EndpointList<B: BusId> {
    entries: Vec<(B, Option<Vec<u8>>, bool)>,
    actions: Vec<(B, BusAction)>,
}

/// How far the session of a bus has come. A session is never torn down:
/// after a transport error it is still there for the next attempt.
#[derive(Clone, Copy, Debug, PartialEq, Eq, Structural)]
pub enum SessionState {
    /// The session is open, and nothing went over it yet.
    Connected,
    /// A message was sent or received over the session.
    Active,
}

/// The buses of the entries of a table, in their order.
spec fn keys<B>(entries: Seq<(B, Option<Vec<u8>>, bool)>) -> Seq<B> {
    Seq::new(entries.len(), |i: int| entries[i].0)
}

impl<B: BusId> EndpointList<B> {
    /// The buses, in the order in which they are polled.
    pub closed spec fn order(&self) -> Seq<B> {
        keys(self.entries@)
    }

    /// The router of the bus at a place in the order.
    pub closed spec fn router_at(&self, i: int) -> Option<Seq<u8>> {
        opt_view(self.entries@[i].1)
    }

    /// The actions that wait for the shell, oldest first.
    pub closed spec fn pending(&self) -> Seq<(B, ActionView)> {
        Seq::new(self.actions@.len(), |i: int| (self.actions@[i].0, self.actions@[i].1@))
    }

    /// Whether a message went over the session of the bus at a place in
    /// the order.
    pub closed spec fn active_at(&self, i: int) -> bool {
        self.entries@[i].2
    }

    /// How far the session of a bus of the table has come.
    pub open spec fn state_of(&self, bus: B) -> SessionState {
        if self.active_at(self.order().index_of(bus)) {
            SessionState::Active
        } else {
            SessionState::Connected
        }
    }

    /// Every bus stands in the table once, where buses compare as they
    /// are.
    #[verifier::type_invariant]
    spec fn inv(self) -> bool {
        obeys_concrete_eq::<B>() ==> self.order().no_duplicates()
    }

    /// Whether the table holds a bus.
    pub open spec fn has(&self, bus: B) -> bool {
        self.order().contains(bus)
    }

    /// The router of a bus that the table holds.
    pub open spec fn router_of(&self, bus: B) -> Option<Seq<u8>> {
        self.router_at(self.order().index_of(bus))
    }

    /// The table after one more action was asked for.
    pub open spec fn asked(&self, before: Self, bus: B, action: ActionView) -> bool {
        &&& self.order() == before.order()
        &&& forall|i: int| self.router_at(i) == before.router_at(i)
        &&& forall|i: int| self.active_at(i) == before.active_at(i)
        &&& self.pending() == before.pending().push((bus, action))
    }

    /// The table with nothing new asked for.
    pub open spec fn same(&self, before: Self) -> bool {
        &&& self.order() == before.order()
        &&& forall|i: int| self.router_at(i) == before.router_at(i)
        &&& forall|i: int| self.active_at(i) == before.active_at(i)
        &&& self.pending() == before.pending()
    }

    /// A table without buses.
    pub fn new() -> (list: Self)
        ensures
            list.order() == Seq::<B>::empty(),
            list.pending() == Seq::<(B, ActionView)>::empty(),
    {
        let list = EndpointList { entries: Vec::new(), actions: Vec::new() };
        assert(list.order() =~= Seq::<B>::empty());
        assert(list.pending() =~= Seq::<(B, ActionView)>::empty());
        list
    }

    /// Where a bus stands in the table.
    fn find(&self, bus: &B) -> (place: Option<usize>)
        ensures
            place matches Some(i) ==> i < self.order().len(),
            obeys_concrete_eq::<B>() ==> (place is Some <==> self.has(*bus)),
            obeys_concrete_eq::<B>() ==> (place matches Some(i) ==> self.order()[i as int]
                == *bus),
            obeys_concrete_eq::<B>() ==> (place matches Some(i) ==> i == self.order().index_of(
                *bus,
            )),
    {
        proof {
            use_type_invariant(self);
        }
        let mut i: usize = 0;
        while i < self.entries.len()
            invariant
                i <= self.entries.len(),
                obeys_concrete_eq::<B>() ==> self.order().no_duplicates(),
                obeys_concrete_eq::<B>() ==> forall|j: int| 0 <= j < i ==> self.order()[j] != *bus,
            decreases self.entries.len() - i,
        {
            proof {
                reveal(obeys_concrete_eq);
            }
            if self.entries[i].0 == *bus {
                proof {
                    if obeys_concrete_eq::<B>() {
                        assert(self.order()[i as int] == *bus);
                        let k = self.order().index_of(*bus);
                        assert(self.order()[k] == *bus);
                    }
                }
                return Some(i);
            }
            i += 1;
        }
        None
    }

    /// Puts a bus into the table, in place of what the table held for it.
    fn insert(&mut self, id: B, router: Option<Vec<u8>>)
        ensures
            final(self).pending() == old(self).pending(),
            obeys_concrete_eq::<B>() ==> {
                &&& final(self).has(id)
                &&& final(self).router_of(id) == opt_view(router)
                &&& final(self).state_of(id) == SessionState::Connected
                &&& final(self).order() == if old(self).has(id) {
                    old(self).order()
                } else {
                    old(self).order().push(id)
                }
                &&& forall|b: B| b != id ==> final(self).has(b) == old(self).has(b)
                &&& forall|b: B|
                    b != id && old(self).has(b) ==> final(self).router_of(b) == old(self).router_of(b)
                        && final(self).state_of(b) == old(self).state_of(b)
            },
    {
        let ghost before = *self;
        proof {
            use_type_invariant(&*self);
        }
        match self.find(&id) {
            Some(i) => {
                let mut entries = Vec::new();
                std::mem::swap(&mut entries, &mut self.entries);
                entries.set(i, (id, router, false));
                proof {
                    if obeys_concrete_eq::<B>() {
                        assert(keys(entries@) =~= before.order());
                    }
                }
                self.entries = entries;
                proof {
                    if obeys_concrete_eq::<B>() {
                        assert(self.order() =~= before.order());
                        assert(forall|j: int|
                            0 <= j < self.order().len() && j != i ==> self.router_at(j)
                                == before.router_at(j) && self.active_at(j) == before.active_at(
                                j,
                            ));
                        assert forall|b: B| b != id && before.has(b) implies self.router_of(b)
                            == before.router_of(b) && self.state_of(b) == before.state_of(b) by {
                            let k = before.order().index_of(b);
                            assert(before.order()[k] == b);
                        }
                    }
                }
            },
            None => {
                let mut entries = Vec::new();
                std::mem::swap(&mut entries, &mut self.entries);
                entries.push((id, router, false));
                proof {
                    if obeys_concrete_eq::<B>() {
                        assert(keys(entries@) =~= before.order().push(id));
                        assert(!before.order().contains(id));
                        assert forall|i: int, j: int|
                            0 <= i < keys(entries@).len() && 0 <= j < keys(entries@).len() && i
                                != j implies keys(entries@)[i] != keys(entries@)[j] by {
                            if i < before.order().len() {
                                assert(before.order()[i] == keys(entries@)[i]);
                            }
                            if j < before.order().len() {
                                assert(before.order()[j] == keys(entries@)[j]);
                            }
                        }
                    }
                }
                self.entries = entries;
                proof {
                    if obeys_concrete_eq::<B>() {
                        let n = before.order().len() as int;
                        assert(self.order() =~= before.order().push(id));
                        assert(self.order()[n] == id);
                        assert(self.has(id));
                        let k = self.order().index_of(id);
                        assert(self.order()[k] == id);
                        assert(k == n);
                        assert(forall|j: int|
                            0 <= j < n ==> self.router_at(j) == before.router_at(j)
                                && self.active_at(j) == before.active_at(j));
                        assert forall|b: B| b != id implies self.has(b) == before.has(b) by {
                            if before.has(b) {
                                let j = before.order().index_of(b);
                                assert(before.order()[j] == b);
                                assert(self.order()[j] == b);
                            }
                            if self.has(b) {
                                let j = self.order().index_of(b);
                                assert(self.order()[j] == b);
                                assert(j != n);
                                assert(before.order()[j] == b);
                            }
                        }
                        assert forall|b: B| b != id && before.has(b) implies self.router_of(b)
                            == before.router_of(b) && self.state_of(b) == before.state_of(b) by {
                            let j = before.order().index_of(b);
                            assert(before.order()[j] == b);
                            assert(self.order()[j] == b);
                            let j2 = self.order().index_of(b);
                            assert(self.order()[j2] == b);
                            assert(j2 == j);
                        }
                    }
                }
            },
        }
        assert(self.pending() =~= before.pending());
    }

    /// How far the session of a bus has come, if the table holds the bus.
    pub fn state(&self, bus_id: B) -> (state: Option<SessionState>)
        ensures
            obeys_concrete_eq::<B>() ==> state == if self.has(bus_id) {
                Some(self.state_of(bus_id))
            } else {
                None
            },
    {
        match self.find(&bus_id) {
            None => None,
            Some(i) => if self.entries[i].2 {
                Some(SessionState::Active)
            } else {
                Some(SessionState::Connected)
            },
        }
    }

    /// Notes that a message was sent or received over the session of a
    /// bus, which is active from then on. Says whether the table holds the
    /// bus.
    pub fn touch(&mut self, bus_id: B) -> (known: bool)
        ensures
            final(self).order() == old(self).order(),
            final(self).pending() == old(self).pending(),
            forall|i: int|
                0 <= i < old(self).order().len() ==> final(self).router_at(i) == old(self).router_at(i),
            !known ==> final(self).same(*old(self)),
            obeys_concrete_eq::<B>() ==> known == old(self).has(bus_id),
            obeys_concrete_eq::<B>() && known ==> final(self).state_of(bus_id)
                == SessionState::Active,
            obeys_concrete_eq::<B>() ==> forall|b: B|
                b != bus_id && old(self).has(b) ==> final(self).state_of(b) == old(self).state_of(
                    b,
                ),
    {
        let ghost before = *self;
        proof {
            use_type_invariant(&*self);
        }
        match self.find(&bus_id) {
            None => {
                assert(self.same(before));
                false
            },
            Some(i) => {
                let mut entries = Vec::new();
                std::mem::swap(&mut entries, &mut self.entries);
                let (id, router, _) = entries.remove(i);
                entries.insert(i, (id, router, true));
                proof {
                    assert(keys(entries@) =~= before.order());
                }
                self.entries = entries;
                proof {
                    assert(self.order() =~= before.order());
                    assert(self.pending() =~= before.pending());
                    assert(forall|j: int|
                        0 <= j < before.order().len() ==> self.entries@[j].1
                            == before.entries@[j].1);
                    if obeys_concrete_eq::<B>() {
                        assert(self.active_at(i as int));
                        assert forall|b: B| b != bus_id && before.has(b) implies self.state_of(b)
                            == before.state_of(b) by {
                            let k = before.order().index_of(b);
                            assert(before.order()[k] == b);
                            assert(k != i);
                            assert(self.entries@[k] == before.entries@[k]);
                        }
                    }
                }
                true
            },
        }
    }

    /// Asks for a frame with the given source, destination and message to
    /// be sent over a bus: it goes to the destination, or to the router of
    /// the bus where it has one that is not the source. On a bus that the
    /// table does not hold, nothing is asked for.
    pub fn send_frame(&mut self, bus_id: B, src: Vec<u8>, dst: Vec<u8>, msg: Vec<u8>) -> (r:
        Result<(), BusError<B::Address>>)
        ensures
            r matches Err(e) ==> e is UnknownBusId && final(self).same(*old(self)),
            obeys_concrete_eq::<B>() ==> (r is Ok <==> old(self).has(bus_id)),
            r is Ok ==> final(self).order() == old(self).order() && final(self).pending().len()
                == old(self).pending().len() + 1,
            r is Ok ==> forall|i: int| final(self).router_at(i) == old(self).router_at(i),
            r is Ok ==> exists|i: int|
                0 <= i < old(self).order().len() && #[trigger] final(self).asked(
                    *old(self),
                    bus_id,
                    ActionView::Send(
                        FrameView {
                            hop: route(old(self).router_at(i), src@, dst@),
                            src: src@,
                            dst: dst@,
                            msg: msg@,
                        },
                    ),
                ),
            obeys_concrete_eq::<B>() && r is Ok ==> final(self).asked(
                *old(self),
                bus_id,
                ActionView::Send(
                    FrameView {
                        hop: route(old(self).router_of(bus_id), src@, dst@),
                        src: src@,
                        dst: dst@,
                        msg: msg@,
                    },
                ),
            ),
    {
        let ghost before = *self;
        proof {
            use_type_invariant(&*self);
        }
        match self.find(&bus_id) {
            None => {
                let e = BusError::UnknownBusId(bus_id.to_string());
                assert(self.same(before));
                Err(e)
            },
            Some(i) => {
                let frame = route_frame(&self.entries[i].1, src, dst, msg);
                let mut actions = Vec::new();
                std::mem::swap(&mut actions, &mut self.actions);
                actions.push((bus_id, BusAction::Send(frame)));
                self.actions = actions;
                assert(self.order() =~= before.order());
                assert(self.pending() =~= before.pending().push((bus_id, ActionView::Send(frame@))));
                assert(self.asked(
                    before,
                    bus_id,
                    ActionView::Send(
                        FrameView {
                            hop: route(before.router_at(i as int), src@, dst@),
                            src: src@,
                            dst: dst@,
                            msg: msg@,
                        },
                    ),
                ));
                Ok(())
            },
        }
    }

    /// Asks for a message to be sent from `source` to `dest` over a bus,
    /// routed as the bus says.
    pub fn send_to(
        &mut self,
        bus_id: B,
        source: B::Address,
        dest: B::Address,
        data: Vec<u8>,
    ) -> (r: Result<(), BusError<B::Address>>)
        ensures
            r matches Err(e) ==> e is UnknownBusId && final(self).same(*old(self)),
            obeys_concrete_eq::<B>() ==> (r is Ok <==> old(self).has(bus_id)),
            final(self).order() == old(self).order(),
            forall|i: int| final(self).router_at(i) == old(self).router_at(i),
            r is Ok ==> final(self).pending().len() == old(self).pending().len() + 1,
            exists|src: Vec<u8>, dst: Vec<u8>|
                {
                    &&& #[trigger] call_ensures(<B::Address as Into<Vec<u8>>>::into, (source,), src)
                    &&& #[trigger] call_ensures(<B::Address as Into<Vec<u8>>>::into, (dest,), dst)
                    &&& obeys_concrete_eq::<B>() && r is Ok ==> final(self).asked(
                        *old(self),
                        bus_id,
                        ActionView::Send(
                            FrameView {
                                hop: route(old(self).router_of(bus_id), src@, dst@),
                                src: src@,
                                dst: dst@,
                                msg: data@,
                            },
                        ),
                    )
                },
    {
        let src: Vec<u8> = source.into();
        let dst: Vec<u8> = dest.into();
        self.send_frame(bus_id, src, dst, data)
    }

    /// Asks for the session of a bus to get a new local identity.
    pub fn set_identity(&mut self, bus_id: B, identity: B::Address) -> (r: Result<
        (),
        BusError<B::Address>,
    >)
        ensures
            r matches Err(e) ==> e is UnknownBusId && final(self).same(*old(self)),
            obeys_concrete_eq::<B>() ==> (r is Ok <==> old(self).has(bus_id)),
            final(self).order() == old(self).order(),
            forall|i: int| final(self).router_at(i) == old(self).router_at(i),
            r is Ok ==> final(self).pending().len() == old(self).pending().len() + 1,
            r is Ok ==> exists|bytes: Vec<u8>|
                {
                    &&& #[trigger] call_ensures(
                        <B::Address as Into<Vec<u8>>>::into,
                        (identity,),
                        bytes,
                    )
                    &&& final(self).asked(*old(self), bus_id, ActionView::SetIdentity(bytes@))
                },
    {
        let ghost before = *self;
        proof {
            use_type_invariant(&*self);
        }
        match self.find(&bus_id) {
            None => {
                let e = BusError::UnknownBusId(bus_id.to_string());
                assert(self.same(before));
                Err(e)
            },
            Some(_) => {
                let bytes: Vec<u8> = identity.into();
                let mut actions = Vec::new();
                std::mem::swap(&mut actions, &mut self.actions);
                actions.push((bus_id, BusAction::SetIdentity(bytes)));
                self.actions = actions;
                assert(self.order() =~= before.order());
                assert(self.pending() =~= before.pending().push(
                    (bus_id, ActionView::SetIdentity(bytes@)),
                ));
                Ok(())
            },
        }
    }

    /// Hands the waiting actions to the shell, oldest first, and forgets
    /// them.
    pub fn take_actions(&mut self) -> (actions: Vec<(B, BusAction)>)
        ensures
            final(self).order() == old(self).order(),
            forall|i: int| final(self).router_at(i) == old(self).router_at(i),
            final(self).pending() == Seq::<(B, ActionView)>::empty(),
            actions@.len() == old(self).pending().len(),
            forall|i: int|
                0 <= i < actions@.len() ==> (actions@[i].0, actions@[i].1@) == old(self).pending()[i],
    {
        let ghost before = *self;
        proof {
            use_type_invariant(&*self);
        }
        let mut actions: Vec<(B, BusAction)> = Vec::new();
        std::mem::swap(&mut actions, &mut self.actions);
        assert(self.order() =~= before.order());
        assert(self.pending() =~= Seq::<(B, ActionView)>::empty());
        actions
    }

    /// The buses, in the order in which they are polled. No bus stands
    /// there twice.
    pub fn buses(&self) -> (ids: Vec<B>)
        ensures
            ids@ == self.order(),
            obeys_concrete_eq::<B>() ==> ids@.no_duplicates(),
    {
        proof {
            use_type_invariant(self);
        }
        let mut ids: Vec<B> = Vec::new();
        let mut i: usize = 0;
        while i < self.entries.len()
            invariant
                i <= self.entries.len(),
                ids@.len() == i,
                forall|j: int| 0 <= j < i ==> ids@[j] == self.order()[j],
            decreases self.entries.len() - i,
        {
            ids.push(self.entries[i].0);
            i += 1;
        }
        assert(ids@ =~= self.order());
        ids
    }
}

/// Routing: a frame on a bus without a router goes to its destination, and
/// so does a frame that the router itself sends; any other frame goes to
/// the router.
pub proof fn lemma_routing(router: Option<Seq<u8>>, source: Seq<u8>, dest: Seq<u8>)
    ensures
        router is None ==> route(router, source, dest) == dest,
        router == Some(source) ==> route(router, source, dest) == dest,
        router matches Some(r) ==> (r != source ==> route(router, source, dest) == r),
{
}

/// A service never keeps itself as the router of a bus, so no frame of its
/// own is routed back to it.
pub proof fn lemma_own_router(router: Option<Seq<u8>>, identity: Seq<u8>, dest: Seq<u8>)
    ensures
        own_router(router, identity) != Some(identity),
        dest != identity ==> route(own_router(router, identity), identity, dest) != identity,
        route(own_router(router, identity), identity, dest) == route(router, identity, dest),
{
}

/// The buses among the first `n` of the poll set on which the poll found
/// something, in the order of the poll set.
pub open spec fn ready_upto<B>(order: Seq<B>, revents: Seq<i16>, n: nat) -> Seq<B>
    decreases n,
{
    if n == 0 {
        Seq::empty()
    } else {
        let rest = ready_upto(order, revents, (n - 1) as nat);
        if revents[n - 1] != 0 {
            rest.push(order[n - 1])
        } else {
            rest
        }
    }
}

/// The buses on which the poll found something, in the order of the poll
/// set.
pub open spec fn ready_of<B>(order: Seq<B>, revents: Seq<i16>) -> Seq<B> {
    ready_upto(
        order,
        revents,
        if order.len() <= revents.len() {
            order.len()
        } else {
            revents.len()
        },
    )
}

/// Whether the poll found something on the bus at a place of the poll set.
pub open spec fn ready_at<B>(order: Seq<B>, revents: Seq<i16>, i: int, bus: B) -> bool {
    order[i] == bus && revents[i] != 0
}

/// A bus is among the ready ones just where the poll found something on it
/// at one of its places in the poll set.
pub proof fn lemma_ready_members<B>(order: Seq<B>, revents: Seq<i16>, n: nat, bus: B)
    requires
        n <= order.len(),
        n <= revents.len(),
    ensures
        ready_upto(order, revents, n).contains(bus) <==> exists|i: int|
            0 <= i < n && #[trigger] ready_at(order, revents, i, bus),
        ready_upto(order, revents, n).len() <= n,
    decreases n,
{
    if n > 0 {
        let m = (n - 1) as nat;
        let rest = ready_upto(order, revents, m);
        lemma_ready_members(order, revents, m, bus);
        if revents[n - 1] != 0 {
            let all = rest.push(order[n - 1]);
            if all.contains(bus) {
                let k = choose|k: int| 0 <= k < all.len() && all[k] == bus;
                if k < rest.len() {
                    assert(rest[k] == bus);
                    assert(rest.contains(bus));
                } else {
                    assert(ready_at(order, revents, n - 1, bus));
                }
            }
            if exists|i: int| 0 <= i < n && #[trigger] ready_at(order, revents, i, bus) {
                let i = choose|i: int| 0 <= i < n && #[trigger] ready_at(order, revents, i, bus);
                if i < m {
                    assert(rest.contains(bus));
                    let k = choose|k: int| 0 <= k < rest.len() && rest[k] == bus;
                    assert(all[k] == bus);
                } else {
                    assert(all[rest.len() as int] == bus);
                }
            }
        } else {
            if exists|i: int| 0 <= i < n && #[trigger] ready_at(order, revents, i, bus) {
                let i = choose|i: int| 0 <= i < n && #[trigger] ready_at(order, revents, i, bus);
                assert(i < m);
            }
        }
    }
}

/// Picks from a poll set the entries whose returned events are not empty.
pub fn ready_entries<B: Copy>(order: &[B], revents: &[i16]) -> (ready: Vec<B>)
    ensures
        ready@ == ready_of(order@, revents@),
{
    let n = if order.len() <= revents.len() {
        order.len()
    } else {
        revents.len()
    };
    let mut ready: Vec<B> = Vec::new();
    let mut i: usize = 0;
    while i < n
        invariant
            i <= n,
            n <= order.len(),
            n <= revents.len(),
            ready@ == ready_upto(order@, revents@, i as nat),
        decreases n - i,
    {
        if revents[i] != 0 {
            ready.push(order[i]);
        }
        i += 1;
    }
    ready
}

/// Reacts to the requests that arrive on the buses of a service, and
/// decides which errors end the service.
pub trait Handler<B: BusId>: Sized {
    /// The requests that the service takes
    type Request: Request;

    /// The errors of the service itself
    type Error;

    /// The address of the service.
    fn identity(&self) -> B::Address;

    /// Turns an error of the service into a bus error.
    fn bus_error(err: Self::Error) -> BusError<B::Address>;

    /// Called once, before the first request. It may ask for messages to
    /// be sent.
    fn on_ready(&mut self, endpoints: &mut EndpointList<B>) -> Result<(), Self::Error>;

    /// Called for each request that is for this service. It may ask for
    /// messages to be sent.
    fn handle(
        &mut self,
        endpoints: &mut EndpointList<B>,
        bus_id: B,
        source: B::Address,
        request: Self::Request,
    ) -> Result<(), Self::Error>;

    /// Called for each error on a bus. An error that it returns ends the
    /// service.
    fn handle_err(
        &mut self,
        endpoints: &mut EndpointList<B>,
        error: BusError<B::Address>,
    ) -> Result<(), Self::Error>;
}

/// A request that arrived on a bus, with the service that sent it.
#[derive(Debug)]
pub struct PollItem<B: BusId, R: Request> {
    pub bus_id: B,
    pub source: B::Address,
    pub request: R,
}

/// How the session of a bus is to be set up.
pub struct SessionPlan {
    /// Role of the local socket
    pub api_type: internet2::ZmqSocketType,
    /// What the session is opened on
    pub carrier: internet2::zeromq::Carrier,
    /// The identity to connect with; none where the socket is already
    /// there
    pub identity: Option<Vec<u8>>,
    /// Whether sending to a peer that is not there must fail at once
    pub router_mandatory: bool,
    /// The topic to subscribe to, for a subscriber
    pub subscribe: Option<Vec<u8>>,
    /// The router that the bus keeps
    pub router: Option<Vec<u8>>,
}

/// What a subscriber subscribes to: the bytes of the topic, and the empty
/// topic, which takes every message, where none is configured.
pub open spec fn topic_bytes(topic: Option<String>) -> Seq<u8> {
    match topic {
        Some(t) => encode_utf8(t@),
        None => Seq::empty(),
    }
}

impl SessionPlan {
    /// Decides how the session of a bus is set up for a service with the
    /// given identity: a session that connects does so under the identity;
    /// a bus that does not queue makes sending to an absent peer fail; a
    /// subscriber subscribes to the topic; and a router that is the service
    /// itself is dropped.
    pub fn new(
        api_type: internet2::ZmqSocketType,
        carrier: internet2::zeromq::Carrier,
        router: Option<Vec<u8>>,
        queued: bool,
        topic: Option<String>,
        identity: Vec<u8>,
    ) -> (plan: Self)
        ensures
            plan.api_type == api_type,
            plan.carrier == carrier,
            opt_view(plan.identity) == if carrier_locator(carrier) is Some {
                Some(identity@)
            } else {
                None
            },
            plan.router_mandatory == !queued,
            opt_view(plan.subscribe) == if role_of(api_type) == Some(SocketRole::Sub) {
                Some(topic_bytes(topic))
            } else {
                None
            },
            opt_view(plan.router) == own_router(opt_view(router), identity@),
    {
        let router = match router {
            Some(r) => {
                if same_bytes(r.as_slice(), identity.as_slice()) {
                    None
                } else {
                    Some(r)
                }
            },
            None => None,
        };
        let subscribe = match socket_role(api_type) {
            Some(SocketRole::Sub) => Some(
                match &topic {
                    Some(t) => slice_to_vec(t.as_str().as_bytes()),
                    None => Vec::new(),
                },
            ),
            _ => None,
        };
        let identity = if has_locator(&carrier) {
            Some(identity)
        } else {
            None
        };
        SessionPlan { api_type, carrier, identity, router_mandatory: !queued, subscribe, router }
    }
}

impl<A: ServiceAddress> BusConfig<A> {
    /// Decides how the session of the bus is set up for a service with the
    /// given identity.
    pub fn into_plan(self, identity: Vec<u8>) -> (plan: SessionPlan)
        ensures
            plan.api_type == self.api_type,
            plan.carrier == self.carrier,
            opt_view(plan.identity) == if carrier_locator(self.carrier) is Some {
                Some(identity@)
            } else {
                None
            },
            plan.router_mandatory == !self.queued,
            opt_view(plan.subscribe) == if role_of(self.api_type) == Some(SocketRole::Sub) {
                Some(topic_bytes(self.topic))
            } else {
                None
            },
            self.router is None ==> plan.router is None,
            self.router matches Some(router) ==> exists|bytes: Vec<u8>|
                {
                    &&& #[trigger] call_ensures(<A as Into<Vec<u8>>>::into, (router,), bytes)
                    &&& opt_view(plan.router) == own_router(Some(bytes@), identity@)
                },
    {
        let router: Option<Vec<u8>> = match self.router {
            Some(r) => Some(r.into()),
            None => None,
        };
        SessionPlan::new(self.api_type, self.carrier, router, self.queued, self.topic, identity)
    }
}

/// What a verdict of the handler becomes for the one who runs the service:
/// success stays success, and an error of the service is the bus error that
/// the handler turns it into.
pub open spec fn settled<B: BusId, H: Handler<B>>(
    handled: Result<(), H::Error>,
    r: Result<(), BusError<B::Address>>,
) -> bool {
    match handled {
        Ok(_) => r is Ok,
        Err(err) => r is Err && call_ensures(H::bus_error, (err,), r->Err_0),
    }
}

/// The routing core of a service: the table of its buses and the handler
/// of its requests. It decides; the shell around it owns the sessions,
/// polls them, and carries out the actions that the table collects.
#[verifier::reject_recursive_types(R)]
pub struct Controller<B, R, H> where R: Request, B: BusId, H: Handler<B, Request = R> {
    endpoints: EndpointList<B>,
    handler: H,
    request: PhantomData<R>,
}

impl<B, R, H> Controller<B, R, H> where R: Request, B: BusId, H: Handler<B, Request = R> {
    /// The table of buses.
    pub closed spec fn table(&self) -> EndpointList<B> {
        self.endpoints
    }

    /// The handler.
    pub closed spec fn service(&self) -> H {
        self.handler
    }

    /// A request was relayed: the handler did not see it, and a frame from
    /// the source to the destination with the message was asked to be sent
    /// over the bus, routed as the bus says; on a bus that the table does
    /// not hold, nothing was asked for.
    pub open spec fn relayed(
        &self,
        before: Self,
        bus_id: B,
        source: B::Address,
        dest: B::Address,
        msg: Vec<u8>,
        r: Result<(), BusError<B::Address>>,
    ) -> bool {
        &&& self.service() == before.service()
        &&& self.table().order() == before.table().order()
        &&& forall|i: int| self.table().router_at(i) == before.table().router_at(i)
        &&& r matches Err(e) ==> e is UnknownBusId && self.table().same(before.table())
        &&& obeys_concrete_eq::<B>() ==> (r is Ok <==> before.table().has(bus_id))
        &&& exists|src: Vec<u8>, dst: Vec<u8>|
            {
                &&& #[trigger] call_ensures(<B::Address as Into<Vec<u8>>>::into, (source,), src)
                &&& #[trigger] call_ensures(<B::Address as Into<Vec<u8>>>::into, (dest,), dst)
                &&& obeys_concrete_eq::<B>() && r is Ok ==> self.table().asked(
                    before.table(),
                    bus_id,
                    ActionView::Send(
                        FrameView {
                            hop: route(before.table().router_of(bus_id), src@, dst@),
                            src: src@,
                            dst: dst@,
                            msg: msg@,
                        },
                    ),
                )
            }
    }

    /// A controller without buses.
    pub fn with(handler: H) -> (controller: Self)
        ensures
            controller.service() == handler,
            controller.table().order() == Seq::<B>::empty(),
            controller.table().pending() == Seq::<(B, ActionView)>::empty(),
    {
        Controller { endpoints: EndpointList::new(), handler, request: PhantomData }
    }

    /// The table of buses.
    pub fn endpoints(&self) -> (endpoints: &EndpointList<B>)
        ensures
            *endpoints == self.table(),
    {
        &self.endpoints
    }

    /// The handler.
    pub fn handler(&self) -> (handler: &H)
        ensures
            *handler == self.service(),
    {
        &self.handler
    }

    /// Decides how the session of a new bus is set up, under the identity
    /// that the handler has now.
    pub fn plan_service_bus(&self, config: BusConfig<B::Address>) -> (plan: SessionPlan)
        ensures
            plan.api_type == config.api_type,
            plan.carrier == config.carrier,
            plan.identity is Some <==> carrier_locator(config.carrier) is Some,
            exists|address: B::Address, identity: Vec<u8>|
                {
                    &&& call_ensures(H::identity, (&self.service(),), address)
                    &&& #[trigger] call_ensures(
                        <B::Address as Into<Vec<u8>>>::into,
                        (address,),
                        identity,
                    )
                    &&& opt_view(plan.identity) == if carrier_locator(config.carrier) is Some {
                        Some(identity@)
                    } else {
                        None
                    }
                    &&& config.router is Some ==> exists|bytes: Vec<u8>|
                        {
                            &&& #[trigger] call_ensures(
                                <B::Address as Into<Vec<u8>>>::into,
                                (config.router->Some_0,),
                                bytes,
                            )
                            &&& opt_view(plan.router) == own_router(Some(bytes@), identity@)
                        }
                },
            plan.router_mandatory == !config.queued,
            opt_view(plan.subscribe) == if role_of(config.api_type) == Some(SocketRole::Sub) {
                Some(topic_bytes(config.topic))
            } else {
                None
            },
            config.router is None ==> plan.router is None,
    {
        let identity: Vec<u8> = self.handler.identity().into();
        config.into_plan(identity)
    }

    /// Takes a bus into the table once its session is open, with the
    /// router that its plan kept. Where the session could not be opened,
    /// the table stays as it is and the transport error is returned.
    pub fn add_service_bus(
        &mut self,
        id: B,
        router: Option<Vec<u8>>,
        opened: Result<(), internet2::transport::Error>,
    ) -> (r: Result<(), BusError<B::Address>>)
        ensures
            final(self).service() == old(self).service(),
            final(self).table().pending() == old(self).table().pending(),
            opened matches Err(cause) ==> r == Err::<(), BusError<B::Address>>(
                BusError::Transport(cause),
            ) && final(self).table() == old(self).table(),
            opened is Ok ==> r is Ok,
            opened is Ok && obeys_concrete_eq::<B>() ==> {
                &&& final(self).table().has(id)
                &&& final(self).table().router_of(id) == opt_view(router)
                &&& final(self).table().state_of(id) == SessionState::Connected
                &&& final(self).table().order() == if old(self).table().has(id) {
                    old(self).table().order()
                } else {
                    old(self).table().order().push(id)
                }
                &&& forall|b: B| b != id ==> final(self).table().has(b) == old(self).table().has(b)
                &&& forall|b: B|
                    b != id && old(self).table().has(b) ==> final(self).table().router_of(b)
                        == old(self).table().router_of(b)
            },
    {
        match opened {
            Err(cause) => Err(BusError::Transport(cause)),
            Ok(()) => {
                self.endpoints.insert(id, router);
                Ok(())
            },
        }
    }

    /// Asks for a message of this service to be sent to `dest` over a bus,
    /// from the identity that the handler has now.
    pub fn send_to(&mut self, bus_id: B, dest: B::Address, data: Vec<u8>) -> (r: Result<
        (),
        BusError<B::Address>,
    >)
        ensures
            final(self).service() == old(self).service(),
            final(self).table().order() == old(self).table().order(),
            forall|i: int| final(self).table().router_at(i) == old(self).table().router_at(i),
            r matches Err(e) ==> e is UnknownBusId && final(self).table().same(old(self).table()),
            obeys_concrete_eq::<B>() ==> (r is Ok <==> old(self).table().has(bus_id)),
            r is Ok ==> final(self).table().pending().len() == old(self).table().pending().len()
                + 1,
            exists|source: B::Address, src: Vec<u8>, dst: Vec<u8>|
                {
                    &&& call_ensures(H::identity, (&old(self).service(),), source)
                    &&& #[trigger] call_ensures(<B::Address as Into<Vec<u8>>>::into, (source,), src)
                    &&& #[trigger] call_ensures(<B::Address as Into<Vec<u8>>>::into, (dest,), dst)
                    &&& obeys_concrete_eq::<B>() && r is Ok ==> final(self).table().asked(
                        old(self).table(),
                        bus_id,
                        ActionView::Send(
                            FrameView {
                                hop: route(old(self).table().router_of(bus_id), src@, dst@),
                                src: src@,
                                dst: dst@,
                                msg: data@,
                            },
                        ),
                    )
                },
    {
        let source = self.handler.identity();
        self.endpoints.send_to(bus_id, source, dest, data)
    }

    /// Notes that a message was sent or received over the session of a
    /// bus, which is active from then on. Says whether the table holds the
    /// bus.
    pub fn touch(&mut self, bus_id: B) -> (known: bool)
        ensures
            final(self).service() == old(self).service(),
            final(self).table().order() == old(self).table().order(),
            final(self).table().pending() == old(self).table().pending(),
            obeys_concrete_eq::<B>() ==> known == old(self).table().has(bus_id),
            obeys_concrete_eq::<B>() && known ==> final(self).table().state_of(bus_id)
                == SessionState::Active,
            obeys_concrete_eq::<B>() ==> forall|b: B|
                b != bus_id && old(self).table().has(b) ==> final(self).table().state_of(b)
                    == old(self).table().state_of(b),
    {
        self.endpoints.touch(bus_id)
    }

    /// Takes what the session of a bus answered to the sending of a frame.
    /// A frame that went out makes the session active. A frame that did
    /// not gives the error that names the source and the destination of
    /// the frame with the cause, and leaves the table as it is.
    pub fn sent(
        &mut self,
        bus_id: B,
        frame: RoutedFrame,
        outcome: Result<(), internet2::transport::Error>,
    ) -> (r: Result<(), BusError<B::Address>>)
        ensures
            final(self).service() == old(self).service(),
            final(self).table().order() == old(self).table().order(),
            final(self).table().pending() == old(self).table().pending(),
            outcome is Ok ==> {
                &&& r is Ok
                &&& obeys_concrete_eq::<B>() && old(self).table().has(bus_id) ==> final(self).table().state_of(bus_id) == SessionState::Active
                &&& obeys_concrete_eq::<B>() ==> forall|b: B|
                    b != bus_id && old(self).table().has(b) ==> final(self).table().state_of(b)
                        == old(self).table().state_of(b)
                &&& forall|i: int|
                    0 <= i < old(self).table().order().len() ==> final(self).table().router_at(i)
                        == old(self).table().router_at(i)
            },
            outcome matches Err(cause) ==> {
                &&& final(self).table() == old(self).table()
                &&& exists|source: B::Address, dest: B::Address|
                    {
                        &&& #[trigger] call_ensures(
                            <B::Address as From<Vec<u8>>>::from,
                            (frame.src,),
                            source,
                        )
                        &&& #[trigger] call_ensures(
                            <B::Address as From<Vec<u8>>>::from,
                            (frame.dst,),
                            dest,
                        )
                        &&& r == Err::<(), BusError<B::Address>>(
                            BusError::Send(source, dest, cause),
                        )
                    }
            },
    {
        match outcome {
            Ok(()) => {
                self.endpoints.touch(bus_id);
                Ok(())
            },
            Err(cause) => {
                let source = B::Address::from(frame.src);
                let dest = B::Address::from(frame.dst);
                Err(BusError::Send(source, dest, cause))
            },
        }
    }

    /// The buses to poll, in the order of the table. No bus stands there
    /// twice.
    pub fn poll_set(&self) -> (ids: Vec<B>)
        ensures
            ids@ == self.table().order(),
            obeys_concrete_eq::<B>() ==> ids@.no_duplicates(),
    {
        self.endpoints.buses()
    }

    /// The buses on which a poll of the poll set found something, in the
    /// order of the poll set.
    pub fn poll(&self, revents: &[i16]) -> (ready: Vec<B>)
        ensures
            ready@ == ready_of(self.table().order(), revents@),
    {
        let ids = self.endpoints.buses();
        ready_entries(ids.as_slice(), revents)
    }

    /// Tells the handler that the service is ready, before the first
    /// request.
    pub fn on_ready(&mut self) -> (r: Result<(), BusError<B::Address>>)
        ensures
            exists|h: &mut H, e: &mut EndpointList<B>, handled: Result<(), H::Error>|
                {
                    &&& *h == old(self).service()
                    &&& *final(h) == final(self).service()
                    &&& *e == old(self).table()
                    &&& *final(e) == final(self).table()
                    &&& #[trigger] call_ensures(H::on_ready, (h, e), handled)
                    &&& settled::<B, H>(handled, r)
                },
    {
        match self.handler.on_ready(&mut self.endpoints) {
            Ok(()) => Ok(()),
            Err(err) => Err(H::bus_error(err)),
        }
    }

    /// Takes one request that arrived in a frame on a bus, for a service
    /// with the given identity. Source and destination are read from the
    /// bytes of the frame. A request whose destination is the identity
    /// goes to the handler. Any other request is relayed: a frame from the
    /// source to the destination with the same message is asked to be
    /// sent, routed as the bus says, and the handler does not see it.
    pub fn dispatch(
        &mut self,
        identity: &B::Address,
        bus_id: B,
        frame: RoutedFrame,
        request: R,
    ) -> (r: Result<(), BusError<B::Address>>)
        ensures
            exists|source: B::Address, dest: B::Address, same: bool|
                {
                    &&& #[trigger] call_ensures(<B::Address as From<Vec<u8>>>::from, (frame.src,), source)
                    &&& call_ensures(<B::Address as From<Vec<u8>>>::from, (frame.dst,), dest)
                    &&& #[trigger] call_ensures(<B::Address as PartialEq>::eq, (&dest, identity), same)
                    &&& !same ==> final(self).relayed(*old(self), bus_id, source, dest, frame.msg, r)
                    &&& same ==> exists|h: &mut H, e: &mut EndpointList<B>, handled: Result<(), H::Error>|
                        {
                            &&& *h == old(self).service()
                            &&& *final(h) == final(self).service()
                            &&& *e == old(self).table()
                            &&& *final(e) == final(self).table()
                            &&& #[trigger] call_ensures(H::handle, (h, e, bus_id, source, request), handled)
                            &&& settled::<B, H>(handled, r)
                        }
                },
    {
        let source = B::Address::from(frame.src);
        let dest = B::Address::from(frame.dst);
        if dest.eq(identity) {
            match self.handler.handle(&mut self.endpoints, bus_id, source, request) {
                Ok(()) => Ok(()),
                Err(err) => Err(H::bus_error(err)),
            }
        } else {
            self.endpoints.send_to(bus_id, source, dest, frame.msg)
        }
    }

    /// Takes one request that arrived in a frame on a bus, under the
    /// identity that the handler has now: the handler gets what is for
    /// it, and everything else is relayed.
    pub fn run(&mut self, bus_id: B, frame: RoutedFrame, request: R) -> (r: Result<
        (),
        BusError<B::Address>,
    >)
        ensures
            exists|identity: B::Address|
                {
                    &&& #[trigger] call_ensures(H::identity, (&old(self).service(),), identity)
                    &&& exists|source: B::Address, dest: B::Address, same: bool|
                        {
                            &&& #[trigger] call_ensures(<B::Address as From<Vec<u8>>>::from, (frame.src,), source)
                            &&& call_ensures(<B::Address as From<Vec<u8>>>::from, (frame.dst,), dest)
                            &&& #[trigger] call_ensures(<B::Address as PartialEq>::eq, (&dest, &identity), same)
                            &&& !same ==> final(self).relayed(*old(self), bus_id, source, dest, frame.msg, r)
                            &&& same ==> exists|h: &mut H, e: &mut EndpointList<B>, handled: Result<(), H::Error>|
                                {
                                    &&& *h == old(self).service()
                                    &&& *final(h) == final(self).service()
                                    &&& *e == old(self).table()
                                    &&& *final(e) == final(self).table()
                                    &&& #[trigger] call_ensures(H::handle, (h, e, bus_id, source, request), handled)
                                    &&& settled::<B, H>(handled, r)
                                }
                        }
                },
    {
        let identity = self.handler.identity();
        self.dispatch(&identity, bus_id, frame, request)
    }

    /// Hands an error on a bus to the handler, which decides whether the
    /// service goes on: the error that it returns, if any, ends the
    /// service.
    pub fn recover(&mut self, error: BusError<B::Address>) -> (r: Result<(), BusError<B::Address>>)
        ensures
            exists|h: &mut H, e: &mut EndpointList<B>, handled: Result<(), H::Error>|
                {
                    &&& *h == old(self).service()
                    &&& *final(h) == final(self).service()
                    &&& *e == old(self).table()
                    &&& *final(e) == final(self).table()
                    &&& #[trigger] call_ensures(H::handle_err, (h, e, error), handled)
                    &&& settled::<B, H>(handled, r)
                },
    {
        match self.handler.handle_err(&mut self.endpoints, error) {
            Ok(()) => Ok(()),
            Err(err) => Err(H::bus_error(err)),
        }
    }

    /// One turn of the service loop for a request that arrived: takes the
    /// request, and hands an error in doing so to the handler. The turn
    /// fails only where the handler says that the error ends the service.
    pub fn try_run(&mut self, bus_id: B, frame: RoutedFrame, request: R) -> (r: Result<
        (),
        BusError<B::Address>,
    >)
        ensures
            ({
                ||| r is Ok && (exists|identity: B::Address|
                    {
                        &&& #[trigger] call_ensures(H::identity, (&old(self).service(),), identity)
                        &&& exists|source: B::Address, dest: B::Address, same: bool|
                            {
                                &&& #[trigger] call_ensures(<B::Address as From<Vec<u8>>>::from, (frame.src,), source)
                                &&& call_ensures(<B::Address as From<Vec<u8>>>::from, (frame.dst,), dest)
                                &&& #[trigger] call_ensures(<B::Address as PartialEq>::eq, (&dest, &identity), same)
                                &&& !same ==> final(self).relayed(*old(self), bus_id, source, dest, frame.msg, r)
                                &&& same ==> exists|h: &mut H, e: &mut EndpointList<B>, handled: Result<(), H::Error>|
                                    {
                                        &&& *h == old(self).service()
                                        &&& *final(h) == final(self).service()
                                        &&& *e == old(self).table()
                                        &&& *final(e) == final(self).table()
                                        &&& #[trigger] call_ensures(H::handle, (h, e, bus_id, source, request), handled)
                                        &&& settled::<B, H>(handled, r)
                                    }
                            }
                    })
                ||| exists|
                    mid: Self,
                    error: BusError<B::Address>,
                    h2: &mut H,
                    e2: &mut EndpointList<B>,
                    handled2: Result<(), H::Error>,
                |
                    {
                        &&& exists|identity: B::Address|
                            {
                                &&& #[trigger] call_ensures(H::identity, (&old(self).service(),), identity)
                                &&& exists|source: B::Address, dest: B::Address, same: bool|
                                    {
                                        &&& #[trigger] call_ensures(<B::Address as From<Vec<u8>>>::from, (frame.src,), source)
                                        &&& call_ensures(<B::Address as From<Vec<u8>>>::from, (frame.dst,), dest)
                                        &&& #[trigger] call_ensures(<B::Address as PartialEq>::eq, (&dest, &identity), same)
                                        &&& !same ==> mid.relayed(*old(self), bus_id, source, dest, frame.msg, Err::<(), BusError<B::Address>>(error))
                                        &&& same ==> exists|h: &mut H, e: &mut EndpointList<B>, handled: Result<(), H::Error>|
                                            {
                                                &&& *h == old(self).service()
                                                &&& *final(h) == mid.service()
                                                &&& *e == old(self).table()
                                                &&& *final(e) == mid.table()
                                                &&& #[trigger] call_ensures(H::handle, (h, e, bus_id, source, request), handled)
                                                &&& settled::<B, H>(handled, Err::<(), BusError<B::Address>>(error))
                                            }
                                    }
                            }
                        &&& *h2 == #[trigger] mid.service()
                        &&& *final(h2) == final(self).service()
                        &&& *e2 == mid.table()
                        &&& *final(e2) == final(self).table()
                        &&& #[trigger] call_ensures(H::handle_err, (h2, e2, error), handled2)
                        &&& settled::<B, H>(handled2, r)
                    }
            }),
    {
        match self.run(bus_id, frame, request) {
            Ok(()) => Ok(()),
            Err(error) => {
                let ghost mid = *self;
                assert(mid.service() == mid.service());
                self.recover(error)
            },
        }
    }

    /// Hands the waiting actions to the shell, oldest first.
    pub fn take_actions(&mut self) -> (actions: Vec<(B, BusAction)>)
        ensures
            final(self).service() == old(self).service(),
            final(self).table().order() == old(self).table().order(),
            forall|i: int| final(self).table().router_at(i) == old(self).table().router_at(i),
            final(self).table().pending() == Seq::<(B, ActionView)>::empty(),
            actions@.len() == old(self).table().pending().len(),
            forall|i: int|
                0 <= i < actions@.len() ==> (actions@[i].0, actions@[i].1@) == old(self).table().pending()[i],
    {
        self.endpoints.take_actions()
    }
}

/// A received request for out-of-band dispatch: the bus it came on, and
/// the source that the bytes of its frame stand for.
pub fn poll_item<B: BusId, R: Request>(bus_id: B, frame: RoutedFrame, request: R) -> (item:
    PollItem<B, R>)
    ensures
        item.bus_id == bus_id,
        item.request == request,
        call_ensures(<B::Address as From<Vec<u8>>>::from, (frame.src,), item.source),
{
    PollItem { bus_id, source: B::Address::from(frame.src), request }
}

} // verus!
