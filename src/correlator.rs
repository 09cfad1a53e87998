//! The table of outstanding requests of one connection, and the decisions of
//! the connection's loop: where each incoming frame goes.
use std::collections::HashMap;
use vstd::prelude::*;

use crate::error::ComputerError;
use crate::ids::NIL_ID;
use crate::protocol::{text_response, CCResponse, Frame, ResponseKindView, ResponseView};

verus! {

broadcast use vstd::std_specs::hash::group_hash_axioms;

/// The table after a response under `id` arrives: the request it answers
/// leaves; a disconnection clears the table.
pub open spec fn after_response<R>(m: Map<u128, R>, id: u128) -> Map<u128, R> {
    if m.contains_key(id) {
        m.remove(id)
    } else if id == NIL_ID {
        Map::empty()
    } else {
        m
    }
}

/// The requests whose callers a response under `id` is handed to.
pub open spec fn handed<R>(m: Map<u128, R>, id: u128) -> Set<u128> {
    if m.contains_key(id) {
        set![id]
    } else if id == NIL_ID {
        m.dom()
    } else {
        Set::empty()
    }
}

/// The table after the responses `arrivals`, in order.
pub open spec fn settle<R>(m: Map<u128, R>, arrivals: Seq<u128>) -> Map<u128, R>
    decreases arrivals.len(),
{
    if arrivals.len() == 0 {
        m
    } else {
        settle(after_response(m, arrivals[0]), arrivals.drop_first())
    }
}

/// For each response of `arrivals`, the requests it is handed to.
pub open spec fn handed_all<R>(m: Map<u128, R>, arrivals: Seq<u128>) -> Seq<Set<u128>>
    decreases arrivals.len(),
{
    if arrivals.len() == 0 {
        Seq::empty()
    } else {
        seq![handed(m, arrivals[0])] + handed_all(
            after_response(m, arrivals[0]),
            arrivals.drop_first(),
        )
    }
}

/// What the loop does with a response.
#[derive(Debug)]
pub enum Dispatch<R> {
    /// Hand the response to the one caller waiting for it.
    Deliver(R, CCResponse),
    /// The connection closed: hand the response to every caller in the table.
    Broadcast(HashMap<u128, R>, CCResponse),
}

/// What became of a new request.
#[derive(Debug)]
pub enum Registration<R> {
    /// It waits in the table for its response.
    Accepted,
    /// The connection has closed: answer the caller with a disconnection.
    Closed(R),
    /// Its identifier is nil or already waits: the caller is not answered.
    Refused(R),
}

pub ghost struct CorrelatorView<R> {
    pub pending: Map<u128, R>,
    pub closed: bool,
}

/// What the connection's loop takes in: a new request with its resolver, or
/// a response under an identifier.
pub ghost enum Event<R> {
    Request(u128, R),
    Response(u128),
}

/// The table after an event.
pub open spec fn table_after<R>(s: CorrelatorView<R>, e: Event<R>) -> CorrelatorView<R> {
    match e {
        Event::Request(id, r) => if !s.closed && id != NIL_ID && !s.pending.contains_key(id) {
            CorrelatorView { pending: s.pending.insert(id, r), closed: s.closed }
        } else {
            s
        },
        Event::Response(id) => CorrelatorView {
            pending: after_response(s.pending, id),
            closed: s.closed || (!s.pending.contains_key(id) && id == NIL_ID),
        },
    }
}

/// The requests whose callers an event answers: a response answers those it
/// is handed to; a request made once the connection has closed is answered
/// at once, with a disconnection.
pub open spec fn answered<R>(s: CorrelatorView<R>, e: Event<R>) -> Set<u128> {
    match e {
        Event::Request(id, _) => if s.closed {
            set![id]
        } else {
            Set::empty()
        },
        Event::Response(id) => handed(s.pending, id),
    }
}

/// The table after the events, in order.
pub open spec fn run<R>(s: CorrelatorView<R>, evs: Seq<Event<R>>) -> CorrelatorView<R>
    decreases evs.len(),
{
    if evs.len() == 0 {
        s
    } else {
        run(table_after(s, evs[0]), evs.drop_first())
    }
}

/// For each event, the requests it answers.
pub open spec fn answered_all<R>(s: CorrelatorView<R>, evs: Seq<Event<R>>) -> Seq<Set<u128>>
    decreases evs.len(),
{
    if evs.len() == 0 {
        Seq::empty()
    } else {
        seq![answered(s, evs[0])] + answered_all(table_after(s, evs[0]), evs.drop_first())
    }
}

/// The identifier of an event that is a request.
pub open spec fn request_ids<R>(e: Event<R>) -> Set<u128> {
    match e {
        Event::Request(id, _) => set![id],
        Event::Response(_) => Set::empty(),
    }
}

/// The identifiers of the requests among the events.
pub open spec fn requested<R>(evs: Seq<Event<R>>) -> Set<u128>
    decreases evs.len(),
{
    if evs.len() == 0 {
        Set::empty()
    } else {
        request_ids(evs[0]) + requested(evs.drop_first())
    }
}

/// No two requests among the events share an identifier.
pub open spec fn distinct_requests<R>(evs: Seq<Event<R>>) -> bool
    decreases evs.len(),
{
    if evs.len() == 0 {
        true
    } else {
        &&& match evs[0] {
            Event::Request(id, _) => !requested(evs.drop_first()).contains(id),
            Event::Response(_) => true,
        }
        &&& distinct_requests(evs.drop_first())
    }
}

pub open spec fn view_wf<R>(s: CorrelatorView<R>) -> bool {
    &&& !s.pending.contains_key(NIL_ID)
    &&& s.closed ==> s.pending == Map::<u128, R>::empty()
}

/// The outstanding requests of one connection, each under its identifier
/// with the resolver that answers its caller.
pub struct Correlator<R> {
    resolvers: HashMap<u128, R>,
    closed: bool,
}

impl<R> View for Correlator<R> {
    type V = CorrelatorView<R>;

    closed spec fn view(&self) -> CorrelatorView<R> {
        CorrelatorView { pending: self.resolvers@, closed: self.closed }
    }
}

impl<R> Correlator<R> {
    /// No request waits under the nil identifier, and none once closed.
    pub open spec fn wf(&self) -> bool {
        &&& !self@.pending.contains_key(NIL_ID)
        &&& self@.closed ==> self@.pending == Map::<u128, R>::empty()
    }

    pub fn new() -> (r: Correlator<R>)
        ensures
            r.wf(),
            r@.pending == Map::<u128, R>::empty(),
            !r@.closed,
    {
        Correlator { resolvers: HashMap::new(), closed: false }
    }

    /// Whether no request waits.
    pub fn is_empty(&self) -> (r: bool)
        ensures
            r == (self@.pending == Map::<u128, R>::empty()),
    {
        let r = self.resolvers.len() == 0;
        proof {
            if !r {
                assert(self.resolvers@.dom().len() > 0);
                let k = self.resolvers@.dom().choose();
                assert(self.resolvers@.contains_key(k));
            } else {
                assert(self.resolvers@ =~= Map::empty());
            }
        }
        r
    }

    /// Enters a request into the table before it is sent, so that a
    /// response racing the write finds it.
    pub fn register(&mut self, id: u128, resolver: R) -> (r: Registration<R>)
        requires
            old(self).wf(),
        ensures
            final(self).wf(),
            final(self)@ == table_after(old(self)@, Event::Request(id, resolver)),
            final(self)@.closed == old(self)@.closed,
            old(self)@.closed ==> r == Registration::Closed(resolver) && final(self)@ == old(self)@,
            !old(self)@.closed && (id == NIL_ID || old(self)@.pending.contains_key(id)) ==> r
                == Registration::Refused(resolver) && final(self)@ == old(self)@,
            !old(self)@.closed && id != NIL_ID && !old(self)@.pending.contains_key(id) ==> r
                is Accepted && final(self)@.pending == old(self)@.pending.insert(id, resolver),
    {
        if self.closed {
            return Registration::Closed(resolver);
        }
        if id == NIL_ID || self.resolvers.contains_key(&id) {
            return Registration::Refused(resolver);
        }
        self.resolvers.insert(id, resolver);
        Registration::Accepted
    }

    /// Routes a response: to the caller waiting under its identifier; to
    /// every waiting caller when it is the disconnection under the nil
    /// identifier; an identifier that nothing waits for breaks the protocol.
    pub fn dispatch(&mut self, response: CCResponse) -> (r: Result<Dispatch<R>, ComputerError>)
        requires
            old(self).wf(),
        ensures
            final(self).wf(),
            final(self)@ == table_after(old(self)@, Event::<R>::Response(response.id)),
            final(self)@.pending == after_response(old(self)@.pending, response.id),
            old(self)@.pending.contains_key(response.id) ==> r == Ok::<Dispatch<R>, ComputerError>(
                Dispatch::Deliver(old(self)@.pending[response.id], response),
            ) && final(self)@.closed == old(self)@.closed,
            !old(self)@.pending.contains_key(response.id) && response.id == NIL_ID ==> r is Ok
                && r->Ok_0 is Broadcast && r->Ok_0->Broadcast_0@ == old(self)@.pending
                && r->Ok_0->Broadcast_1 == response && final(self)@.closed,
            !old(self)@.pending.contains_key(response.id) && response.id != NIL_ID ==> r == Err::<
                Dispatch<R>,
                ComputerError,
            >(ComputerError::UnknownResponse(response.id)) && final(self)@ == old(self)@,
    {
        let id = response.id;
        let ghost before = self.resolvers@;
        match self.resolvers.remove(&id) {
            Some(resolver) => Ok(Dispatch::Deliver(resolver, response)),
            None => {
                proof {
                    assert(self.resolvers@ =~= before);
                }
                if id == NIL_ID {
                    let mut all = HashMap::new();
                    std::mem::swap(&mut all, &mut self.resolvers);
                    self.closed = true;
                    proof {
                        assert(self.resolvers@ =~= Map::empty());
                    }
                    Ok(Dispatch::Broadcast(all, response))
                } else {
                    Err(ComputerError::UnknownResponse(id))
                }
            },
        }
    }
}


/// The response that a frame carries, if any: a close frame is the
/// disconnection under the nil identifier.
pub open spec fn message_response(msg: Frame) -> Option<ResponseView> {
    match msg {
        Frame::Text(t) => text_response(t@),
        Frame::Close => Some(ResponseView { id: NIL_ID, response: ResponseKindView::Disconnected }),
        _ => None,
    }
}

impl<R> Correlator<R> {
    /// Reads a frame and routes the response it carries, as `dispatch` does.
    pub fn on_message(&mut self, msg: Frame) -> (r: Result<Dispatch<R>, ComputerError>)
        requires
            old(self).wf(),
        ensures
            final(self).wf(),
            message_response(msg) is None ==> r is Err && r->Err_0 is ParseResponse && final(self)@
                == old(self)@,
            message_response(msg) is None ==> match msg {
                Frame::Text(_) => r->Err_0->ParseResponse_0 is ParseError,
                Frame::Binary => r->Err_0->ParseResponse_0 is WrongMessageType
                    && r->Err_0->ParseResponse_0->WrongMessageType_0@ == "binary"@,
                Frame::Ping => r->Err_0->ParseResponse_0 is WrongMessageType
                    && r->Err_0->ParseResponse_0->WrongMessageType_0@ == "ping"@,
                Frame::Pong => r->Err_0->ParseResponse_0 is WrongMessageType
                    && r->Err_0->ParseResponse_0->WrongMessageType_0@ == "pong"@,
                Frame::Raw => r->Err_0->ParseResponse_0 is WrongMessageType
                    && r->Err_0->ParseResponse_0->WrongMessageType_0@ == "frame"@,
                Frame::Close => false,
            },
            message_response(msg) is Some ==> {
                let resp = message_response(msg)->Some_0;
                &&& final(self)@ == table_after(old(self)@, Event::<R>::Response(resp.id))
                &&& final(self)@.pending == after_response(old(self)@.pending, resp.id)
                &&& old(self)@.pending.contains_key(resp.id) ==> r is Ok && r->Ok_0 is Deliver
                    && r->Ok_0->Deliver_0 == old(self)@.pending[resp.id] && r->Ok_0->Deliver_1@ == resp
                &&& !old(self)@.pending.contains_key(resp.id) && resp.id == NIL_ID ==> r is Ok
                    && r->Ok_0 is Broadcast && r->Ok_0->Broadcast_0@ == old(self)@.pending
                    && r->Ok_0->Broadcast_1@ == resp && final(self)@.closed
                &&& !old(self)@.pending.contains_key(resp.id) && resp.id != NIL_ID ==> r
                    is Err && r->Err_0 == ComputerError::UnknownResponse(resp.id)
            },
    {
        match CCResponse::from_message(msg) {
            Ok(response) => self.dispatch(response),
            Err(e) => Err(ComputerError::ParseResponse(e)),
        }
    }
}

proof fn lemma_step<R>(m: Map<u128, R>, id: u128)
    requires
        !m.contains_key(NIL_ID),
    ensures
        !after_response(m, id).contains_key(NIL_ID),
        after_response(m, id).submap_of(m),
        handed(m, id).subset_of(m.dom()),
        handed(m, id).disjoint(after_response(m, id).dom()),
        handed(m, id) + after_response(m, id).dom() == m.dom(),
{
    assert(handed(m, id) + after_response(m, id).dom() =~= m.dom());
}

/// Whatever responses arrive, every request in the table is handed at most
/// one response, and each one is either handed one or still waits: none is
/// dropped and none answered twice. What still waits keeps its resolver.
pub proof fn lemma_each_request_resolved_once<R>(m: Map<u128, R>, arrivals: Seq<u128>)
    requires
        !m.contains_key(NIL_ID),
    ensures
        handed_all(m, arrivals).len() == arrivals.len(),
        forall|j: int, k: int|
            0 <= j < k < arrivals.len() ==> (#[trigger] handed_all(m, arrivals)[j]).disjoint(
                #[trigger] handed_all(m, arrivals)[k],
            ),
        forall|j: int|
            0 <= j < arrivals.len() ==> (#[trigger] handed_all(m, arrivals)[j]).subset_of(m.dom()),
        forall|id: u128|
            #[trigger] m.contains_key(id) ==> (settle(m, arrivals).contains_key(id) <==> forall|j: int|
                0 <= j < arrivals.len() ==> !(#[trigger] handed_all(m, arrivals)[j]).contains(id)),
        settle(m, arrivals).submap_of(m),
    decreases arrivals.len(),
{
    if arrivals.len() > 0 {
        let a = arrivals[0];
        let m1 = after_response(m, a);
        let rest = arrivals.drop_first();
        lemma_step(m, a);
        lemma_each_request_resolved_once(m1, rest);
        let h = handed_all(m, arrivals);
        assert(h == seq![handed(m, a)] + handed_all(m1, rest));
        assert forall|j: int| 0 < j < arrivals.len() implies h[j] == handed_all(m1, rest)[j - 1] by {}
        assert forall|j: int| 0 <= j < arrivals.len() implies (#[trigger] h[j]).subset_of(m.dom()) by {
            if j > 0 {
                assert(handed_all(m1, rest)[j - 1].subset_of(m1.dom()));
            }
        }
        assert forall|j: int, k: int| 0 <= j < k < arrivals.len() implies (#[trigger] h[j]).disjoint(
            #[trigger] h[k],
        ) by {
            if j == 0 {
                assert(handed_all(m1, rest)[k - 1].subset_of(m1.dom()));
            } else {
                assert(handed_all(m1, rest)[j - 1].disjoint(handed_all(m1, rest)[k - 1]));
            }
        }
        assert forall|id: u128| #[trigger] m.contains_key(id) implies (settle(m, arrivals).contains_key(id)
            <==> forall|j: int| 0 <= j < arrivals.len() ==> !(#[trigger] h[j]).contains(id)) by {
            if m1.contains_key(id) {
                assert(!h[0].contains(id));
                if settle(m, arrivals).contains_key(id) {
                    assert forall|j: int| 0 <= j < arrivals.len() implies !(#[trigger] h[j]).contains(id) by {
                        if j > 0 {
                            assert(!handed_all(m1, rest)[j - 1].contains(id));
                        }
                    }
                } else {
                    let j0 = choose|j: int| 0 <= j < rest.len() && (#[trigger] handed_all(m1, rest)[j]).contains(id);
                    assert(h[j0 + 1].contains(id));
                }
            } else {
                assert(h[0].contains(id));
                assert(!settle(m1, rest).contains_key(id));
            }
        }
    }
}

/// Responses to distinct waiting requests, in any order, each reach the
/// caller of their own request, and only it.
pub proof fn lemma_responses_reach_their_callers<R>(m: Map<u128, R>, arrivals: Seq<u128>)
    requires
        !m.contains_key(NIL_ID),
        arrivals.no_duplicates(),
        forall|k: int| 0 <= k < arrivals.len() ==> m.contains_key(#[trigger] arrivals[k]),
    ensures
        handed_all(m, arrivals).len() == arrivals.len(),
        forall|k: int|
            0 <= k < arrivals.len() ==> #[trigger] handed_all(m, arrivals)[k] == set![arrivals[k]],
        forall|k: int|
            0 <= k < arrivals.len() ==> settle(m, arrivals.take(k)).contains_key(#[trigger] arrivals[k])
                && settle(m, arrivals.take(k))[arrivals[k]] == m[arrivals[k]],
    decreases arrivals.len(),
{
    lemma_each_request_resolved_once(m, arrivals);
    if arrivals.len() > 0 {
        let a = arrivals[0];
        let m1 = after_response(m, a);
        let rest = arrivals.drop_first();
        assert forall|k: int| 0 <= k < rest.len() implies m1.contains_key(#[trigger] rest[k]) by {
            assert(rest[k] == arrivals[k + 1]);
            assert(arrivals[k + 1] != arrivals[0]);
        }
        lemma_step(m, a);
        lemma_responses_reach_their_callers(m1, rest);
        let h = handed_all(m, arrivals);
        assert(h == seq![handed(m, a)] + handed_all(m1, rest));
        assert forall|k: int| 0 <= k < arrivals.len() implies #[trigger] h[k] == set![arrivals[k]] by {
            if k > 0 {
                assert(h[k] == handed_all(m1, rest)[k - 1]);
                assert(rest[k - 1] == arrivals[k]);
            }
        }
        assert forall|k: int| 0 <= k < arrivals.len() implies settle(m, arrivals.take(k)).contains_key(
            #[trigger] arrivals[k],
        ) && settle(m, arrivals.take(k))[arrivals[k]] == m[arrivals[k]] by {
            if k == 0 {
                assert(arrivals.take(0) =~= Seq::<u128>::empty());
            } else {
                assert(arrivals.take(k).drop_first() =~= rest.take(k - 1));
                assert(arrivals.take(k)[0] == a);
                assert(rest[k - 1] == arrivals[k]);
                assert(settle(m, arrivals.take(k)) == settle(m1, rest.take(k - 1)));
            }
        }
    }
}

/// Once the disconnection arrives, no request waits any more: every request
/// that waited then was handed it at that very step.
pub proof fn lemma_close_resolves_all<R>(m: Map<u128, R>, arrivals: Seq<u128>)
    requires
        !m.contains_key(NIL_ID),
        arrivals.contains(NIL_ID),
    ensures
        settle(m, arrivals) == Map::<u128, R>::empty(),
        forall|k: int|
            0 <= k < arrivals.len() && arrivals[k] == NIL_ID ==> handed_all(m, arrivals)[k]
                == settle(m, arrivals.take(k)).dom(),
    decreases arrivals.len(),
{
    let a = arrivals[0];
    let m1 = after_response(m, a);
    let rest = arrivals.drop_first();
    lemma_step(m, a);
    if a == NIL_ID {
        assert(m1 == Map::<u128, R>::empty());
        lemma_empty_settles::<R>(rest);
    } else {
        let k0 = choose|k: int| 0 <= k < arrivals.len() && arrivals[k] == NIL_ID;
        assert(rest[k0 - 1] == NIL_ID);
        lemma_close_resolves_all(m1, rest);
    }
    lemma_handed_len(m1, rest);
    let h = handed_all(m, arrivals);
    assert(h == seq![handed(m, a)] + handed_all(m1, rest));
    assert forall|k: int| 0 <= k < arrivals.len() && arrivals[k] == NIL_ID implies h[k]
        == settle(m, arrivals.take(k)).dom() by {
        if k == 0 {
            assert(arrivals.take(0) =~= Seq::<u128>::empty());
        } else {
            assert(arrivals.take(k).drop_first() =~= rest.take(k - 1));
            assert(arrivals.take(k)[0] == a);
            assert(rest[k - 1] == arrivals[k]);
            assert(h[k] == handed_all(m1, rest)[k - 1]);
            if a == NIL_ID {
                lemma_empty_settles::<R>(rest.take(k - 1));
                lemma_empty_hands_nothing::<R>(rest, k - 1);
                assert(handed(Map::<u128, R>::empty(), NIL_ID) =~= Set::empty());
                assert(settle(m1, rest.take(k - 1)).dom() =~= Set::empty());
            }
        }
    }
}

/// Requests and responses interleaved in any order, each request under an
/// identifier of its own: every request is answered at most once, and each
/// one is either answered or still waits; none is dropped. A request made
/// after the close is answered at once.
pub proof fn lemma_interleaved_requests_resolved_once<R>(s: CorrelatorView<R>, evs: Seq<Event<R>>)
    requires
        view_wf(s),
        distinct_requests(evs),
        !requested(evs).contains(NIL_ID),
        s.pending.dom().disjoint(requested(evs)),
    ensures
        answered_all(s, evs).len() == evs.len(),
        forall|j: int, k: int|
            0 <= j < k < evs.len() ==> (#[trigger] answered_all(s, evs)[j]).disjoint(
                #[trigger] answered_all(s, evs)[k],
            ),
        forall|j: int|
            0 <= j < evs.len() ==> (#[trigger] answered_all(s, evs)[j]).subset_of(
                s.pending.dom() + requested(evs),
            ),
        run(s, evs).pending.dom().subset_of(s.pending.dom() + requested(evs)),
        view_wf(run(s, evs)),
        forall|id: u128|
            #[trigger] (s.pending.dom() + requested(evs)).contains(id) ==> (run(
                s,
                evs,
            ).pending.contains_key(id) <==> forall|j: int|
                0 <= j < evs.len() ==> !(#[trigger] answered_all(s, evs)[j]).contains(id)),
    decreases evs.len(),
{
    if evs.len() > 0 {
        let e = evs[0];
        let s1 = table_after(s, e);
        let tail = evs.drop_first();
        let first = answered(s, e);
        let own = request_ids(e);
        assert(requested(evs) == own + requested(tail));
        match e {
            Event::Response(id) => {
                lemma_step(s.pending, id);
            },
            Event::Request(id, r) => {},
        }
        assert(s1.pending.dom().subset_of(s.pending.dom() + own));
        assert(view_wf(s1));
        assert(s1.pending.dom().disjoint(requested(tail)));
        lemma_interleaved_requests_resolved_once(s1, tail);
        let h = answered_all(s, evs);
        let t = answered_all(s1, tail);
        assert(h == seq![first] + t);
        assert(first.subset_of(s.pending.dom() + own));
        assert(first.disjoint(s1.pending.dom() + requested(tail)));
        assert(forall|j: int| 0 < j < evs.len() ==> h[j] == t[j - 1]);
        assert forall|j: int| 0 <= j < evs.len() implies (#[trigger] h[j]).subset_of(
            s.pending.dom() + requested(evs),
        ) by {
            if j > 0 {
                assert(t[j - 1].subset_of(s1.pending.dom() + requested(tail)));
            }
        }
        assert forall|j: int, k: int| 0 <= j < k < evs.len() implies (#[trigger] h[j]).disjoint(
            #[trigger] h[k],
        ) by {
            if j == 0 {
                assert(t[k - 1].subset_of(s1.pending.dom() + requested(tail)));
            } else {
                assert(t[j - 1].disjoint(t[k - 1]));
            }
        }
        assert forall|id: u128| #[trigger] (s.pending.dom() + requested(evs)).contains(id) implies (run(
            s,
            evs,
        ).pending.contains_key(id) <==> forall|j: int|
            0 <= j < evs.len() ==> !(#[trigger] h[j]).contains(id)) by {
            assert(run(s, evs) == run(s1, tail));
            assert(h[0] == first);
            if first.contains(id) {
                assert(!(s1.pending.dom() + requested(tail)).contains(id));
                assert(!run(s1, tail).pending.contains_key(id));
            } else {
                assert((s1.pending.dom() + requested(tail)).contains(id));
                if run(s1, tail).pending.contains_key(id) {
                    assert forall|j: int| 0 <= j < evs.len() implies !(#[trigger] h[j]).contains(id) by {
                        if j > 0 {
                            assert(!t[j - 1].contains(id));
                        }
                    }
                } else {
                    let j0 = choose|j: int| 0 <= j < tail.len() && (#[trigger] t[j]).contains(id);
                    assert(h[j0 + 1].contains(id));
                }
            }
        }
    }
}

proof fn lemma_handed_len<R>(m: Map<u128, R>, arrivals: Seq<u128>)
    ensures
        handed_all(m, arrivals).len() == arrivals.len(),
    decreases arrivals.len(),
{
    if arrivals.len() > 0 {
        lemma_handed_len(after_response(m, arrivals[0]), arrivals.drop_first());
    }
}

proof fn lemma_empty_settles<R>(arrivals: Seq<u128>)
    ensures
        settle(Map::<u128, R>::empty(), arrivals) == Map::<u128, R>::empty(),
    decreases arrivals.len(),
{
    if arrivals.len() > 0 {
        assert(after_response(Map::<u128, R>::empty(), arrivals[0]) == Map::<u128, R>::empty());
        lemma_empty_settles::<R>(arrivals.drop_first());
    }
}

proof fn lemma_empty_hands_nothing<R>(arrivals: Seq<u128>, k: int)
    requires
        0 <= k < arrivals.len(),
    ensures
        handed_all(Map::<u128, R>::empty(), arrivals)[k] == Set::<u128>::empty(),
    decreases arrivals.len(),
{
    let e = Map::<u128, R>::empty();
    lemma_handed_len(e, arrivals.drop_first());
    assert(after_response(e, arrivals[0]) == e);
    assert(handed_all(e, arrivals) == seq![handed(e, arrivals[0])] + handed_all(e, arrivals.drop_first()));
    assert(handed(e, arrivals[0]) =~= Set::empty());
    if k > 0 {
        lemma_empty_hands_nothing::<R>(arrivals.drop_first(), k - 1);
    }
}

} // verus!
