//! The protocol session: its lifecycle, the table of subscriptions that
//! await confirmation, the index of confirmed subscriptions, and the queue
//! of envelopes waiting to be sent.
use std::collections::VecDeque;
use vstd::prelude::*;

use crate::message::{
    message_of, new_event_id, EventJoin, EventPublish, EventSubscribe, WampEvent, WampType,
};
use crate::options::Details;
use crate::{WampError, WampResult};

verus! {

/// The largest id that WAMP allows: ids are integers in `[1, 2^53]`.
pub const MAX_REQUEST_ID: u64 = 9007199254740992;

/// The lifecycle of a session. A session counts as established once its
/// HELLO is queued; no transition leads out of `Closed`.
#[derive(Debug, Clone, Copy, PartialEq, Eq, Structural)]
pub enum SessionState {
    NotConnected,
    Established,
    Closed,
}

/// A subscription request that awaits the router's confirmation.
#[derive(Debug)]
pub struct PendingSubscription {
    pub request_id: u64,
    pub topic: String,
    /// The handle of the callback to register once the router confirms.
    pub callback: u64,
}

/// What the inbound path has to do after a message was dispatched.
#[derive(Debug)]
pub enum Dispatch {
    /// A subscription was confirmed and its callback registered.
    Subscribed { request_id: u64, subscription_id: u64 },
    /// Invoke these callbacks, in this order, with the event's payload.
    Deliver { callbacks: Vec<u64> },
    /// The session ended: each request that was pending failed with the
    /// error beside its id.
    Closed { failed: Vec<(u64, WampError)> },
    /// Nothing to do.
    Nothing,
}

/// The topic that the last entry for `sub` names.
pub open spec fn topic_in(entries: Seq<(u64, String)>, sub: u64) -> Option<Seq<char>>
    decreases entries.len(),
{
    if entries.len() == 0 {
        None
    } else if entries.last().0 == sub {
        Some(entries.last().1@)
    } else {
        topic_in(entries.drop_last(), sub)
    }
}

/// The callbacks registered for `topic`, in the order of registration.
pub open spec fn callbacks_in(regs: Seq<(String, u64)>, topic: Seq<char>) -> Seq<u64>
    decreases regs.len(),
{
    if regs.len() == 0 {
        Seq::empty()
    } else if regs.last().0@ == topic {
        callbacks_in(regs.drop_last(), topic).push(regs.last().1)
    } else {
        callbacks_in(regs.drop_last(), topic)
    }
}

/// The ids of `s` increase strictly and stay below `bound`.
pub open spec fn increasing_below(s: Seq<u64>, bound: u64) -> bool {
    &&& forall|i: int, j: int| 0 <= i < j < s.len() ==> s[i] < s[j]
    &&& forall|i: int| 0 <= i < s.len() ==> s[i] < bound
}

/// `e` is the HELLO envelope for `realm`, announcing no advanced feature.
pub open spec fn is_hello(e: Seq<WampType>, realm: Seq<char>) -> bool {
    &&& e.len() == 3
    &&& e[0] == WampType::UInt(1)
    &&& e[1] is Text && e[1]->Text_0@ == realm
    &&& exists|d: Details| !d.any_feature() && d.is_encoding(e[2])
}

/// `e` is the PUBLISH envelope of request `id`, with no options.
pub open spec fn is_publish(
    e: Seq<WampType>,
    id: u64,
    topic: Seq<char>,
    args: Vec<WampType>,
    kwargs: WampType,
) -> bool {
    &&& e.len() == 6
    &&& e[0] == WampType::UInt(16)
    &&& e[1] == WampType::UInt(id)
    &&& e[2] is Object && e[2]->Object_0@.len() == 0
    &&& e[3] is Text && e[3]->Text_0@ == topic
    &&& e[4] == WampType::List(args)
    &&& e[5] == kwargs
}

/// `e` is the SUBSCRIBE envelope of request `id`, with no options.
pub open spec fn is_subscribe(e: Seq<WampType>, id: u64, topic: Seq<char>) -> bool {
    &&& e.len() == 4
    &&& e[0] == WampType::UInt(32)
    &&& e[1] == WampType::UInt(id)
    &&& e[2] is Object && e[2]->Object_0@.len() == 0
    &&& e[3] is Text && e[3]->Text_0@ == topic
}

/// Some request pending in `old` has id `request_id`.
pub open spec fn has_pending(old: &Session, request_id: u64) -> bool {
    exists|i: int| 0 <= i < old.pending().len() && #[trigger] old.pending()[i].0 == request_id
}

/// `new` is `old` after the router confirmed pending request `request_id`
/// as subscription `subscription_id`: the request left the pending table,
/// the subscription names the request's topic, and the request's callback
/// follows those already registered for that topic.
pub open spec fn confirmed(old: &Session, new: &Session, request_id: u64, subscription_id: u64) -> bool {
    exists|i: int|
        0 <= i < old.pending().len() && #[trigger] old.pending()[i].0 == request_id && {
            let topic = old.pending()[i].1;
            let callback = old.pending()[i].2;
            &&& new.pending() == old.pending().remove(i)
            &&& new.topic_of(subscription_id) == Some(topic)
            &&& forall|s: u64| s != subscription_id ==> #[trigger] new.topic_of(s) == old.topic_of(s)
            &&& new.callbacks_of(topic) == old.callbacks_of(topic).push(callback)
            &&& forall|t: Seq<char>| t != topic ==> #[trigger] new.callbacks_of(t) == old.callbacks_of(t)
        }
}

/// `new` is `old` after the session ended: it is closed, no request is
/// pending any more, and `failed` resolves each request that was pending, in
/// order, with the connection-closed error.
pub open spec fn closed_from(old: &Session, new: &Session, failed: Seq<(u64, WampError)>) -> bool {
    &&& new.spec_state() == SessionState::Closed
    &&& new.pending().len() == 0
    &&& failed.len() == old.pending().len()
    &&& forall|i: int|
        0 <= i < failed.len() ==> #[trigger] failed[i] == (
            old.pending()[i].0,
            WampError::ConnectionClosed,
        )
    &&& new.next_request_id() == old.next_request_id()
    &&& new.issued() == old.issued()
    &&& forall|s: u64| #[trigger] new.topic_of(s) == old.topic_of(s)
    &&& forall|t: Seq<char>| #[trigger] new.callbacks_of(t) == old.callbacks_of(t)
    &&& new.outbox() == old.outbox()
}

/// `new` and `r` are what dispatching `msg` to `old` gives: a SUBSCRIBED
/// for a pending request moves it into the index, one for any other request
/// is a protocol violation; an EVENT yields the callbacks of its
/// subscription's topic, one for an unknown subscription is a protocol
/// violation; ABORT and GOODBYE close the session; WELCOME needs nothing; a
/// message that only a router receives is a protocol violation; outside an
/// established session every message fails with the not-connected error. An
/// error leaves the session unchanged.
pub open spec fn dispatched(
    old: &Session,
    new: &Session,
    msg: WampEvent,
    r: WampResult<Dispatch>,
) -> bool {
    &&& old.spec_state() != SessionState::Established ==> {
        &&& r == Err::<Dispatch, WampError>(WampError::NotConnected)
        &&& new.unchanged(old)
    }
    &&& old.spec_state() == SessionState::Established ==> match msg {
        WampEvent::Subscribed { request_id, subscription_id } => if has_pending(
            old,
            request_id,
        ) {
            &&& r == Ok::<Dispatch, WampError>(
                Dispatch::Subscribed { request_id, subscription_id },
            )
            &&& new.spec_state() == old.spec_state()
            &&& new.next_request_id() == old.next_request_id()
            &&& new.issued() == old.issued()
            &&& new.outbox() == old.outbox()
            &&& confirmed(old, new, request_id, subscription_id)
            &&& forall|k: int|
                0 <= k < new.pending().len() ==> #[trigger] new.pending()[k].0 != request_id
        } else {
            &&& r == Err::<Dispatch, WampError>(WampError::ProtocolError)
            &&& new.unchanged(old)
        },
        WampEvent::Event { subscription_id, .. } => {
            &&& new.unchanged(old)
            &&& match old.topic_of(subscription_id) {
                None => r == Err::<Dispatch, WampError>(WampError::ProtocolError),
                Some(t) => match r {
                    Ok(Dispatch::Deliver { callbacks }) => callbacks@ == old.callbacks_of(t),
                    _ => false,
                },
            }
        },
        WampEvent::Abort { .. } | WampEvent::Goodbye { .. } => match r {
            Ok(Dispatch::Closed { failed }) => closed_from(old, new, failed@),
            _ => false,
        },
        WampEvent::Welcome { .. } => {
            &&& r matches Ok(Dispatch::Nothing)
            &&& new.unchanged(old)
        },
        _ => {
            &&& r == Err::<Dispatch, WampError>(WampError::ProtocolError)
            &&& new.unchanged(old)
        },
    }
}

/// The state of one WAMP session. It alone owns the table of pending
/// subscriptions and the subscription index; callbacks are named by handles
/// that the caller chose.
pub struct Session {
    state: SessionState,
    /// The id that the next request gets.
    next_id: u64,
    /// Every request id handed out so far, in order.
    issued: Ghost<Seq<u64>>,
    pending: Vec<PendingSubscription>,
    /// Subscription id to topic; a later entry overrides an earlier one.
    topics: Vec<(u64, String)>,
    /// Topic and callback handle of each confirmed subscription, in order.
    registrations: Vec<(String, u64)>,
    outbox: VecDeque<Vec<WampType>>,
}

impl Session {
    pub closed spec fn spec_state(&self) -> SessionState {
        self.state
    }

    /// The id that the next request gets.
    pub closed spec fn next_request_id(&self) -> u64 {
        self.next_id
    }

    /// Every request id handed out so far, in order.
    pub closed spec fn issued(&self) -> Seq<u64> {
        self.issued@
    }

    /// The pending subscriptions: request id, topic and callback handle.
    pub closed spec fn pending(&self) -> Seq<(u64, Seq<char>, u64)> {
        self.pending@.map_values(|p: PendingSubscription| (p.request_id, p.topic@, p.callback))
    }

    /// The topic of a confirmed subscription.
    pub closed spec fn topic_of(&self, sub: u64) -> Option<Seq<char>> {
        topic_in(self.topics@, sub)
    }

    /// The callbacks registered for a topic, in registration order.
    pub closed spec fn callbacks_of(&self, topic: Seq<char>) -> Seq<u64> {
        callbacks_in(self.registrations@, topic)
    }

    /// The envelopes waiting to be sent, oldest first.
    pub closed spec fn outbox(&self) -> Seq<Seq<WampType>> {
        self.outbox@.map_values(|e: Vec<WampType>| e@)
    }

    /// The session's invariant: request ids handed out, and those pending,
    /// increase strictly and stay below the next one, which is a valid id
    /// or one past the last.
    pub closed spec fn wf(&self) -> bool {
        &&& 1 <= self.next_id <= MAX_REQUEST_ID + 1
        &&& increasing_below(self.issued@, self.next_id)
        &&& increasing_below(self.pending@.map_values(|p: PendingSubscription| p.request_id), self.next_id)
    }

    /// The request ids, the pending table and the index are those of
    /// `other`.
    pub open spec fn same_tables(&self, other: &Session) -> bool {
        &&& self.next_request_id() == other.next_request_id()
        &&& self.issued() == other.issued()
        &&& self.pending() == other.pending()
        &&& forall|s: u64| #[trigger] self.topic_of(s) == other.topic_of(s)
        &&& forall|t: Seq<char>| #[trigger] self.callbacks_of(t) == other.callbacks_of(t)
    }

    /// The session is unchanged.
    pub open spec fn unchanged(&self, other: &Session) -> bool {
        &&& self.spec_state() == other.spec_state()
        &&& self.same_tables(other)
        &&& self.outbox() == other.outbox()
    }

    /// `self` is `other` with one more envelope queued, which `sent` accepts.
    pub open spec fn queued_one(&self, other: &Session, sent: spec_fn(Seq<WampType>) -> bool) -> bool {
        &&& self.outbox().len() == other.outbox().len() + 1
        &&& self.outbox().drop_last() == other.outbox()
        &&& sent(self.outbox().last())
    }

    /// A new session that has not joined a realm: its tables and queue are
    /// empty, and its request ids start at a random point.
    pub fn new() -> (r: Session)
        ensures
            r.wf(),
            r.spec_state() == SessionState::NotConnected,
            r.issued().len() == 0,
            r.pending().len() == 0,
            forall|s: u64| #[trigger] r.topic_of(s) is None,
            forall|t: Seq<char>| #[trigger] r.callbacks_of(t).len() == 0,
            r.outbox().len() == 0,
    {
        let start = new_event_id();
        let r = Session {
            state: SessionState::NotConnected,
            next_id: start + 1,
            issued: Ghost(Seq::empty()),
            pending: Vec::new(),
            topics: Vec::new(),
            registrations: Vec::new(),
            outbox: VecDeque::new(),
        };
        assert(r.pending@.map_values(|p: PendingSubscription| p.request_id) =~= Seq::empty());
        assert(r.pending() =~= Seq::empty());
        assert(r.outbox() =~= Seq::empty());
        r
    }

    /// The lifecycle state.
    pub fn state(&self) -> (r: SessionState)
        ensures
            r == self.spec_state(),
    {
        self.state
    }

    fn enqueue(&mut self, env: Vec<WampType>)
        ensures
            final(self).outbox() == old(self).outbox().push(env@),
            final(self).state == old(self).state,
            final(self).next_id == old(self).next_id,
            final(self).issued == old(self).issued,
            final(self).pending == old(self).pending,
            final(self).topics == old(self).topics,
            final(self).registrations == old(self).registrations,
    {
        let ghost e = env@;
        self.outbox.push_back(env);
        assert(self.outbox() =~= old(self).outbox().push(e));
    }

    /// Hands out the next request id.
    fn fresh_id(&mut self) -> (r: WampResult<u64>)
        requires
            old(self).wf(),
        ensures
            final(self).wf(),
            old(self).next_id <= MAX_REQUEST_ID ==> {
                &&& r == Ok::<u64, WampError>(old(self).next_id)
                &&& final(self).next_id == old(self).next_id + 1
                &&& final(self).issued@ == old(self).issued@.push(old(self).next_id)
            },
            old(self).next_id > MAX_REQUEST_ID ==> {
                &&& r == Err::<u64, WampError>(WampError::RequestIdsExhausted)
                &&& final(self).next_id == old(self).next_id
                &&& final(self).issued == old(self).issued
            },
            final(self).state == old(self).state,
            final(self).pending == old(self).pending,
            final(self).topics == old(self).topics,
            final(self).registrations == old(self).registrations,
            final(self).outbox == old(self).outbox,
    {
        if self.next_id > MAX_REQUEST_ID {
            return Err(WampError::RequestIdsExhausted);
        }
        let id = self.next_id;
        self.next_id = id + 1;
        self.issued = Ghost(self.issued@.push(id));
        Ok(id)
    }

    /// Sends HELLO to join `realm`, announcing no advanced feature. The
    /// session counts as established from then on. A session joins once:
    /// a second call is a misuse, and a closed session joins no more.
    pub fn join(&mut self, realm: &str) -> (r: WampResult<()>)
        requires
            old(self).wf(),
        ensures
            final(self).wf(),
            match old(self).spec_state() {
                SessionState::NotConnected => {
                    &&& r is Ok
                    &&& final(self).spec_state() == SessionState::Established
                    &&& final(self).same_tables(old(self))
                    &&& final(self).queued_one(old(self), |e: Seq<WampType>| is_hello(e, realm@))
                },
                SessionState::Established => {
                    &&& r == Err::<(), WampError>(WampError::AlreadyJoined)
                    &&& final(self).unchanged(old(self))
                },
                SessionState::Closed => {
                    &&& r == Err::<(), WampError>(WampError::NotConnected)
                    &&& final(self).unchanged(old(self))
                },
            },
    {
        match self.state {
            SessionState::Established => {
                return Err(WampError::AlreadyJoined);
            },
            SessionState::Closed => {
                return Err(WampError::NotConnected);
            },
            SessionState::NotConnected => {},
        }
        let join = EventJoin::new(realm.to_owned());
        let ghost d = join.details;
        let env = join.into_event().encode();
        assert(!d.any_feature() && d.is_encoding(env@[2]));
        let ghost e = env@;
        self.enqueue(env);
        self.state = SessionState::Established;
        assert(is_hello(e, realm@));
        assert(self.outbox().last() == e);
        assert(self.outbox().drop_last() =~= old(self).outbox());
        Ok(())
    }

    /// Publishes an event on `topic` with a fresh request id; it returns
    /// once the PUBLISH is queued, not once the router acknowledges it.
    pub fn publish(&mut self, topic: &str, args: Vec<WampType>, kwargs: WampType) -> (r:
        WampResult<u64>)
        requires
            old(self).wf(),
        ensures
            final(self).wf(),
            old(self).spec_state() != SessionState::Established ==> {
                &&& r == Err::<u64, WampError>(WampError::NotConnected)
                &&& final(self).unchanged(old(self))
            },
            old(self).spec_state() == SessionState::Established && old(self).next_request_id()
                > MAX_REQUEST_ID ==> {
                &&& r == Err::<u64, WampError>(WampError::RequestIdsExhausted)
                &&& final(self).unchanged(old(self))
            },
            old(self).spec_state() == SessionState::Established && old(self).next_request_id()
                <= MAX_REQUEST_ID ==> {
                let id = old(self).next_request_id();
                &&& r == Ok::<u64, WampError>(id)
                &&& final(self).spec_state() == old(self).spec_state()
                &&& final(self).next_request_id() == id + 1
                &&& final(self).issued() == old(self).issued().push(id)
                &&& final(self).pending() == old(self).pending()
                &&& forall|s: u64| #[trigger] final(self).topic_of(s) == old(self).topic_of(s)
                &&& forall|t: Seq<char>| #[trigger] final(self).callbacks_of(t) == old(self).callbacks_of(t)
                &&& final(self).queued_one(
                    old(self),
                    |e: Seq<WampType>| is_publish(e, id, topic@, args, kwargs),
                )
            },
    {
        if self.state != SessionState::Established {
            return Err(WampError::NotConnected);
        }
        let id = self.fresh_id()?;
        let env = EventPublish::new(id, topic.to_owned(), args, kwargs).into_event().encode();
        let ghost e = env@;
        self.enqueue(env);
        assert(is_publish(e, id, topic@, args, kwargs));
        assert(self.outbox().last() == e);
        assert(self.outbox().drop_last() =~= old(self).outbox());
        Ok(id)
    }

    /// Subscribes `callback` to `topic` with a fresh request id. The request
    /// enters the pending table before its SUBSCRIBE is queued, so that no
    /// confirmation can come for a request that the table does not hold.
    pub fn subscribe(&mut self, topic: &str, callback: u64) -> (r: WampResult<u64>)
        requires
            old(self).wf(),
        ensures
            final(self).wf(),
            old(self).spec_state() != SessionState::Established ==> {
                &&& r == Err::<u64, WampError>(WampError::NotConnected)
                &&& final(self).unchanged(old(self))
            },
            old(self).spec_state() == SessionState::Established && old(self).next_request_id()
                > MAX_REQUEST_ID ==> {
                &&& r == Err::<u64, WampError>(WampError::RequestIdsExhausted)
                &&& final(self).unchanged(old(self))
            },
            old(self).spec_state() == SessionState::Established && old(self).next_request_id()
                <= MAX_REQUEST_ID ==> {
                let id = old(self).next_request_id();
                &&& r == Ok::<u64, WampError>(id)
                &&& final(self).spec_state() == old(self).spec_state()
                &&& final(self).next_request_id() == id + 1
                &&& final(self).issued() == old(self).issued().push(id)
                &&& final(self).pending() == old(self).pending().push((id, topic@, callback))
                &&& has_pending(final(self), id)
                &&& forall|s: u64| #[trigger] final(self).topic_of(s) == old(self).topic_of(s)
                &&& forall|t: Seq<char>| #[trigger] final(self).callbacks_of(t) == old(self).callbacks_of(t)
                &&& final(self).queued_one(
                    old(self),
                    |e: Seq<WampType>| is_subscribe(e, id, topic@),
                )
            },
    {
        if self.state != SessionState::Established {
            return Err(WampError::NotConnected);
        }
        let id = self.fresh_id()?;
        let ghost before = self.pending@;
        self.pending.push(PendingSubscription { request_id: id, topic: topic.to_owned(), callback });
        proof {
            let ids = self.pending@.map_values(|p: PendingSubscription| p.request_id);
            let old_ids = before.map_values(|p: PendingSubscription| p.request_id);
            assert(ids =~= old_ids.push(id));
            assert(self.pending() =~= old(self).pending().push((id, topic@, callback)));
            assert(self.pending()[self.pending().len() - 1].0 == id);
        }
        let env = EventSubscribe::new(id, topic.to_owned()).into_event().encode();
        let ghost e = env@;
        self.enqueue(env);
        assert(is_subscribe(e, id, topic@));
        assert(self.outbox().last() == e);
        assert(self.outbox().drop_last() =~= old(self).outbox());
        Ok(id)
    }

    /// The oldest envelope waiting to be sent, taken off the queue.
    pub fn pop_outbound(&mut self) -> (r: Option<Vec<WampType>>)
        requires
            old(self).wf(),
        ensures
            final(self).wf(),
            final(self).spec_state() == old(self).spec_state(),
            final(self).same_tables(old(self)),
            old(self).outbox().len() == 0 ==> r is None && final(self).outbox().len() == 0,
            old(self).outbox().len() > 0 ==> {
                &&& r is Some
                &&& r->Some_0@ == old(self).outbox()[0]
                &&& final(self).outbox() == old(self).outbox().drop_first()
            },
    {
        let r = self.outbox.pop_front();
        assert(self.outbox() =~= old(self).outbox().subrange(1, old(self).outbox().len() as int)
            || old(self).outbox().len() == 0);
        r
    }

    /// The index of the pending request with id `request_id`.
    fn find_pending(&self, request_id: u64) -> (r: Option<usize>)
        ensures
            match r {
                Some(i) => i < self.pending@.len() && self.pending@[i as int].request_id == request_id,
                None => forall|k: int|
                    0 <= k < self.pending@.len() ==> #[trigger] self.pending@[k].request_id != request_id,
            },
    {
        let mut i: usize = 0;
        while i < self.pending.len()
            invariant
                0 <= i <= self.pending@.len(),
                forall|k: int| 0 <= k < i ==> #[trigger] self.pending@[k].request_id != request_id,
            decreases self.pending@.len() - i,
        {
            if self.pending[i].request_id == request_id {
                return Some(i);
            }
            i = i + 1;
        }
        None
    }

    /// The topic of subscription `sub`, as the index holds it.
    fn lookup_topic(&self, sub: u64) -> (r: Option<String>)
        ensures
            match r {
                Some(t) => self.topic_of(sub) == Some(t@),
                None => self.topic_of(sub) is None,
            },
    {
        let mut i: usize = self.topics.len();
        assert(self.topics@.subrange(0, i as int) =~= self.topics@);
        while i > 0
            invariant
                0 <= i <= self.topics@.len(),
                topic_in(self.topics@, sub) == topic_in(self.topics@.subrange(0, i as int), sub),
            decreases i,
        {
            assert(self.topics@.subrange(0, i as int).drop_last() =~= self.topics@.subrange(
                0,
                i - 1,
            ));
            if self.topics[i - 1].0 == sub {
                return Some(self.topics[i - 1].1.clone());
            }
            i = i - 1;
        }
        assert(self.topics@.subrange(0, 0) =~= Seq::<(u64, String)>::empty());
        None
    }

    /// The callbacks registered for `topic`, in registration order.
    fn callbacks_for(&self, topic: &String) -> (r: Vec<u64>)
        ensures
            r@ == self.callbacks_of(topic@),
    {
        let mut r: Vec<u64> = Vec::new();
        let mut i: usize = 0;
        while i < self.registrations.len()
            invariant
                0 <= i <= self.registrations@.len(),
                r@ == callbacks_in(self.registrations@.subrange(0, i as int), topic@),
            decreases self.registrations@.len() - i,
        {
            assert(self.registrations@.subrange(0, i + 1).drop_last() =~= self.registrations@.subrange(
                0,
                i as int,
            ));
            if self.registrations[i].0 == *topic {
                r.push(self.registrations[i].1);
            }
            i = i + 1;
        }
        assert(self.registrations@.subrange(0, i as int) =~= self.registrations@);
        r
    }

    /// Ends the session, as when the transport closed or the application
    /// disconnected: every pending request fails with the connection-closed
    /// error, which the result lists beside each request id, in order.
    pub fn close(&mut self) -> (failed: Vec<(u64, WampError)>)
        requires
            old(self).wf(),
        ensures
            final(self).wf(),
            closed_from(old(self), final(self), failed@),
    {
        let mut taken: Vec<PendingSubscription> = Vec::new();
        std::mem::swap(&mut self.pending, &mut taken);
        let mut failed: Vec<(u64, WampError)> = Vec::new();
        let mut i: usize = 0;
        while i < taken.len()
            invariant
                0 <= i <= taken@.len(),
                taken@ == old(self).pending@,
                failed@.len() == i,
                forall|k: int|
                    0 <= k < i ==> #[trigger] failed@[k] == (
                        taken@[k].request_id,
                        WampError::ConnectionClosed,
                    ),
            decreases taken@.len() - i,
        {
            failed.push((taken[i].request_id, WampError::ConnectionClosed));
            i = i + 1;
        }
        self.state = SessionState::Closed;
        assert(self.pending@.map_values(|p: PendingSubscription| p.request_id) =~= Seq::empty());
        failed
    }

    /// Hands one decoded message from the router to the session; see
    /// `dispatched`.
    pub fn dispatch(&mut self, msg: WampEvent) -> (r: WampResult<Dispatch>)
        requires
            old(self).wf(),
        ensures
            final(self).wf(),
            dispatched(old(self), final(self), msg, r),
    {
        if self.state != SessionState::Established {
            return Err(WampError::NotConnected);
        }
        match msg {
            WampEvent::Subscribed { request_id, subscription_id } => {
                match self.find_pending(request_id) {
                    None => {
                        assert forall|k: int| 0 <= k < self.pending().len() implies #[trigger] self.pending()[k].0
                            != request_id by {
                            assert(self.pending()[k].0 == self.pending@[k].request_id);
                        }
                        Err(WampError::ProtocolError)
                    },
                    Some(i) => {
                        assert(old(self).pending()[i as int].0 == request_id);
                        self.confirm(i, subscription_id);
                        Ok(Dispatch::Subscribed { request_id, subscription_id })
                    },
                }
            },
            WampEvent::Event { subscription_id, .. } => {
                match self.lookup_topic(subscription_id) {
                    None => Err(WampError::ProtocolError),
                    Some(topic) => {
                        let callbacks = self.callbacks_for(&topic);
                        Ok(Dispatch::Deliver { callbacks })
                    },
                }
            },
            WampEvent::Abort { .. } | WampEvent::Goodbye { .. } => {
                let failed = self.close();
                Ok(Dispatch::Closed { failed })
            },
            WampEvent::Welcome { .. } => Ok(Dispatch::Nothing),
            _ => Err(WampError::ProtocolError),
        }
    }

    /// Hands one envelope from the router to the session: an envelope that
    /// does not decode is a protocol violation and leaves the session
    /// unchanged; the message of one that does is dispatched.
    pub fn receive(&mut self, env: Vec<WampType>) -> (r: WampResult<Dispatch>)
        requires
            old(self).wf(),
        ensures
            final(self).wf(),
            match message_of(env@) {
                None => r == Err::<Dispatch, WampError>(WampError::ProtocolError) && final(self).unchanged(old(self)),
                Some(m) => dispatched(old(self), final(self), m, r),
            },
    {
        match WampEvent::decode(env) {
            Ok(msg) => self.dispatch(msg),
            Err(e) => Err(e),
        }
    }

    /// Moves pending request `i` into the index as subscription `sub`.
    fn confirm(&mut self, i: usize, sub: u64)
        requires
            old(self).wf(),
            i < old(self).pending@.len(),
        ensures
            final(self).wf(),
            final(self).state == old(self).state,
            final(self).next_id == old(self).next_id,
            final(self).issued == old(self).issued,
            final(self).outbox == old(self).outbox,
            ({
                let topic = old(self).pending()[i as int].1;
                let callback = old(self).pending()[i as int].2;
                &&& final(self).pending() == old(self).pending().remove(i as int)
                &&& final(self).topic_of(sub) == Some(topic)
                &&& forall|s: u64| s != sub ==> #[trigger] final(self).topic_of(s) == old(self).topic_of(s)
                &&& final(self).callbacks_of(topic) == old(self).callbacks_of(topic).push(callback)
                &&& forall|t: Seq<char>|
                    t != topic ==> #[trigger] final(self).callbacks_of(t) == old(self).callbacks_of(t)
            }),
            forall|k: int|
                0 <= k < final(self).pending().len() ==> #[trigger] final(self).pending()[k].0
                    != old(self).pending()[i as int].0,
    {
        let ghost old_ids = self.pending@.map_values(|p: PendingSubscription| p.request_id);
        let entry = self.pending.remove(i);
        proof {
            let ids = self.pending@.map_values(|p: PendingSubscription| p.request_id);
            assert(ids =~= old_ids.remove(i as int));
            assert(self.pending() =~= old(self).pending().remove(i as int));
            assert forall|k: int| 0 <= k < ids.len() implies ids[k] != old_ids[i as int] by {
                if k < i {
                    assert(ids[k] == old_ids[k]);
                } else {
                    assert(ids[k] == old_ids[k + 1]);
                }
            }
            assert forall|k: int| 0 <= k < ids.len() implies #[trigger] self.pending()[k].0 == ids[k] by {}
        }
        let PendingSubscription { request_id: _, topic, callback } = entry;
        let ghost t = topic@;
        self.topics.push((sub, topic.clone()));
        self.registrations.push((topic, callback));
        assert(self.topics@.drop_last() =~= old(self).topics@);
        assert(self.registrations@.drop_last() =~= old(self).registrations@);
        assert(self.registrations@.last().0@ == t);
    }
}

/// The request ids that a session hands out are pairwise distinct.
pub proof fn lemma_issued_ids_distinct(s: &Session)
    requires
        s.wf(),
    ensures
        forall|i: int, j: int|
            0 <= i < s.issued().len() && 0 <= j < s.issued().len() && i != j ==> s.issued()[i]
                != s.issued()[j],
{
    assert forall|i: int, j: int|
        0 <= i < s.issued().len() && 0 <= j < s.issued().len() && i != j implies s.issued()[i]
        != s.issued()[j] by {
        if i < j {
            assert(s.issued@[i] < s.issued@[j]);
        } else {
            assert(s.issued@[j] < s.issued@[i]);
        }
    }
}

/// Confirming a pending SUBSCRIBE binds the subscription to that request's
/// topic, appends that request's callback to the topic's callbacks, and
/// leaves no request with its id pending.
pub proof fn lemma_confirm_binds_topic(
    old: &Session,
    new: &Session,
    j: int,
    request_id: u64,
    subscription_id: u64,
)
    requires
        old.wf(),
        0 <= j < old.pending().len(),
        old.pending()[j].0 == request_id,
        confirmed(old, new, request_id, subscription_id),
    ensures
        new.topic_of(subscription_id) == Some(old.pending()[j].1),
        new.callbacks_of(old.pending()[j].1) == old.callbacks_of(old.pending()[j].1).push(
            old.pending()[j].2,
        ),
        new.pending() == old.pending().remove(j),
{
    let i = choose|i: int|
        0 <= i < old.pending().len() && #[trigger] old.pending()[i].0 == request_id && {
            let topic = old.pending()[i].1;
            let callback = old.pending()[i].2;
            &&& new.pending() == old.pending().remove(i)
            &&& new.topic_of(subscription_id) == Some(topic)
            &&& forall|s: u64| s != subscription_id ==> #[trigger] new.topic_of(s) == old.topic_of(s)
            &&& new.callbacks_of(topic) == old.callbacks_of(topic).push(callback)
            &&& forall|t: Seq<char>| t != topic ==> #[trigger] new.callbacks_of(t) == old.callbacks_of(t)
        };
    lemma_pending_ids_unique(old, i, j);
}

/// Two pending requests with the same id are the same request.
proof fn lemma_pending_ids_unique(s: &Session, i: int, j: int)
    requires
        s.wf(),
        0 <= i < s.pending().len(),
        0 <= j < s.pending().len(),
        s.pending()[i].0 == s.pending()[j].0,
    ensures
        i == j,
{
    let ids = s.pending@.map_values(|p: PendingSubscription| p.request_id);
    assert(s.pending()[i].0 == ids[i]);
    assert(s.pending()[j].0 == ids[j]);
}

/// Two subscriptions to one topic that had no callbacks, once both are
/// confirmed as the same subscription, register both callbacks for the
/// topic, each once, in the order of confirmation; an EVENT for the
/// subscription then delivers exactly these.
pub proof fn lemma_fan_out(
    s0: &Session,
    s1: &Session,
    s2: &Session,
    r1: u64,
    r2: u64,
    sub: u64,
    topic: Seq<char>,
    c1: u64,
    c2: u64,
)
    requires
        s0.wf(),
        s1.wf(),
        s0.callbacks_of(topic).len() == 0,
        s0.pending().contains((r1, topic, c1)),
        s1.pending().contains((r2, topic, c2)),
        confirmed(s0, s1, r1, sub),
        confirmed(s1, s2, r2, sub),
    ensures
        s2.topic_of(sub) == Some(topic),
        s2.callbacks_of(topic) == seq![c1, c2],
{
    let j1 = choose|j: int| 0 <= j < s0.pending().len() && s0.pending()[j] == (r1, topic, c1);
    lemma_confirm_binds_topic(s0, s1, j1, r1, sub);
    let j2 = choose|j: int| 0 <= j < s1.pending().len() && s1.pending()[j] == (r2, topic, c2);
    lemma_confirm_binds_topic(s1, s2, j2, r2, sub);
    assert(s2.callbacks_of(topic) =~= seq![c1, c2]);
}

} // verus!
