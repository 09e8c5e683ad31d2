//! The WAMP message model and the codec between messages and envelopes.
use vstd::prelude::*;

use crate::options::{Details, Options};
use crate::{WampError, WampResult};

verus! {

/// All WAMP message kinds, each bound to the numeric code that the protocol
/// gives it.
#[derive(Copy, Clone, Debug, PartialEq, Eq, Structural)]
pub enum MessageType {
    HELLO,
    WELCOME,
    ABORT,
    CHALLENGE,
    AUTHENTICATE,
    GOODBYE,
    HEARTBEAT,
    ERROR,
    PUBLISH,
    PUBLISHED,
    SUBSCRIBE,
    SUBSCRIBED,
    UNSUBSCRIBE,
    UNSUBSCRIBED,
    EVENT,
    CALL,
    CANCEL,
    RESULT,
    REGISTER,
    REGISTERED,
    UNREGISTER,
    UNREGISTERED,
    INVOCATION,
    INTERRUPT,
    YIELD,
    /// The code is not one of the protocol's: received, it means a protocol
    /// violation.
    NONE,
}

impl MessageType {
    /// The protocol's numeric code of the message kind.
    pub open spec fn spec_code(self) -> u32 {
        match self {
            MessageType::HELLO => 1,
            MessageType::WELCOME => 2,
            MessageType::ABORT => 3,
            MessageType::CHALLENGE => 4,
            MessageType::AUTHENTICATE => 5,
            MessageType::GOODBYE => 6,
            MessageType::HEARTBEAT => 7,
            MessageType::ERROR => 8,
            MessageType::PUBLISH => 16,
            MessageType::PUBLISHED => 17,
            MessageType::SUBSCRIBE => 32,
            MessageType::SUBSCRIBED => 33,
            MessageType::UNSUBSCRIBE => 34,
            MessageType::UNSUBSCRIBED => 35,
            MessageType::EVENT => 36,
            MessageType::CALL => 48,
            MessageType::CANCEL => 49,
            MessageType::RESULT => 50,
            MessageType::REGISTER => 64,
            MessageType::REGISTERED => 65,
            MessageType::UNREGISTER => 66,
            MessageType::UNREGISTERED => 67,
            MessageType::INVOCATION => 68,
            MessageType::INTERRUPT => 69,
            MessageType::YIELD => 70,
            MessageType::NONE => 0,
        }
    }

    /// The message kind of a numeric code; `NONE` for a code that the
    /// protocol does not define.
    pub open spec fn spec_from_code(code: u64) -> MessageType {
        if code == 1 {
            MessageType::HELLO
        } else if code == 2 {
            MessageType::WELCOME
        } else if code == 3 {
            MessageType::ABORT
        } else if code == 4 {
            MessageType::CHALLENGE
        } else if code == 5 {
            MessageType::AUTHENTICATE
        } else if code == 6 {
            MessageType::GOODBYE
        } else if code == 7 {
            MessageType::HEARTBEAT
        } else if code == 8 {
            MessageType::ERROR
        } else if code == 16 {
            MessageType::PUBLISH
        } else if code == 17 {
            MessageType::PUBLISHED
        } else if code == 32 {
            MessageType::SUBSCRIBE
        } else if code == 33 {
            MessageType::SUBSCRIBED
        } else if code == 34 {
            MessageType::UNSUBSCRIBE
        } else if code == 35 {
            MessageType::UNSUBSCRIBED
        } else if code == 36 {
            MessageType::EVENT
        } else if code == 48 {
            MessageType::CALL
        } else if code == 49 {
            MessageType::CANCEL
        } else if code == 50 {
            MessageType::RESULT
        } else if code == 64 {
            MessageType::REGISTER
        } else if code == 65 {
            MessageType::REGISTERED
        } else if code == 66 {
            MessageType::UNREGISTER
        } else if code == 67 {
            MessageType::UNREGISTERED
        } else if code == 68 {
            MessageType::INVOCATION
        } else if code == 69 {
            MessageType::INTERRUPT
        } else if code == 70 {
            MessageType::YIELD
        } else {
            MessageType::NONE
        }
    }

    /// The numeric code of this message kind.
    pub fn code(self) -> (r: u32)
        ensures
            r == self.spec_code(),
    {
        match self {
            MessageType::HELLO => 1,
            MessageType::WELCOME => 2,
            MessageType::ABORT => 3,
            MessageType::CHALLENGE => 4,
            MessageType::AUTHENTICATE => 5,
            MessageType::GOODBYE => 6,
            MessageType::HEARTBEAT => 7,
            MessageType::ERROR => 8,
            MessageType::PUBLISH => 16,
            MessageType::PUBLISHED => 17,
            MessageType::SUBSCRIBE => 32,
            MessageType::SUBSCRIBED => 33,
            MessageType::UNSUBSCRIBE => 34,
            MessageType::UNSUBSCRIBED => 35,
            MessageType::EVENT => 36,
            MessageType::CALL => 48,
            MessageType::CANCEL => 49,
            MessageType::RESULT => 50,
            MessageType::REGISTER => 64,
            MessageType::REGISTERED => 65,
            MessageType::UNREGISTER => 66,
            MessageType::UNREGISTERED => 67,
            MessageType::INVOCATION => 68,
            MessageType::INTERRUPT => 69,
            MessageType::YIELD => 70,
            MessageType::NONE => 0,
        }
    }

    /// The message kind of a numeric code, `NONE` where the protocol defines
    /// no kind for it.
    pub fn from_code(code: u64) -> (r: MessageType)
        ensures
            r == Self::spec_from_code(code),
    {
        match code {
            1 => MessageType::HELLO,
            2 => MessageType::WELCOME,
            3 => MessageType::ABORT,
            4 => MessageType::CHALLENGE,
            5 => MessageType::AUTHENTICATE,
            6 => MessageType::GOODBYE,
            7 => MessageType::HEARTBEAT,
            8 => MessageType::ERROR,
            16 => MessageType::PUBLISH,
            17 => MessageType::PUBLISHED,
            32 => MessageType::SUBSCRIBE,
            33 => MessageType::SUBSCRIBED,
            34 => MessageType::UNSUBSCRIBE,
            35 => MessageType::UNSUBSCRIBED,
            36 => MessageType::EVENT,
            48 => MessageType::CALL,
            49 => MessageType::CANCEL,
            50 => MessageType::RESULT,
            64 => MessageType::REGISTER,
            65 => MessageType::REGISTERED,
            66 => MessageType::UNREGISTER,
            67 => MessageType::UNREGISTERED,
            68 => MessageType::INVOCATION,
            69 => MessageType::INTERRUPT,
            70 => MessageType::YIELD,
            _ => MessageType::NONE,
        }
    }
}

impl From<u32> for MessageType {
    fn from(value: u32) -> (r: MessageType) {
        MessageType::from_code(value as u64)
    }
}

impl vstd::std_specs::convert::FromSpecImpl<u32> for MessageType {
    open spec fn obeys_from_spec() -> bool {
        true
    }

    open spec fn from_spec(v: u32) -> MessageType {
        MessageType::spec_from_code(v as u64)
    }
}

/// Codes round-trip: the kind of a kind's code is that kind.
pub proof fn lemma_code_round_trip(t: MessageType)
    ensures
        MessageType::spec_from_code(t.spec_code() as u64) == t,
{
}

/// A code that names a kind is that kind's code; every other code gives
/// `NONE`.
pub proof fn lemma_from_code_inverse(code: u64)
    ensures
        MessageType::spec_from_code(code) != MessageType::NONE ==> MessageType::spec_from_code(
            code,
        ).spec_code() == code,
        MessageType::spec_from_code(code) == MessageType::NONE ==> code != 0 ==> forall|
            t: MessageType,
        | t.spec_code() != code,
{
}

/// A random starting point for request ids.
///
/// Relies on `rand::thread_rng` and `RngCore::next_u32` (rand 0.8): the value
/// is a `u32`, so below 2^32. The generator panics only where the operating
/// system cannot seed it.
#[verifier::external_body]
pub fn new_event_id() -> (r: u64)
    ensures
        r < 0x1_0000_0000,
{
    rand::RngCore::next_u32(&mut rand::thread_rng()) as u64
}

/// A dynamic value, as carried in positional arguments, keyword arguments
/// and option bags.
#[derive(Debug, PartialEq)]
pub enum WampType {
    UInt(u64),
    Int(i64),
    Bool(bool),
    Text(String),
    List(Vec<WampType>),
    /// A mapping from text keys to values; the order of its entries carries
    /// no meaning.
    Object(Vec<(String, WampType)>),
    /// An empty value, sent as an empty mapping.
    Null,
}

/// One WAMP message, with the fields of the envelope of its kind.
#[derive(Debug, PartialEq)]
pub enum WampEvent {
    /// `[HELLO, realm, details]`
    Hello { realm: String, details: WampType },
    /// `[WELCOME, session, details]`
    Welcome { session_id: u64, details: WampType },
    /// `[ABORT, details, reason]`
    Abort { details: WampType, reason: String },
    /// `[GOODBYE, details, reason]`
    Goodbye { details: WampType, reason: String },
    /// `[PUBLISH, request, options, topic, args, kwargs]`
    Publish {
        request_id: u64,
        options: WampType,
        topic: String,
        args: Vec<WampType>,
        kwargs: WampType,
    },
    /// `[SUBSCRIBE, request, options, topic]`
    Subscribe { request_id: u64, options: WampType, topic: String },
    /// `[SUBSCRIBED, request, subscription]`
    Subscribed { request_id: u64, subscription_id: u64 },
    /// `[EVENT, subscription, publication, details, args]`, with the keyword
    /// arguments as a sixth field where there are any.
    Event {
        subscription_id: u64,
        publication_id: u64,
        details: WampType,
        args: Vec<WampType>,
        kwargs: Option<WampType>,
    },
}

impl WampEvent {
    /// The kind of the message.
    pub open spec fn kind(self) -> MessageType {
        match self {
            WampEvent::Hello { .. } => MessageType::HELLO,
            WampEvent::Welcome { .. } => MessageType::WELCOME,
            WampEvent::Abort { .. } => MessageType::ABORT,
            WampEvent::Goodbye { .. } => MessageType::GOODBYE,
            WampEvent::Publish { .. } => MessageType::PUBLISH,
            WampEvent::Subscribe { .. } => MessageType::SUBSCRIBE,
            WampEvent::Subscribed { .. } => MessageType::SUBSCRIBED,
            WampEvent::Event { .. } => MessageType::EVENT,
        }
    }
}

/// The envelope field counts that a message kind admits; none for a kind
/// that has no envelope shape here.
pub open spec fn arity_ok(kind: MessageType, n: int) -> bool {
    match kind {
        MessageType::HELLO => n == 3,
        MessageType::WELCOME => n == 3,
        MessageType::ABORT => n == 3,
        MessageType::GOODBYE => n == 3,
        MessageType::PUBLISH => n == 6,
        MessageType::SUBSCRIBE => n == 4,
        MessageType::SUBSCRIBED => n == 3,
        MessageType::EVENT => n == 5 || n == 6,
        _ => false,
    }
}

/// The envelope of a message: its kind's code, then its fields in order.
pub open spec fn envelope_of(m: WampEvent) -> Seq<WampType> {
    let code = WampType::UInt(m.kind().spec_code() as u64);
    match m {
        WampEvent::Hello { realm, details } => seq![code, WampType::Text(realm), details],
        WampEvent::Welcome { session_id, details } => seq![
            code,
            WampType::UInt(session_id),
            details,
        ],
        WampEvent::Abort { details, reason } => seq![code, details, WampType::Text(reason)],
        WampEvent::Goodbye { details, reason } => seq![code, details, WampType::Text(reason)],
        WampEvent::Publish { request_id, options, topic, args, kwargs } => seq![
            code,
            WampType::UInt(request_id),
            options,
            WampType::Text(topic),
            WampType::List(args),
            kwargs,
        ],
        WampEvent::Subscribe { request_id, options, topic } => seq![
            code,
            WampType::UInt(request_id),
            options,
            WampType::Text(topic),
        ],
        WampEvent::Subscribed { request_id, subscription_id } => seq![
            code,
            WampType::UInt(request_id),
            WampType::UInt(subscription_id),
        ],
        WampEvent::Event { subscription_id, publication_id, details, args, kwargs } => {
            let head = seq![
                code,
                WampType::UInt(subscription_id),
                WampType::UInt(publication_id),
                details,
                WampType::List(args),
            ];
            match kwargs {
                Some(k) => head.push(k),
                None => head,
            }
        },
    }
}

/// The message that an envelope holds, or `None` where the envelope breaks
/// the protocol: it is empty, its first field is no known code, its field
/// count is not one that its kind admits, or a field has the wrong type.
pub open spec fn message_of(e: Seq<WampType>) -> Option<WampEvent> {
    if e.len() == 0 {
        None
    } else {
        match e[0] {
            WampType::UInt(code) => {
                let kind = MessageType::spec_from_code(code);
                if !arity_ok(kind, e.len() as int) {
                    None
                } else {
                    fields_of(kind, e)
                }
            },
            _ => None,
        }
    }
}

/// The message of a kind from an envelope whose field count that kind admits.
pub open spec fn fields_of(kind: MessageType, e: Seq<WampType>) -> Option<WampEvent> {
    match kind {
        MessageType::HELLO => match e[1] {
            WampType::Text(realm) => Some(WampEvent::Hello { realm, details: e[2] }),
            _ => None,
        },
        MessageType::WELCOME => match e[1] {
            WampType::UInt(session_id) => Some(WampEvent::Welcome { session_id, details: e[2] }),
            _ => None,
        },
        MessageType::ABORT => match e[2] {
            WampType::Text(reason) => Some(WampEvent::Abort { details: e[1], reason }),
            _ => None,
        },
        MessageType::GOODBYE => match e[2] {
            WampType::Text(reason) => Some(WampEvent::Goodbye { details: e[1], reason }),
            _ => None,
        },
        MessageType::PUBLISH => match (e[1], e[3], e[4]) {
            (WampType::UInt(request_id), WampType::Text(topic), WampType::List(args)) => Some(
                WampEvent::Publish { request_id, options: e[2], topic, args, kwargs: e[5] },
            ),
            _ => None,
        },
        MessageType::SUBSCRIBE => match (e[1], e[3]) {
            (WampType::UInt(request_id), WampType::Text(topic)) => Some(
                WampEvent::Subscribe { request_id, options: e[2], topic },
            ),
            _ => None,
        },
        MessageType::SUBSCRIBED => match (e[1], e[2]) {
            (WampType::UInt(request_id), WampType::UInt(subscription_id)) => Some(
                WampEvent::Subscribed { request_id, subscription_id },
            ),
            _ => None,
        },
        MessageType::EVENT => match (e[1], e[2], e[4]) {
            (
                WampType::UInt(subscription_id),
                WampType::UInt(publication_id),
                WampType::List(args),
            ) => Some(
                WampEvent::Event {
                    subscription_id,
                    publication_id,
                    details: e[3],
                    args,
                    kwargs: if e.len() == 6 {
                        Some(e[5])
                    } else {
                        None
                    },
                },
            ),
            _ => None,
        },
        _ => None,
    }
}

impl WampEvent {
    /// The envelope of this message: its kind's code, then its fields.
    pub fn encode(self) -> (r: Vec<WampType>)
        ensures
            r@ == envelope_of(self),
    {
        let ghost m = self;
        let mut r: Vec<WampType> = Vec::new();
        match self {
            WampEvent::Hello { realm, details } => {
                r.push(WampType::UInt(1));
                r.push(WampType::Text(realm));
                r.push(details);
            },
            WampEvent::Welcome { session_id, details } => {
                r.push(WampType::UInt(2));
                r.push(WampType::UInt(session_id));
                r.push(details);
            },
            WampEvent::Abort { details, reason } => {
                r.push(WampType::UInt(3));
                r.push(details);
                r.push(WampType::Text(reason));
            },
            WampEvent::Goodbye { details, reason } => {
                r.push(WampType::UInt(6));
                r.push(details);
                r.push(WampType::Text(reason));
            },
            WampEvent::Publish { request_id, options, topic, args, kwargs } => {
                r.push(WampType::UInt(16));
                r.push(WampType::UInt(request_id));
                r.push(options);
                r.push(WampType::Text(topic));
                r.push(WampType::List(args));
                r.push(kwargs);
            },
            WampEvent::Subscribe { request_id, options, topic } => {
                r.push(WampType::UInt(32));
                r.push(WampType::UInt(request_id));
                r.push(options);
                r.push(WampType::Text(topic));
            },
            WampEvent::Subscribed { request_id, subscription_id } => {
                r.push(WampType::UInt(33));
                r.push(WampType::UInt(request_id));
                r.push(WampType::UInt(subscription_id));
            },
            WampEvent::Event { subscription_id, publication_id, details, args, kwargs } => {
                r.push(WampType::UInt(36));
                r.push(WampType::UInt(subscription_id));
                r.push(WampType::UInt(publication_id));
                r.push(details);
                r.push(WampType::List(args));
                match kwargs {
                    Some(k) => r.push(k),
                    None => {},
                }
            },
        }
        assert(r@ =~= envelope_of(m));
        r
    }

    /// The message that an envelope holds. An envelope that is empty, starts
    /// with no known code, has a field count that its kind does not admit,
    /// or holds a field of the wrong type is a protocol violation.
    pub fn decode(env: Vec<WampType>) -> (r: WampResult<WampEvent>)
        ensures
            r == match message_of(env@) {
                Some(m) => Ok::<WampEvent, WampError>(m),
                None => Err(WampError::ProtocolError),
            },
    {
        let n = env.len();
        if n == 0 {
            return Err(WampError::ProtocolError);
        }
        let code: u64 = match &env[0] {
            WampType::UInt(c) => *c,
            _ => {
                return Err(WampError::ProtocolError);
            },
        };
        let kind = MessageType::from_code(code);
        if !arity_fits(kind, n) {
            return Err(WampError::ProtocolError);
        }
        let mut env = env;
        match kind {
            MessageType::HELLO => {
                let details = pop_last(&mut env);
                match pop_last(&mut env) {
                    WampType::Text(realm) => Ok(WampEvent::Hello { realm, details }),
                    _ => Err(WampError::ProtocolError),
                }
            },
            MessageType::WELCOME => {
                let details = pop_last(&mut env);
                match pop_last(&mut env) {
                    WampType::UInt(session_id) => Ok(WampEvent::Welcome { session_id, details }),
                    _ => Err(WampError::ProtocolError),
                }
            },
            MessageType::ABORT | MessageType::GOODBYE => {
                let reason = pop_last(&mut env);
                let details = pop_last(&mut env);
                match reason {
                    WampType::Text(reason) => if code == 3 {
                        Ok(WampEvent::Abort { details, reason })
                    } else {
                        Ok(WampEvent::Goodbye { details, reason })
                    },
                    _ => Err(WampError::ProtocolError),
                }
            },
            MessageType::PUBLISH => {
                let kwargs = pop_last(&mut env);
                let args = pop_last(&mut env);
                let topic = pop_last(&mut env);
                let options = pop_last(&mut env);
                let id = pop_last(&mut env);
                match (id, topic, args) {
                    (WampType::UInt(request_id), WampType::Text(topic), WampType::List(args)) => {
                        Ok(WampEvent::Publish { request_id, options, topic, args, kwargs })
                    },
                    _ => Err(WampError::ProtocolError),
                }
            },
            MessageType::SUBSCRIBE => {
                let topic = pop_last(&mut env);
                let options = pop_last(&mut env);
                let id = pop_last(&mut env);
                match (id, topic) {
                    (WampType::UInt(request_id), WampType::Text(topic)) => {
                        Ok(WampEvent::Subscribe { request_id, options, topic })
                    },
                    _ => Err(WampError::ProtocolError),
                }
            },
            MessageType::SUBSCRIBED => {
                let sub = pop_last(&mut env);
                let id = pop_last(&mut env);
                match (id, sub) {
                    (WampType::UInt(request_id), WampType::UInt(subscription_id)) => {
                        Ok(WampEvent::Subscribed { request_id, subscription_id })
                    },
                    _ => Err(WampError::ProtocolError),
                }
            },
            _ => {
                let kwargs = if n == 6 {
                    Some(pop_last(&mut env))
                } else {
                    None
                };
                let args = pop_last(&mut env);
                let details = pop_last(&mut env);
                let publication = pop_last(&mut env);
                let subscription = pop_last(&mut env);
                match (subscription, publication, args) {
                    (
                        WampType::UInt(subscription_id),
                        WampType::UInt(publication_id),
                        WampType::List(args),
                    ) => Ok(
                        WampEvent::Event { subscription_id, publication_id, details, args, kwargs },
                    ),
                    _ => Err(WampError::ProtocolError),
                }
            },
        }
    }
}

/// Takes the last field off an envelope.
fn pop_last(v: &mut Vec<WampType>) -> (r: WampType)
    requires
        old(v).len() > 0,
    ensures
        r == old(v)@.last(),
        final(v)@ == old(v)@.drop_last(),
{
    match v.pop() {
        Some(x) => x,
        None => WampType::Null,
    }
}

/// Whether a message kind admits an envelope of `n` fields.
fn arity_fits(kind: MessageType, n: usize) -> (r: bool)
    ensures
        r == arity_ok(kind, n as int),
{
    match kind {
        MessageType::HELLO => n == 3,
        MessageType::WELCOME => n == 3,
        MessageType::ABORT => n == 3,
        MessageType::GOODBYE => n == 3,
        MessageType::PUBLISH => n == 6,
        MessageType::SUBSCRIBE => n == 4,
        MessageType::SUBSCRIBED => n == 3,
        MessageType::EVENT => n == 5 || n == 6,
        _ => false,
    }
}

/// Decoding the envelope of a message gives that message back.
pub proof fn lemma_decode_encode(m: WampEvent)
    ensures
        message_of(envelope_of(m)) == Some(m),
{
    let e = envelope_of(m);
    assert(e[0] == WampType::UInt(m.kind().spec_code() as u64));
    lemma_code_round_trip(m.kind());
    match m {
        WampEvent::Event { kwargs, .. } => {
            assert(fields_of(MessageType::EVENT, e) == Some(m));
        },
        _ => {},
    }
}

/// An envelope whose field count its declared kind does not admit never
/// decodes.
pub proof fn lemma_wrong_arity_rejected(e: Seq<WampType>, code: u64)
    requires
        e.len() > 0,
        e[0] == WampType::UInt(code),
        !arity_ok(MessageType::spec_from_code(code), e.len() as int),
    ensures
        message_of(e) is None,
{
}

/// A message decoded from an envelope has a kind that admits the envelope's
/// field count, and that kind's code leads the envelope.
pub proof fn lemma_decoded_arity(e: Seq<WampType>)
    requires
        message_of(e) is Some,
    ensures
        e[0] == WampType::UInt(message_of(e).unwrap().kind().spec_code() as u64),
        arity_ok(message_of(e).unwrap().kind(), e.len() as int),
{
    let code = e[0]->UInt_0;
    lemma_from_code_inverse(code);
}

/// A PUBLISH to send.
#[derive(Debug)]
pub struct EventPublish {
    pub message_type: MessageType,
    pub id: u64,
    pub options: Options,
    pub topic: String,
    pub args: Vec<WampType>,
    pub kwargs: WampType,
}

impl EventPublish {
    /// The PUBLISH of request `id`, with no options.
    pub fn new(id: u64, topic: String, args: Vec<WampType>, kwargs: WampType) -> (r: Self)
        ensures
            r.message_type == MessageType::PUBLISH,
            r.id == id,
            r.options == Options::Empty,
            r.topic == topic,
            r.args == args,
            r.kwargs == kwargs,
    {
        EventPublish { message_type: MessageType::PUBLISH, id, options: Options::Empty, topic, args, kwargs }
    }

    /// The message to send.
    pub fn into_event(self) -> (r: WampEvent)
        ensures
            r matches WampEvent::Publish { request_id, options, topic, args, kwargs } && request_id
                == self.id && options is Object && options->Object_0@.len() == 0 && topic
                == self.topic && args == self.args && kwargs == self.kwargs,
    {
        WampEvent::Publish {
            request_id: self.id,
            options: self.options.encode(),
            topic: self.topic,
            args: self.args,
            kwargs: self.kwargs,
        }
    }
}

/// A SUBSCRIBE to send.
#[derive(Debug)]
pub struct EventSubscribe {
    message_type: MessageType,
    id: u64,
    options: Options,
    topic: String,
}

impl EventSubscribe {
    pub closed spec fn spec_id(&self) -> u64 {
        self.id
    }

    pub closed spec fn spec_topic(&self) -> String {
        self.topic
    }

    /// The SUBSCRIBE of request `id` to `topic`, with no options.
    pub fn new(id: u64, topic: String) -> (r: Self)
        ensures
            r.spec_id() == id,
            r.spec_topic() == topic,
    {
        EventSubscribe { message_type: MessageType::SUBSCRIBE, id, topic, options: Options::Empty }
    }

    /// The request id.
    pub fn get_id(&self) -> (r: u64)
        ensures
            r == self.spec_id(),
    {
        self.id
    }

    /// The message to send.
    pub fn into_event(self) -> (r: WampEvent)
        ensures
            r matches WampEvent::Subscribe { request_id, options, topic } && request_id
                == self.spec_id() && options is Object && options->Object_0@.len() == 0 && topic
                == self.spec_topic(),
    {
        WampEvent::Subscribe { request_id: self.id, options: self.options.encode(), topic: self.topic }
    }
}

/// A HELLO to send, to join a realm.
#[derive(Debug)]
pub struct EventJoin {
    pub message_type: MessageType,
    pub realm: String,
    pub details: Details,
}

impl EventJoin {
    /// The HELLO that joins `realm`, announcing no advanced feature.
    pub fn new(realm: String) -> (r: Self)
        ensures
            r.message_type == MessageType::HELLO,
            r.realm == realm,
            !r.details.any_feature(),
    {
        EventJoin { message_type: MessageType::HELLO, realm, details: Details::new() }
    }

    /// The message to send.
    pub fn into_event(self) -> (r: WampEvent)
        ensures
            r matches WampEvent::Hello { realm, details } && realm == self.realm
                && self.details.is_encoding(details),
    {
        WampEvent::Hello { realm: self.realm, details: self.details.encode() }
    }
}

} // verus!
