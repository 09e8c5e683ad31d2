//! The serializer that a session negotiates with the router.
use vstd::prelude::*;

verus! {

/// The kinds of socket that can carry a session.
#[derive(Debug, Clone, Copy, PartialEq, Eq, Structural)]
pub enum SocketType {
    WEBSOCKET,
}

/// The serialization formats that a session can use.
#[derive(Debug, Clone, Copy, PartialEq, Eq, Structural)]
pub enum SerializerType {
    /// JSON, for human-readable structured data.
    JSON,
}

/// Describes the serialization that a session uses.
#[derive(Debug, Clone)]
pub struct Serializer {
    id: String,
    /// Whether the serialized data is binary.
    binary: bool,
    mode: SerializerType,
}

impl Serializer {
    /// The serializer's name in the sub-protocol string.
    pub closed spec fn spec_id(&self) -> Seq<char> {
        self.id@
    }

    pub closed spec fn spec_binary(&self) -> bool {
        self.binary
    }

    pub closed spec fn spec_mode(&self) -> SerializerType {
        self.mode
    }

    /// The JSON serializer.
    pub fn json() -> (r: Self)
        ensures
            r.spec_mode() == SerializerType::JSON,
            r.spec_id() == "json"@,
            !r.spec_binary(),
    {
        Self::new(SerializerType::JSON)
    }

    /// The serializer of a format.
    pub fn new(mode: SerializerType) -> (r: Self)
        ensures
            r.spec_mode() == mode,
            mode == SerializerType::JSON ==> r.spec_id() == "json"@ && !r.spec_binary(),
    {
        match mode {
            SerializerType::JSON => Serializer { id: String::from_str("json"), binary: false, mode },
        }
    }

    /// The format.
    pub fn mode(&self) -> (r: SerializerType)
        ensures
            r == self.spec_mode(),
    {
        self.mode
    }

    /// Whether the serialized data is binary.
    pub fn is_binary(&self) -> (r: bool)
        ensures
            r == self.spec_binary(),
    {
        self.binary
    }

    /// The sub-protocol to negotiate at connect time: `wamp.2.` followed by
    /// the serializer's name.
    pub fn protocol(&self) -> (r: String)
        ensures
            r@ == "wamp.2."@ + self.spec_id(),
    {
        String::from_str("wamp.2.").concat(self.id.as_str())
    }
}

} // verus!
