//! The option bags sent with messages, and the features that the client
//! announces when it joins a realm.
use vstd::prelude::*;

use crate::message::WampType;

verus! {

/// The options sent with a request.
#[derive(Debug, Clone, Copy, PartialEq, Eq, Structural)]
pub enum Options {
    /// No options: sent as an empty mapping.
    Empty,
}

impl Options {
    /// The value sent for these options.
    pub fn encode(&self) -> (r: WampType)
        ensures
            r is Object && r->Object_0@.len() == 0,
    {
        match self {
            Options::Empty => WampType::Object(Vec::new()),
        }
    }
}

/// The advanced features that this client implements, announced per role.
#[derive(Debug, Clone, Copy)]
pub struct Details {
    roles: Roles,
}

#[derive(Debug, Clone, Copy)]
struct Caller {
    features: CallerFeatures,
}

#[derive(Debug, Clone, Copy)]
struct CallerFeatures {
    caller_identification: bool,
    progressive_call_results: bool,
}

#[derive(Debug, Clone, Copy)]
struct Callee {
    features: CalleeFeatures,
}

#[derive(Debug, Clone, Copy)]
struct CalleeFeatures {
    caller_identification: bool,
    pattern_based_registration: bool,
    shared_registration: bool,
    progressive_call_results: bool,
    registration_revocation: bool,
}

#[derive(Debug, Clone, Copy)]
struct Publisher {
    features: PublisherFeatures,
}

#[derive(Debug, Clone, Copy)]
struct PublisherFeatures {
    publisher_identification: bool,
    subscriber_blackwhite_listing: bool,
    publisher_exclusion: bool,
}

#[derive(Debug, Clone, Copy)]
struct Subscriber {
    features: SubscriberFeatures,
}

#[derive(Debug, Clone, Copy)]
struct SubscriberFeatures {
    publisher_identification: bool,
    pattern_based_subscription: bool,
    subscription_revocation: bool,
}

#[derive(Debug, Clone, Copy)]
struct Roles {
    caller: Caller,
    callee: Callee,
    publisher: Publisher,
    subscriber: Subscriber,
}

/// `v` is a mapping with the keys `names` in order, each bound to the flag
/// at the same place of `flags`.
pub open spec fn is_flag_map(v: WampType, names: Seq<Seq<char>>, flags: Seq<bool>) -> bool {
    match v {
        WampType::Object(es) => {
            &&& es.len() == names.len()
            &&& flags.len() == names.len()
            &&& forall|i: int|
                0 <= i < es.len() ==> es[i].0@ == names[i] && es[i].1 == WampType::Bool(flags[i])
        },
        _ => false,
    }
}

/// `v` is a mapping with the one key `name`, bound to `inner`.
pub open spec fn is_single(v: WampType, name: Seq<char>, inner: WampType) -> bool {
    match v {
        WampType::Object(es) => es.len() == 1 && es[0].0@ == name && es[0].1 == inner,
        _ => false,
    }
}

/// `v` is a mapping `{name: {"features": f}}` where `f` maps `names` to
/// `flags`.
pub open spec fn is_role(v: WampType, names: Seq<Seq<char>>, flags: Seq<bool>) -> bool {
    match v {
        WampType::Object(es) => es.len() == 1 && es[0].0@ == "features"@ && is_flag_map(
            es[0].1,
            names,
            flags,
        ),
        _ => false,
    }
}

impl Details {
    /// Whether any feature is announced.
    pub closed spec fn any_feature(&self) -> bool {
        let r = self.roles;
        r.caller.features.caller_identification || r.caller.features.progressive_call_results
            || r.callee.features.caller_identification
            || r.callee.features.pattern_based_registration
            || r.callee.features.shared_registration || r.callee.features.progressive_call_results
            || r.callee.features.registration_revocation
            || r.publisher.features.publisher_identification
            || r.publisher.features.subscriber_blackwhite_listing
            || r.publisher.features.publisher_exclusion
            || r.subscriber.features.publisher_identification
            || r.subscriber.features.pattern_based_subscription
            || r.subscriber.features.subscription_revocation
    }

    /// The encoding of these details: `{"roles": {role: {"features":
    /// {feature: flag}}}}` for the caller, callee, publisher and subscriber
    /// roles, with each feature under its own name.
    pub closed spec fn is_encoding(&self, v: WampType) -> bool {
        let r = self.roles;
        match v {
            WampType::Object(top) => {
                &&& top.len() == 1
                &&& top[0].0@ == "roles"@
                &&& match top[0].1 {
                    WampType::Object(es) => {
                        &&& es.len() == 4
                        &&& es[0].0@ == "caller"@
                        &&& is_role(
                            es[0].1,
                            seq!["caller_identification"@, "progressive_call_results"@],
                            seq![
                                r.caller.features.caller_identification,
                                r.caller.features.progressive_call_results,
                            ],
                        )
                        &&& es[1].0@ == "callee"@
                        &&& is_role(
                            es[1].1,
                            seq![
                                "caller_identification"@,
                                "pattern_based_registration"@,
                                "shared_registration"@,
                                "progressive_call_results"@,
                                "registration_revocation"@,
                            ],
                            seq![
                                r.callee.features.caller_identification,
                                r.callee.features.pattern_based_registration,
                                r.callee.features.shared_registration,
                                r.callee.features.progressive_call_results,
                                r.callee.features.registration_revocation,
                            ],
                        )
                        &&& es[2].0@ == "publisher"@
                        &&& is_role(
                            es[2].1,
                            seq![
                                "publisher_identification"@,
                                "subscriber_blackwhite_listing"@,
                                "publisher_exclusion"@,
                            ],
                            seq![
                                r.publisher.features.publisher_identification,
                                r.publisher.features.subscriber_blackwhite_listing,
                                r.publisher.features.publisher_exclusion,
                            ],
                        )
                        &&& es[3].0@ == "subscriber"@
                        &&& is_role(
                            es[3].1,
                            seq![
                                "publisher_identification"@,
                                "pattern_based_subscription"@,
                                "subscription_revocation"@,
                            ],
                            seq![
                                r.subscriber.features.publisher_identification,
                                r.subscriber.features.pattern_based_subscription,
                                r.subscriber.features.subscription_revocation,
                            ],
                        )
                    },
                    _ => false,
                }
            },
            _ => false,
        }
    }

    /// The details of this client: no advanced feature is announced.
    pub fn new() -> (r: Self)
        ensures
            !r.any_feature(),
    {
        Details {
            roles: Roles {
                caller: Caller {
                    features: CallerFeatures {
                        caller_identification: false,
                        progressive_call_results: false,
                    },
                },
                callee: Callee {
                    features: CalleeFeatures {
                        caller_identification: false,
                        pattern_based_registration: false,
                        shared_registration: false,
                        progressive_call_results: false,
                        registration_revocation: false,
                    },
                },
                publisher: Publisher {
                    features: PublisherFeatures {
                        publisher_identification: false,
                        subscriber_blackwhite_listing: false,
                        publisher_exclusion: false,
                    },
                },
                subscriber: Subscriber {
                    features: SubscriberFeatures {
                        publisher_identification: false,
                        pattern_based_subscription: false,
                        subscription_revocation: false,
                    },
                },
            },
        }
    }

    /// The value sent for these details in a HELLO.
    pub fn encode(&self) -> (v: WampType)
        ensures
            self.is_encoding(v),
    {
        let r = self.roles;
        let caller = role(
            flag_map2(
                "caller_identification",
                r.caller.features.caller_identification,
                "progressive_call_results",
                r.caller.features.progressive_call_results,
            ),
        );
        let mut callee_flags: Vec<(String, WampType)> = Vec::new();
        callee_flags.push(flag("caller_identification", r.callee.features.caller_identification));
        callee_flags.push(
            flag("pattern_based_registration", r.callee.features.pattern_based_registration),
        );
        callee_flags.push(flag("shared_registration", r.callee.features.shared_registration));
        callee_flags.push(
            flag("progressive_call_results", r.callee.features.progressive_call_results),
        );
        callee_flags.push(
            flag("registration_revocation", r.callee.features.registration_revocation),
        );
        let callee = role(WampType::Object(callee_flags));
        let publisher = role(
            flag_map3(
                "publisher_identification",
                r.publisher.features.publisher_identification,
                "subscriber_blackwhite_listing",
                r.publisher.features.subscriber_blackwhite_listing,
                "publisher_exclusion",
                r.publisher.features.publisher_exclusion,
            ),
        );
        let subscriber = role(
            flag_map3(
                "publisher_identification",
                r.subscriber.features.publisher_identification,
                "pattern_based_subscription",
                r.subscriber.features.pattern_based_subscription,
                "subscription_revocation",
                r.subscriber.features.subscription_revocation,
            ),
        );
        let mut roles: Vec<(String, WampType)> = Vec::new();
        roles.push((String::from_str("caller"), caller));
        roles.push((String::from_str("callee"), callee));
        roles.push((String::from_str("publisher"), publisher));
        roles.push((String::from_str("subscriber"), subscriber));
        let mut top: Vec<(String, WampType)> = Vec::new();
        top.push((String::from_str("roles"), WampType::Object(roles)));
        let v = WampType::Object(top);
        assert(self.is_encoding(v));
        v
    }
}

/// The mapping entry of one feature flag.
fn flag(name: &str, on: bool) -> (r: (String, WampType))
    ensures
        r.0@ == name@,
        r.1 == WampType::Bool(on),
{
    (String::from_str(name), WampType::Bool(on))
}

/// A role's value: `{"features": features}`.
fn role(features: WampType) -> (r: WampType)
    ensures
        is_single(r, "features"@, features),
{
    let mut es: Vec<(String, WampType)> = Vec::new();
    es.push((String::from_str("features"), features));
    WampType::Object(es)
}

/// The mapping of two feature flags.
fn flag_map2(n0: &str, f0: bool, n1: &str, f1: bool) -> (r: WampType)
    ensures
        is_flag_map(r, seq![n0@, n1@], seq![f0, f1]),
{
    let mut es: Vec<(String, WampType)> = Vec::new();
    es.push(flag(n0, f0));
    es.push(flag(n1, f1));
    WampType::Object(es)
}

/// The mapping of three feature flags.
fn flag_map3(n0: &str, f0: bool, n1: &str, f1: bool, n2: &str, f2: bool) -> (r: WampType)
    ensures
        is_flag_map(r, seq![n0@, n1@, n2@], seq![f0, f1, f2]),
{
    let mut es: Vec<(String, WampType)> = Vec::new();
    es.push(flag(n0, f0));
    es.push(flag(n1, f1));
    es.push(flag(n2, f2));
    WampType::Object(es)
}

} // verus!
