//! The client: where a session connects, and to which realm.
use vstd::prelude::*;

verus! {

/// Holds the router's address and the realm that a session joins there.
#[derive(Debug)]
pub struct Client {
    url: String,
    realm: String,
}

impl Client {
    pub closed spec fn spec_url(&self) -> Seq<char> {
        self.url@
    }

    pub closed spec fn spec_realm(&self) -> Seq<char> {
        self.realm@
    }

    /// A client for the router at `url` and the realm `realm`.
    pub fn new(url: &str, realm: &str) -> (r: Self)
        ensures
            r.spec_url() == url@,
            r.spec_realm() == realm@,
    {
        Client { url: String::from_str(url), realm: String::from_str(realm) }
    }

    /// The router's address.
    pub fn url(&self) -> (r: &str)
        ensures
            r@ == self.spec_url(),
    {
        self.url.as_str()
    }

    /// The realm to join.
    pub fn realm(&self) -> (r: &str)
        ensures
            r@ == self.spec_realm(),
    {
        self.realm.as_str()
    }
}

} // verus!
