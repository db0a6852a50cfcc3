//! Authorization states of a client.
//!
//! A client is in exactly one state, fixed by its type: [`NoAuth`] before a
//! credential was accepted, [`ApiAuth`] with an API key, [`OAuth`] with a
//! delegated access token. Only the last two are [`Authorized`], so a request
//! cannot be built without a credential. [`AuthorizationState`] is the state
//! as a value that contracts can speak of.

use vstd::prelude::*;

verus! {

/// The authorization state of a client, of which it has exactly one.
pub enum AuthorizationState {
    /// No credential is attached, and no request can be asked for.
    Unauthenticated,
    /// Every request carries this API key.
    KeyAuth(Seq<char>),
    /// Every request carries this delegated access token.
    DelegatedAuth(Seq<char>),
}

/// The credential that an authorized state attaches to every request.
pub enum Credential {
    /// A static API key, sent as the query parameter `key`.
    ApiKey(Seq<char>),
    /// A delegated access token, sent as the query parameter `access_token`.
    AccessToken(Seq<char>),
}

impl Credential {
    /// The text that introduces the credential in a request target.
    pub open spec fn parameter(self) -> Seq<char> {
        match self {
            Credential::ApiKey(_) => "&key="@,
            Credential::AccessToken(_) => "&access_token="@,
        }
    }

    /// The credential's value, as it was supplied.
    pub open spec fn secret(self) -> Seq<char> {
        match self {
            Credential::ApiKey(key) => key,
            Credential::AccessToken(token) => token,
        }
    }

    /// The state of a client that holds the credential.
    pub open spec fn state(self) -> AuthorizationState {
        match self {
            Credential::ApiKey(key) => AuthorizationState::KeyAuth(key),
            Credential::AccessToken(token) => AuthorizationState::DelegatedAuth(token),
        }
    }
}

/// The state of a client that has no credential.
pub struct NoAuth;

/// The state of a client that holds an API key.
pub struct ApiAuth(pub String);

/// The state of a client that holds a delegated access token.
pub struct OAuth(pub String);

/// An authorization state that carries a credential.
pub trait Authorized {
    /// The credential that this state stands for.
    spec fn credential(&self) -> Credential;

    /// The credential's value.
    fn token(&self) -> (token: &str)
        ensures
            token@ == self.credential().secret(),
    ;

    /// The text put before the credential's value in a request target.
    fn param_key(&self) -> (key: &str)
        ensures
            key@ == self.credential().parameter(),
    ;
}

impl Authorized for ApiAuth {
    open spec fn credential(&self) -> Credential {
        Credential::ApiKey(self.0@)
    }

    fn token(&self) -> (token: &str) {
        self.0.as_str()
    }

    fn param_key(&self) -> (key: &str) {
        "&key="
    }
}

impl Authorized for OAuth {
    open spec fn credential(&self) -> Credential {
        Credential::AccessToken(self.0@)
    }

    fn token(&self) -> (token: &str) {
        self.0.as_str()
    }

    fn param_key(&self) -> (key: &str) {
        "&access_token="
    }
}

} // verus!
