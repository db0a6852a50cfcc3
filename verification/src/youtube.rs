//! The client of the YouTube data service.
//!
//! A [`Youtube`] client starts without a credential. Accepting one turns it
//! into a client of another type, and only such a client hands out request
//! builders.

pub mod auth;
pub mod fetch;
pub mod json;
pub mod page;
pub mod param;
pub mod playlist;

use crate::youtube::auth::{ApiAuth, AuthorizationState, Authorized, Credential, NoAuth, OAuth};
use crate::youtube::page::DecodeError;
use crate::youtube::playlist::{RequestSpec, YoutubePlaylistItemRequest};
use vstd::prelude::*;

verus! {

/// The root of every request target.
pub const YT_API_URL: &'static str = "https://youtube.googleapis.com/youtube/v3";

/// Why an operation of the client failed.
///
/// The first two variants are for callers that keep a client whose state
/// they learn only at run time, or that read the service's answers
/// themselves. Nothing in this crate gives them: a client without a
/// credential has no operation that asks for a request, and an answer that
/// is not a page is a [`ClientError::Decode`].
#[derive(Debug)]
pub enum ClientError {
    /// A request was asked for without a credential.
    NotAuthenticated,
    /// The service refused the request for want of quota.
    QuotaExceeded,
    /// The credential offered to the client was empty.
    InvalidCredential,
    /// A request target was asked for before a playlist was named.
    MissingPlaylistId,
    /// The transport reported a failure; the text is the transport's own.
    Transport(String),
    /// A response body was not a playlist page.
    Decode(DecodeError),
}

/// A [`ClientError`] as a mathematical value.
pub enum Failure {
    NotAuthenticated,
    QuotaExceeded,
    InvalidCredential,
    MissingPlaylistId,
    Transport(Seq<char>),
    Decode(DecodeError),
}

impl View for ClientError {
    type V = Failure;

    open spec fn view(&self) -> Failure {
        match self {
            ClientError::NotAuthenticated => Failure::NotAuthenticated,
            ClientError::QuotaExceeded => Failure::QuotaExceeded,
            ClientError::InvalidCredential => Failure::InvalidCredential,
            ClientError::MissingPlaylistId => Failure::MissingPlaylistId,
            ClientError::Transport(text) => Failure::Transport(text@),
            ClientError::Decode(error) => Failure::Decode(*error),
        }
    }
}

/// The client. `T` is its authorization state.
pub struct Youtube<T> {
    token: T,
}

impl Youtube<NoAuth> {
    /// The state of a client that has accepted no credential.
    pub open spec fn state(&self) -> AuthorizationState {
        AuthorizationState::Unauthenticated
    }

    /// A fresh client. It starts without a credential.
    pub fn new() -> (client: Youtube<NoAuth>)
        ensures
            client.state() == AuthorizationState::Unauthenticated,
    {
        Youtube { token: NoAuth }
    }

    /// Accepts an API key. The unauthorized client is used up, and a client
    /// that sends `token` as its key takes its place. An empty key is refused.
    pub fn with_api(self, token: &str) -> (res: Result<Youtube<ApiAuth>, ClientError>)
        ensures
            match res {
                Ok(client) => token@.len() > 0 && client.credential() == Credential::ApiKey(
                    token@,
                ),
                Err(error) => token@.len() == 0 && error@ == Failure::InvalidCredential,
            },
    {
        if token.is_empty() {
            Err(ClientError::InvalidCredential)
        } else {
            Ok(Youtube { token: ApiAuth(token.to_owned()) })
        }
    }

    /// Accepts a delegated access token. The unauthorized client is used up,
    /// and a client that sends `token` as its access token takes its place.
    /// An empty token is refused.
    pub fn with_oauth(self, token: &str) -> (res: Result<Youtube<OAuth>, ClientError>)
        ensures
            match res {
                Ok(client) => token@.len() > 0 && client.credential() == Credential::AccessToken(
                    token@,
                ),
                Err(error) => token@.len() == 0 && error@ == Failure::InvalidCredential,
            },
    {
        if token.is_empty() {
            Err(ClientError::InvalidCredential)
        } else {
            Ok(Youtube { token: OAuth(token.to_owned()) })
        }
    }
}

impl Default for Youtube<NoAuth> {
    fn default() -> (client: Youtube<NoAuth>)
        ensures
            client.state() == AuthorizationState::Unauthenticated,
    {
        Youtube::new()
    }
}

impl<T: Authorized> Youtube<T> {
    /// The credential that the client attaches to its requests.
    pub closed spec fn credential(&self) -> Credential {
        self.token.credential()
    }

    /// The state of a client that has accepted a credential.
    pub open spec fn state(&self) -> AuthorizationState {
        self.credential().state()
    }

    /// A fresh request for the items of a playlist, bound to this client's
    /// credential. Nothing but the credential is set in it.
    pub fn playlist_items<'a>(&'a self) -> (request: YoutubePlaylistItemRequest<'a, T>)
        ensures
            request@ == RequestSpec::new(self.credential()),
    {
        YoutubePlaylistItemRequest::new(&self.token)
    }
}

} // verus!
