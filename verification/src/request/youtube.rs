//! Requests to the YouTube data service that are made from an API key
//! alone, without a client.

use crate::youtube::auth::{ApiAuth, Authorized, Credential};
use crate::youtube::playlist::{built, RequestSpec};
use crate::youtube::ClientError;
use vstd::prelude::*;

verus! {

/// Where requests from an API key begin.
pub struct RequestBuilder;

impl RequestBuilder {
    /// A fresh request for the items of a playlist that sends `key` as its
    /// API key. Nothing but the key is set in it.
    pub fn playlist_items(key: &str) -> (request: YoutubePlaylistItemRequest)
        ensures
            request@ == RequestSpec::new(Credential::ApiKey(key@)),
    {
        YoutubePlaylistItemRequest::new(key)
    }
}

/// A request for the items of a playlist, under construction, that owns its
/// API key.
pub struct YoutubePlaylistItemRequest {
    key: ApiAuth,
    playlist_id: Option<String>,
    max_items: Option<u32>,
    page_id: Option<String>,
}

impl View for YoutubePlaylistItemRequest {
    type V = RequestSpec;

    closed spec fn view(&self) -> RequestSpec {
        RequestSpec {
            playlist_id: self.playlist_id.deep_view(),
            max_items: self.max_items,
            page_id: self.page_id.deep_view(),
            credential: self.key.credential(),
        }
    }
}

impl YoutubePlaylistItemRequest {
    /// A request that holds nothing but the API key `key`.
    pub fn new(key: &str) -> (request: YoutubePlaylistItemRequest)
        ensures
            request@ == RequestSpec::new(Credential::ApiKey(key@)),
    {
        YoutubePlaylistItemRequest {
            key: ApiAuth(key.to_owned()),
            playlist_id: None,
            max_items: None,
            page_id: None,
        }
    }

    /// Sets the most items that the service may put on one page.
    pub fn max_items(self, max_items: u32) -> (request: YoutubePlaylistItemRequest)
        ensures
            request@ == self@.max_items(max_items),
    {
        YoutubePlaylistItemRequest {
            key: self.key,
            playlist_id: self.playlist_id,
            max_items: Some(max_items),
            page_id: self.page_id,
        }
    }

    /// Names the playlist whose items are asked for.
    pub fn playlist_id(self, playlist_id: &str) -> (request: YoutubePlaylistItemRequest)
        ensures
            request@ == self@.playlist_id(playlist_id@),
    {
        YoutubePlaylistItemRequest {
            key: self.key,
            playlist_id: Some(playlist_id.to_owned()),
            max_items: self.max_items,
            page_id: self.page_id,
        }
    }

    /// Sets the cursor of the page asked for.
    pub fn page_id(self, page_id: &str) -> (request: YoutubePlaylistItemRequest)
        ensures
            request@ == self@.page_id(page_id@),
    {
        YoutubePlaylistItemRequest {
            key: self.key,
            playlist_id: self.playlist_id,
            max_items: self.max_items,
            page_id: Some(page_id.to_owned()),
        }
    }

    /// Uses the request up and gives its target. Fails where no playlist
    /// was named, or the empty text was given for it.
    pub fn build(self) -> (res: Result<String, ClientError>)
        ensures
            built(res, self@.build()),
    {
        let mut request = crate::youtube::playlist::YoutubePlaylistItemRequest::new(&self.key);
        if let Some(id) = &self.playlist_id {
            request = request.playlist_id(id.as_str());
        }
        if let Some(max_items) = self.max_items {
            request = request.max_items(max_items);
        }
        if let Some(page) = &self.page_id {
            request = request.page_id(page.as_str());
        }
        request.build()
    }
}

} // verus!
