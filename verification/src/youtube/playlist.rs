//! Requests for the items of a playlist. The pages that answer them are
//! found in [`crate::youtube::page`], and under their names here.

pub use crate::youtube::page::{
    YoutubeContentDescription, YoutubePlaylistItem, YoutubePlaylistPage, YoutubeResourceId,
};

use crate::text::{
    contains, decimal, decimal_string, ends_with, has_parameter, lemma_contains_extended,
    lemma_decimal_separator_free, lemma_parameter_appended, lemma_separator_free_text,
    occurs_at, parameter_start, starts_parameter,
};
use crate::youtube::auth::{Authorized, Credential};
use crate::youtube::param::ApiParameter;
use crate::youtube::{ClientError, Failure, YT_API_URL};
use vstd::prelude::*;
use vstd::string::*;

verus! {

/// What a request builder has been told so far.
pub struct RequestSpec {
    /// The playlist whose items are asked for.
    pub playlist_id: Option<Seq<char>>,
    /// The most items the service may put on one page.
    pub max_items: Option<u32>,
    /// The cursor of the page asked for; the first page has none.
    pub page_id: Option<Seq<char>>,
    /// The credential of the client that the builder came from.
    pub credential: Credential,
}

/// `target`, followed by the parameter `name` with the value `value` where
/// there is one. `name` holds its separator and its equals sign.
pub open spec fn with_parameter(target: Seq<char>, name: Seq<char>, value: Option<Seq<char>>) -> Seq<
    char,
> {
    match value {
        Some(text) => target + name + text,
        None => target,
    }
}

/// What every target begins with: the address of the playlist items and
/// the `part` parameter, which always asks for the snippet of each item.
pub open spec fn endpoint() -> Seq<char> {
    with_parameter(YT_API_URL@ + "/playlistItems"@, "?part="@, Some("snippet"@))
}

impl RequestSpec {
    /// A request that holds nothing but a credential.
    pub open spec fn new(credential: Credential) -> RequestSpec {
        RequestSpec { playlist_id: None, max_items: None, page_id: None, credential }
    }

    /// The request with its playlist set to `id`.
    pub open spec fn playlist_id(self, id: Seq<char>) -> RequestSpec {
        RequestSpec { playlist_id: Some(id), ..self }
    }

    /// The request with its page size set to `max_items`.
    pub open spec fn max_items(self, max_items: u32) -> RequestSpec {
        RequestSpec { max_items: Some(max_items), ..self }
    }

    /// The request with its cursor set to `page`.
    pub open spec fn page_id(self, page: Seq<char>) -> RequestSpec {
        RequestSpec { page_id: Some(page), ..self }
    }

    /// Whether a target can be built: a playlist is named, and not by the
    /// empty text.
    pub open spec fn complete(self) -> bool {
        self.playlist_id matches Some(id) && id.len() > 0
    }

    /// The page size in decimal notation, where one is set.
    pub open spec fn max_items_text(self) -> Option<Seq<char>> {
        match self.max_items {
            Some(max_items) => Some(decimal(max_items as nat)),
            None => None,
        }
    }

    /// The request target: the endpoint with the fixed `part` parameter,
    /// then playlist, page size and cursor, each only if set and in this
    /// order, then the credential, which is always last. Playlist, cursor
    /// and credential are written as they stand: nothing is escaped, so it
    /// is for the caller to hand in values that are safe in a query.
    pub open spec fn target(self) -> Seq<char> {
        with_parameter(
            with_parameter(
                with_parameter(
                    with_parameter(endpoint(), "&playlistId="@, self.playlist_id),
                    "&maxResults="@,
                    self.max_items_text(),
                ),
                "&pageToken="@,
                self.page_id,
            ),
            self.credential.parameter(),
            Some(self.credential.secret()),
        )
    }

    /// What building the request gives: its target where it is complete,
    /// and the failure for a missing playlist otherwise.
    pub open spec fn build(self) -> Result<Seq<char>, Failure> {
        if self.complete() {
            Ok(self.target())
        } else {
            Err(Failure::MissingPlaylistId)
        }
    }
}

/// Whether `res` is the outcome `expected`, the target taken by its text and
/// the error by its view.
pub open spec fn built(res: Result<String, ClientError>, expected: Result<Seq<char>, Failure>) -> bool {
    match res {
        Ok(target) => expected == Ok::<Seq<char>, Failure>(target@),
        Err(error) => expected == Err::<Seq<char>, Failure>(error@),
    }
}

/// Appends the parameter `name` with the value `value` to `target`.
fn push_parameter(target: &mut String, name: &str, value: &str)
    ensures
        final(target)@ == with_parameter(old(target)@, name@, Some(value@)),
{
    target.append(name);
    target.append(value);
}

/// A request for the items of a playlist, under construction. It borrows the
/// authorization state of the client that made it.
pub struct YoutubePlaylistItemRequest<'a, T> {
    playlist_id: Option<String>,
    max_items: Option<u32>,
    page_id: Option<String>,
    auth: &'a T,
}

impl<'a, T: Authorized> View for YoutubePlaylistItemRequest<'a, T> {
    type V = RequestSpec;

    closed spec fn view(&self) -> RequestSpec {
        RequestSpec {
            playlist_id: self.playlist_id.deep_view(),
            max_items: self.max_items,
            page_id: self.page_id.deep_view(),
            credential: self.auth.credential(),
        }
    }
}

impl<'a, T: Authorized> YoutubePlaylistItemRequest<'a, T> {
    /// A request that holds nothing but the credential of `auth`.
    pub fn new(auth: &'a T) -> (request: YoutubePlaylistItemRequest<'a, T>)
        ensures
            request@ == RequestSpec::new(auth.credential()),
    {
        YoutubePlaylistItemRequest { playlist_id: None, max_items: None, page_id: None, auth }
    }

    /// Sets the most items that the service may put on one page.
    pub fn max_items(self, max_items: u32) -> (request: YoutubePlaylistItemRequest<'a, T>)
        ensures
            request@ == self@.max_items(max_items),
    {
        YoutubePlaylistItemRequest {
            playlist_id: self.playlist_id,
            max_items: Some(max_items),
            page_id: self.page_id,
            auth: self.auth,
        }
    }

    /// Names the playlist whose items are asked for.
    pub fn playlist_id(self, playlist_id: &str) -> (request: YoutubePlaylistItemRequest<'a, T>)
        ensures
            request@ == self@.playlist_id(playlist_id@),
    {
        YoutubePlaylistItemRequest {
            playlist_id: Some(playlist_id.to_owned()),
            max_items: self.max_items,
            page_id: self.page_id,
            auth: self.auth,
        }
    }

    /// Sets the cursor of the page asked for.
    pub fn page_id(self, page_id: &str) -> (request: YoutubePlaylistItemRequest<'a, T>)
        ensures
            request@ == self@.page_id(page_id@),
    {
        YoutubePlaylistItemRequest {
            playlist_id: self.playlist_id,
            max_items: self.max_items,
            page_id: Some(page_id.to_owned()),
            auth: self.auth,
        }
    }

    /// Uses the request up and gives its target. Fails where no playlist
    /// was named, or the empty text was given for it.
    pub fn build(self) -> (res: Result<String, ClientError>)
        ensures
            built(res, self@.build()),
    {
        let named = match &self.playlist_id {
            Some(id) => !id.as_str().is_empty(),
            None => false,
        };
        if !named {
            return Err(ClientError::MissingPlaylistId);
        }
        let mut request = YT_API_URL.to_owned();
        request.append("/playlistItems");
        push_parameter(&mut request, ApiParameter::key(ApiParameter::Part), "snippet");
        if let Some(id) = &self.playlist_id {
            push_parameter(&mut request, ApiParameter::key(ApiParameter::PlaylistId), id.as_str());
        }
        if let Some(max_items) = self.max_items {
            let digits = decimal_string(max_items);
            push_parameter(
                &mut request,
                ApiParameter::key(ApiParameter::MaxResults),
                digits.as_str(),
            );
        }
        if let Some(page) = &self.page_id {
            push_parameter(&mut request, ApiParameter::key(ApiParameter::PageToken), page.as_str());
        }
        push_parameter(&mut request, self.auth.param_key(), self.auth.token());
        Ok(request)
    }
}

/// The endpoint holds the beginning of no parameter but `part`.
proof fn lemma_endpoint_parameters(pattern: Seq<char>)
    requires
        starts_parameter(pattern),
        pattern[1] != 'p',
    ensures
        !contains(endpoint(), pattern),
{
    reveal_strlit("https://youtube.googleapis.com/youtube/v3");
    reveal_strlit("/playlistItems");
    reveal_strlit("?part=");
    reveal_strlit("snippet");
    lemma_separator_free_text(YT_API_URL@ + "/playlistItems"@, pattern);
    lemma_separator_free_text("snippet"@, pattern);
    lemma_parameter_appended(YT_API_URL@ + "/playlistItems"@, "?part="@, "snippet"@, pattern);
}

/// A target holds the beginning of a parameter only where the request was
/// given it: `pattern`, which begins none of the parameters that a target is
/// made of, stands in the target only if it stands in the playlist, the
/// cursor or the credential.
proof fn lemma_target_parameters(request: RequestSpec, pattern: Seq<char>)
    requires
        starts_parameter(pattern),
        pattern[1] != 'p',
        pattern[1] != 'm',
        pattern[1] != request.credential.parameter()[1],
        request.playlist_id matches Some(id) ==> !contains(id, pattern),
        request.page_id matches Some(page) ==> !contains(page, pattern),
        !contains(request.credential.secret(), pattern),
    ensures
        !contains(request.target(), pattern),
{
    reveal_strlit("&playlistId=");
    reveal_strlit("&maxResults=");
    reveal_strlit("&pageToken=");
    reveal_strlit("&key=");
    reveal_strlit("&access_token=");
    lemma_endpoint_parameters(pattern);
    let named = with_parameter(endpoint(), "&playlistId="@, request.playlist_id);
    if let Some(id) = request.playlist_id {
        lemma_parameter_appended(endpoint(), "&playlistId="@, id, pattern);
    }
    let sized = with_parameter(named, "&maxResults="@, request.max_items_text());
    if let Some(max_items) = request.max_items {
        lemma_decimal_separator_free(max_items as nat);
        lemma_separator_free_text(decimal(max_items as nat), pattern);
        lemma_parameter_appended(named, "&maxResults="@, decimal(max_items as nat), pattern);
    }
    let paged = with_parameter(sized, "&pageToken="@, request.page_id);
    if let Some(page) = request.page_id {
        lemma_parameter_appended(sized, "&pageToken="@, page, pattern);
    }
    lemma_parameter_appended(
        paged,
        request.credential.parameter(),
        request.credential.secret(),
        pattern,
    );
}

/// A target names its playlist and ends with its credential.
proof fn lemma_target_shape(request: RequestSpec)
    requires
        request.playlist_id is Some,
    ensures
        contains(request.target(), "playlistId="@ + request.playlist_id->0),
        ends_with(request.target(), request.credential.parameter() + request.credential.secret()),
{
    reveal_strlit("&playlistId=");
    reveal_strlit("playlistId=");
    let id = request.playlist_id->0;
    let named = with_parameter(endpoint(), "&playlistId="@, request.playlist_id);
    let sized = with_parameter(named, "&maxResults="@, request.max_items_text());
    let paged = with_parameter(sized, "&pageToken="@, request.page_id);
    let pattern = "playlistId="@ + id;
    let at = endpoint().len() as int + 1;
    assert(named.subrange(at, at + pattern.len()) =~= pattern);
    assert(occurs_at(named, pattern, at));
    if let Some(max_items) = request.max_items {
        lemma_contains_extended(named, "&maxResults="@ + decimal(max_items as nat), pattern);
        assert(sized =~= named + ("&maxResults="@ + decimal(max_items as nat)));
    }
    if let Some(page) = request.page_id {
        lemma_contains_extended(sized, "&pageToken="@ + page, pattern);
        assert(paged =~= sized + ("&pageToken="@ + page));
    }
    let last = request.credential.parameter() + request.credential.secret();
    lemma_contains_extended(paged, last, pattern);
    assert(request.target() =~= paged + last);
    assert(request.target().subrange(request.target().len() - last.len(), request.target().len() as int)
        =~= last);
}

/// Requests of a client with an API key. Where a playlist is named, the
/// target is built, ends with `&key=` and the key, and names the playlist
/// after `playlistId=`. It has no parameter `access_token`, unless the
/// playlist, the cursor or the key itself holds the beginning of one.
pub proof fn law_api_key_target(request: RequestSpec, key: Seq<char>)
    requires
        key.len() > 0,
        request.credential == Credential::ApiKey(key),
        request.complete(),
        !has_parameter(key, "access_token"@),
        !has_parameter(request.playlist_id->0, "access_token"@),
        request.page_id matches Some(page) ==> !has_parameter(page, "access_token"@),
    ensures
        request.build() == Ok::<Seq<char>, Failure>(request.target()),
        ends_with(request.target(), "&key="@ + key),
        contains(request.target(), "playlistId="@ + request.playlist_id->0),
        !has_parameter(request.target(), "access_token"@),
{
    reveal_strlit("access_token");
    reveal_strlit("&key=");
    lemma_target_shape(request);
    lemma_target_parameters(request, parameter_start('?', "access_token"@));
    lemma_target_parameters(request, parameter_start('&', "access_token"@));
}

/// Requests of a client with a delegated access token. Where a playlist is
/// named, the target is built, ends with `&access_token=` and the token, and
/// names the playlist after `playlistId=`. It has no parameter `key`, unless
/// the playlist, the cursor or the token itself holds the beginning of one.
pub proof fn law_access_token_target(request: RequestSpec, token: Seq<char>)
    requires
        token.len() > 0,
        request.credential == Credential::AccessToken(token),
        request.complete(),
        !has_parameter(token, "key"@),
        !has_parameter(request.playlist_id->0, "key"@),
        request.page_id matches Some(page) ==> !has_parameter(page, "key"@),
    ensures
        request.build() == Ok::<Seq<char>, Failure>(request.target()),
        ends_with(request.target(), "&access_token="@ + token),
        contains(request.target(), "playlistId="@ + request.playlist_id->0),
        !has_parameter(request.target(), "key"@),
{
    reveal_strlit("key");
    reveal_strlit("&access_token=");
    lemma_target_shape(request);
    lemma_target_parameters(request, parameter_start('?', "key"@));
    lemma_target_parameters(request, parameter_start('&', "key"@));
}

/// A request that was never given a playlist cannot be built.
pub proof fn law_playlist_required(credential: Credential)
    ensures
        RequestSpec::new(credential).build() == Err::<Seq<char>, Failure>(
            Failure::MissingPlaylistId,
        ),
{
}

} // verus!
