//! The pages of a playlist: what the service sends, how it is read, and the
//! videos it stands for.
//!
//! A page arrives as a JSON object with the members `items` and
//! `nextPageToken`. Each item holds a `snippet` with `title`, `description`,
//! `videoOwnerChannelTitle` and `resourceId`, and the latter holds `videoId`
//! and `kind`. The types here carry the same fields under names with
//! underscores; [`camel_case`] turns such a name into the name on the wire.
//! The `kind` of a resource must be there, but is not kept. Members that
//! are not named here are passed over.

use crate::naming::{camel_case, joined_words, wire_name};
use crate::video::{NormalizedRecord, Video};
use crate::youtube::json::{jsons_of, json_of, member, member_of, parse, parsed, Json};
use vstd::prelude::*;
use vstd::string::*;

verus! {

/// What the address of every video begins with.
pub const YOUTUBE_VIDEO_URL: &'static str = "https://youtube.com/watch?v=";

/// Why a response body was not accepted as a playlist page.
#[derive(Debug, Clone, Copy, PartialEq, Eq, Structural)]
pub enum DecodeError {
    /// The body is not a JSON document.
    NotJson,
    /// The body is a JSON document, but not of the shape of a page: a
    /// member that a page must have is missing, or a member holds a value
    /// of the wrong kind.
    NotAPage,
}

/// A [`YoutubeResourceId`] as a mathematical value.
pub struct ResourceIdentifier {
    pub video_id: Seq<char>,
}

/// A [`YoutubeContentDescription`] as a mathematical value.
pub struct ContentDescription {
    pub title: Seq<char>,
    pub description: Seq<char>,
    pub video_owner_channel_title: Option<Seq<char>>,
    pub resource_id: ResourceIdentifier,
}

/// A [`YoutubePlaylistItem`] as a mathematical value.
pub struct PlaylistEntry {
    pub snippet: ContentDescription,
}

/// A [`YoutubePlaylistPage`] as a mathematical value.
pub struct PlaylistPage {
    /// The entries, in the order of the page.
    pub items: Seq<PlaylistEntry>,
    /// The cursor of the next page; the last page has none.
    pub next_page_token: Option<Seq<char>>,
}

/// The member of `doc` that holds the field called `field`.
pub open spec fn field_of(doc: Json, field: Seq<char>) -> Option<Json> {
    member_of(doc, camel_case(field))
}

/// The text of the field `field`, which `doc` must have: `None` where the
/// member is missing or is anything but a string.
pub open spec fn text_field_of(doc: Json, field: Seq<char>) -> Option<Seq<char>> {
    match field_of(doc, field) {
        Some(Json::Text(text)) => Some(text),
        _ => None,
    }
}

/// The text of the field `field`, which `doc` may lack: `Some(None)` where
/// the member is missing or `null`, `Some(Some(..))` where it is a string,
/// and `None` where it is anything else.
pub open spec fn optional_text_field_of(doc: Json, field: Seq<char>) -> Option<Option<Seq<char>>> {
    match field_of(doc, field) {
        None => Some(None),
        Some(Json::Null) => Some(None),
        Some(Json::Text(text)) => Some(Some(text)),
        Some(_) => None,
    }
}

impl ResourceIdentifier {
    /// The resource identifier that `doc` denotes, if it denotes one. The
    /// document must say of what kind the resource is; what it says is
    /// dropped.
    pub open spec fn from_json(doc: Json) -> Option<ResourceIdentifier> {
        match (text_field_of(doc, "video_id"@), text_field_of(doc, "kind"@)) {
            (Some(video_id), Some(_)) => Some(ResourceIdentifier { video_id }),
            _ => None,
        }
    }
}

impl ContentDescription {
    /// The description that `doc` denotes, if it denotes one.
    pub open spec fn from_json(doc: Json) -> Option<ContentDescription> {
        match (
            text_field_of(doc, "title"@),
            text_field_of(doc, "description"@),
            optional_text_field_of(doc, "video_owner_channel_title"@),
            field_of(doc, "resource_id"@),
        ) {
            (Some(title), Some(description), Some(video_owner_channel_title), Some(inner)) => {
                match ResourceIdentifier::from_json(inner) {
                    Some(resource_id) => Some(
                        ContentDescription {
                            title,
                            description,
                            video_owner_channel_title,
                            resource_id,
                        },
                    ),
                    None => None,
                }
            },
            _ => None,
        }
    }
}

impl PlaylistEntry {
    /// The entry that `doc` denotes, if it denotes one.
    pub open spec fn from_json(doc: Json) -> Option<PlaylistEntry> {
        match field_of(doc, "snippet"@) {
            Some(inner) => match ContentDescription::from_json(inner) {
                Some(snippet) => Some(PlaylistEntry { snippet }),
                None => None,
            },
            None => None,
        }
    }

    /// The entries that `docs` denote, in their order; `None` unless each
    /// of them denotes an entry.
    pub open spec fn all_from_json(docs: Seq<Json>) -> Option<Seq<PlaylistEntry>> {
        if forall|i: int| 0 <= i < docs.len() ==> (#[trigger] PlaylistEntry::from_json(docs[i]))
            is Some {
            Some(Seq::new(docs.len(), |i: int| PlaylistEntry::from_json(docs[i])->0))
        } else {
            None
        }
    }

    /// The record of the entry's video. The address is the fixed beginning
    /// followed by the video's identifier as it stands, with nothing
    /// escaped; title and description are taken over; the author is the
    /// title of the owning channel, where the entry has one.
    pub open spec fn record(self) -> NormalizedRecord {
        NormalizedRecord {
            url: YOUTUBE_VIDEO_URL@ + self.snippet.resource_id.video_id,
            title: Some(self.snippet.title),
            description: Some(self.snippet.description),
            author: self.snippet.video_owner_channel_title,
        }
    }
}

impl PlaylistPage {
    /// The page that `doc` denotes, if it denotes one.
    pub open spec fn from_json(doc: Json) -> Option<PlaylistPage> {
        match (field_of(doc, "items"@), optional_text_field_of(doc, "next_page_token"@)) {
            (Some(Json::List(docs)), Some(next_page_token)) => match PlaylistEntry::all_from_json(
                docs,
            ) {
                Some(items) => Some(PlaylistPage { items, next_page_token }),
                None => None,
            },
            _ => None,
        }
    }

    /// What decoding the response body `body` gives.
    pub open spec fn decode(body: Seq<char>) -> Result<PlaylistPage, DecodeError> {
        match parsed(body) {
            Some(doc) => match PlaylistPage::from_json(doc) {
                Some(page) => Ok(page),
                None => Err(DecodeError::NotAPage),
            },
            None => Err(DecodeError::NotJson),
        }
    }

    /// The records of the page's videos, in the order of the page.
    pub open spec fn records(self) -> Seq<NormalizedRecord> {
        Seq::new(self.items.len(), |i: int| self.items[i].record())
    }
}

/// The identifier of the video that an entry stands for.
#[derive(Debug)]
pub struct YoutubeResourceId {
    pub video_id: String,
}

/// Everything that a page says of a video but the address to watch it at.
#[derive(Debug)]
pub struct YoutubeContentDescription {
    pub title: String,
    pub description: String,
    pub video_owner_channel_title: Option<String>,
    pub resource_id: YoutubeResourceId,
}

/// One entry of a playlist.
#[derive(Debug)]
pub struct YoutubePlaylistItem {
    pub snippet: YoutubeContentDescription,
}

/// One page of a playlist, as the service sends it.
#[derive(Debug)]
pub struct YoutubePlaylistPage {
    pub items: Vec<YoutubePlaylistItem>,
    pub next_page_token: Option<String>,
}

impl View for YoutubeResourceId {
    type V = ResourceIdentifier;

    open spec fn view(&self) -> ResourceIdentifier {
        ResourceIdentifier { video_id: self.video_id@ }
    }
}

impl DeepView for YoutubeResourceId {
    type V = ResourceIdentifier;

    open spec fn deep_view(&self) -> ResourceIdentifier {
        self@
    }
}

impl View for YoutubeContentDescription {
    type V = ContentDescription;

    open spec fn view(&self) -> ContentDescription {
        ContentDescription {
            title: self.title@,
            description: self.description@,
            video_owner_channel_title: self.video_owner_channel_title.deep_view(),
            resource_id: self.resource_id@,
        }
    }
}

impl DeepView for YoutubeContentDescription {
    type V = ContentDescription;

    open spec fn deep_view(&self) -> ContentDescription {
        self@
    }
}

impl View for YoutubePlaylistItem {
    type V = PlaylistEntry;

    open spec fn view(&self) -> PlaylistEntry {
        PlaylistEntry { snippet: self.snippet@ }
    }
}

impl DeepView for YoutubePlaylistItem {
    type V = PlaylistEntry;

    open spec fn deep_view(&self) -> PlaylistEntry {
        self@
    }
}

impl View for YoutubePlaylistPage {
    type V = PlaylistPage;

    open spec fn view(&self) -> PlaylistPage {
        PlaylistPage {
            items: self.items.deep_view(),
            next_page_token: self.next_page_token.deep_view(),
        }
    }
}

impl DeepView for YoutubePlaylistPage {
    type V = PlaylistPage;

    open spec fn deep_view(&self) -> PlaylistPage {
        self@
    }
}

/// The member of `doc` that holds the field called `field`.
fn field<'a>(doc: &'a serde_json::Value, name: &str) -> (found: Option<&'a serde_json::Value>)
    ensures
        match found {
            Some(inner) => field_of(json_of(*doc), name@) == Some(json_of(*inner)),
            None => field_of(json_of(*doc), name@) is None,
        },
{
    let wire = wire_name(name);
    member(doc, wire.as_str())
}

/// The text of a field that `doc` must have.
fn text_field(doc: &serde_json::Value, name: &str) -> (text: Option<String>)
    ensures
        text.deep_view() == text_field_of(json_of(*doc), name@),
{
    match field(doc, name) {
        Some(inner) => match inner.as_str() {
            Some(text) => Some(text.to_owned()),
            None => None,
        },
        None => None,
    }
}

/// The text of a field that `doc` may lack.
fn optional_text_field(doc: &serde_json::Value, name: &str) -> (text: Option<Option<String>>)
    ensures
        text.deep_view() == optional_text_field_of(json_of(*doc), name@),
{
    match field(doc, name) {
        Some(inner) => {
            if inner.is_null() {
                Some(None)
            } else {
                match inner.as_str() {
                    Some(text) => Some(Some(text.to_owned())),
                    None => None,
                }
            }
        },
        None => Some(None),
    }
}

impl YoutubeResourceId {
    /// Reads a resource identifier from a JSON value.
    pub fn from_json(doc: &serde_json::Value) -> (id: Option<YoutubeResourceId>)
        ensures
            id.deep_view() == ResourceIdentifier::from_json(json_of(*doc)),
    {
        let video_id = text_field(doc, "video_id");
        let kind = text_field(doc, "kind");
        match (video_id, kind) {
            (Some(video_id), Some(_)) => Some(YoutubeResourceId { video_id }),
            _ => None,
        }
    }
}

impl YoutubeContentDescription {
    /// Reads a description from a JSON value.
    pub fn from_json(doc: &serde_json::Value) -> (snippet: Option<YoutubeContentDescription>)
        ensures
            snippet.deep_view() == ContentDescription::from_json(json_of(*doc)),
    {
        let title = text_field(doc, "title");
        let description = text_field(doc, "description");
        let video_owner_channel_title = optional_text_field(doc, "video_owner_channel_title");
        let inner = field(doc, "resource_id");
        match (title, description, video_owner_channel_title, inner) {
            (Some(title), Some(description), Some(video_owner_channel_title), Some(inner)) => {
                match YoutubeResourceId::from_json(inner) {
                    Some(resource_id) => Some(
                        YoutubeContentDescription {
                            title,
                            description,
                            video_owner_channel_title,
                            resource_id,
                        },
                    ),
                    None => None,
                }
            },
            _ => None,
        }
    }
}

impl YoutubePlaylistItem {
    /// Reads an entry from a JSON value.
    pub fn from_json(doc: &serde_json::Value) -> (item: Option<YoutubePlaylistItem>)
        ensures
            item.deep_view() == PlaylistEntry::from_json(json_of(*doc)),
    {
        match field(doc, "snippet") {
            Some(inner) => match YoutubeContentDescription::from_json(inner) {
                Some(snippet) => Some(YoutubePlaylistItem { snippet }),
                None => None,
            },
            None => None,
        }
    }

    /// The video that the entry stands for.
    pub fn to_video(&self) -> (video: Video)
        ensures
            video@ == self@.record(),
    {
        let mut url = YOUTUBE_VIDEO_URL.to_owned();
        url.append(self.snippet.resource_id.video_id.as_str());
        proof {
            reveal_strlit("https://youtube.com/watch?v=");
        }
        let mut video = Video::new(url.as_str());
        video.set_description(self.snippet.description.as_str());
        video.set_title(self.snippet.title.as_str());
        if let Some(author) = &self.snippet.video_owner_channel_title {
            video.set_author(author.as_str());
        }
        video
    }
}

/// Reads the entries of a page from the values of its `items`.
fn items_from_json(docs: &Vec<serde_json::Value>) -> (items: Option<Vec<YoutubePlaylistItem>>)
    ensures
        items.deep_view() == PlaylistEntry::all_from_json(jsons_of(docs@)),
{
    let mut items: Vec<YoutubePlaylistItem> = Vec::new();
    let mut i: usize = 0;
    while i < docs.len()
        invariant
            i <= docs.len(),
            items@.len() == i,
            forall|k: int|
                0 <= k < i ==> PlaylistEntry::from_json(#[trigger] jsons_of(docs@)[k]) == Some(
                    items@[k]@,
                ),
        decreases docs.len() - i,
    {
        match YoutubePlaylistItem::from_json(&docs[i]) {
            Some(item) => {
                items.push(item);
            },
            None => {
                assert(PlaylistEntry::from_json(jsons_of(docs@)[i as int]) is None);
                return None;
            },
        }
        i += 1;
    }
    assert(items.deep_view() =~= PlaylistEntry::all_from_json(jsons_of(docs@))->0);
    Some(items)
}

/// Whether `res` is the outcome `expected`, the page taken by its view.
pub open spec fn decoded(
    res: Result<YoutubePlaylistPage, DecodeError>,
    expected: Result<PlaylistPage, DecodeError>,
) -> bool {
    match res {
        Ok(page) => expected == Ok::<PlaylistPage, DecodeError>(page@),
        Err(error) => expected == Err::<PlaylistPage, DecodeError>(error),
    }
}

impl YoutubePlaylistPage {
    /// Reads a page from a JSON value. Fails where the value has not the
    /// shape of a page.
    pub fn from_json(doc: &serde_json::Value) -> (res: Result<YoutubePlaylistPage, DecodeError>)
        ensures
            match res {
                Ok(page) => PlaylistPage::from_json(json_of(*doc)) == Some(page@),
                Err(error) => error == DecodeError::NotAPage && PlaylistPage::from_json(
                    json_of(*doc),
                ) is None,
            },
    {
        let next_page_token = optional_text_field(doc, "next_page_token");
        let docs = match field(doc, "items") {
            Some(inner) => inner.as_array(),
            None => None,
        };
        match (docs, next_page_token) {
            (Some(docs), Some(next_page_token)) => match items_from_json(docs) {
                Some(items) => Ok(YoutubePlaylistPage { items, next_page_token }),
                None => Err(DecodeError::NotAPage),
            },
            _ => Err(DecodeError::NotAPage),
        }
    }

    /// Decodes a response body. Fails where the body is not a JSON document
    /// or the document has not the shape of a page; no part of a page is
    /// handed out then.
    pub fn decode(body: &str) -> (res: Result<YoutubePlaylistPage, DecodeError>)
        ensures
            decoded(res, PlaylistPage::decode(body@)),
    {
        match parse(body) {
            Ok(doc) => YoutubePlaylistPage::from_json(&doc),
            Err(_) => Err(DecodeError::NotJson),
        }
    }

    /// The videos of the page, in its order.
    pub fn to_videos(&self) -> (videos: Vec<Video>)
        ensures
            videos.deep_view() == self@.records(),
    {
        let mut videos: Vec<Video> = Vec::new();
        let mut i: usize = 0;
        while i < self.items.len()
            invariant
                i <= self.items.len(),
                videos@.len() == i,
                forall|k: int| 0 <= k < i ==> (#[trigger] videos@[k])@ == self.items@[k]@.record(),
            decreases self.items.len() - i,
        {
            videos.push(self.items[i].to_video());
            i += 1;
        }
        assert(videos.deep_view() =~= self@.records());
        videos
    }
}

proof fn lemma_wire_name_of_items()
    ensures
        camel_case("items"@) == "items"@,
{
    reveal_with_fuel(joined_words, 7);
    reveal_strlit("items");
    assert(camel_case("items"@) =~= "items"@);
}

proof fn lemma_wire_name_of_next_page_token()
    ensures
        camel_case("next_page_token"@) == "nextPageToken"@,
{
    reveal_with_fuel(joined_words, 17);
    reveal_strlit("next_page_token");
    reveal_strlit("nextPageToken");
    assert(camel_case("next_page_token"@) =~= "nextPageToken"@);
}

proof fn lemma_wire_name_of_snippet()
    ensures
        camel_case("snippet"@) == "snippet"@,
{
    reveal_with_fuel(joined_words, 9);
    reveal_strlit("snippet");
    assert(camel_case("snippet"@) =~= "snippet"@);
}

proof fn lemma_wire_name_of_title()
    ensures
        camel_case("title"@) == "title"@,
{
    reveal_with_fuel(joined_words, 7);
    reveal_strlit("title");
    assert(camel_case("title"@) =~= "title"@);
}

proof fn lemma_wire_name_of_description()
    ensures
        camel_case("description"@) == "description"@,
{
    reveal_with_fuel(joined_words, 13);
    reveal_strlit("description");
    assert(camel_case("description"@) =~= "description"@);
}

proof fn lemma_wire_name_of_video_owner_channel_title()
    ensures
        camel_case("video_owner_channel_title"@) == "videoOwnerChannelTitle"@,
{
    reveal_with_fuel(joined_words, 27);
    reveal_strlit("video_owner_channel_title");
    reveal_strlit("videoOwnerChannelTitle");
    assert(camel_case("video_owner_channel_title"@) =~= "videoOwnerChannelTitle"@);
}

proof fn lemma_wire_name_of_resource_id()
    ensures
        camel_case("resource_id"@) == "resourceId"@,
{
    reveal_with_fuel(joined_words, 13);
    reveal_strlit("resource_id");
    reveal_strlit("resourceId");
    assert(camel_case("resource_id"@) =~= "resourceId"@);
}

proof fn lemma_wire_name_of_video_id()
    ensures
        camel_case("video_id"@) == "videoId"@,
{
    reveal_with_fuel(joined_words, 10);
    reveal_strlit("video_id");
    reveal_strlit("videoId");
    assert(camel_case("video_id"@) =~= "videoId"@);
}

proof fn lemma_wire_name_of_kind()
    ensures
        camel_case("kind"@) == "kind"@,
{
    reveal_with_fuel(joined_words, 6);
    reveal_strlit("kind");
    assert(camel_case("kind"@) =~= "kind"@);
}

/// The names on the wire of the fields of a page.
pub proof fn lemma_wire_names()
    ensures
        camel_case("items"@) == "items"@,
        camel_case("next_page_token"@) == "nextPageToken"@,
        camel_case("snippet"@) == "snippet"@,
        camel_case("title"@) == "title"@,
        camel_case("description"@) == "description"@,
        camel_case("video_owner_channel_title"@) == "videoOwnerChannelTitle"@,
        camel_case("resource_id"@) == "resourceId"@,
        camel_case("video_id"@) == "videoId"@,
        camel_case("kind"@) == "kind"@,
{
    lemma_wire_name_of_items();
    lemma_wire_name_of_next_page_token();
    lemma_wire_name_of_snippet();
    lemma_wire_name_of_title();
    lemma_wire_name_of_description();
    lemma_wire_name_of_video_owner_channel_title();
    lemma_wire_name_of_resource_id();
    lemma_wire_name_of_video_id();
    lemma_wire_name_of_kind();
}

/// Decoding is a function of the body: whatever two decodings of one body
/// give, both fail with the same error, or both give the same page and so
/// the same records in the same order.
pub proof fn law_decode_repeatable(
    body: Seq<char>,
    first: Result<YoutubePlaylistPage, DecodeError>,
    second: Result<YoutubePlaylistPage, DecodeError>,
)
    requires
        decoded(first, PlaylistPage::decode(body)),
        decoded(second, PlaylistPage::decode(body)),
    ensures
        match (first, second) {
            (Ok(one), Ok(other)) => one@ == other@ && one@.records() == other@.records(),
            (Err(one), Err(other)) => one == other,
            _ => false,
        },
{
}

/// An entry must name its video. A document whose `items` hold an entry
/// with a snippet that has no member `resourceId` denotes no page, and a
/// body that denotes such a document is refused as a whole: no entry of it
/// is handed out.
pub proof fn law_resource_id_required(doc: Json, items: Seq<Json>, i: int, snippet: Json)
    requires
        member_of(doc, "items"@) == Some(Json::List(items)),
        0 <= i < items.len(),
        member_of(items[i], "snippet"@) == Some(snippet),
        member_of(snippet, "resourceId"@) is None,
    ensures
        PlaylistPage::from_json(doc) is None,
        forall|body: Seq<char>|
            parsed(body) == Some(doc) ==> #[trigger] PlaylistPage::decode(body) == Err::<
                PlaylistPage,
                DecodeError,
            >(DecodeError::NotAPage),
{
    lemma_wire_names();
    assert(ContentDescription::from_json(snippet) is None);
    assert(PlaylistEntry::from_json(items[i]) is None);
    assert(PlaylistEntry::all_from_json(items) is None);
}

/// Every record of a page has an address, which begins as every address
/// does.
pub proof fn law_records_have_addresses(page: PlaylistPage, i: int)
    requires
        0 <= i < page.items.len(),
    ensures
        page.records().len() == page.items.len(),
        page.records()[i].url.len() > 0,
        page.records()[i].url.subrange(0, YOUTUBE_VIDEO_URL@.len() as int) == YOUTUBE_VIDEO_URL@,
{
    reveal_strlit("https://youtube.com/watch?v=");
    assert(page.records()[i].url.subrange(0, YOUTUBE_VIDEO_URL@.len() as int)
        =~= YOUTUBE_VIDEO_URL@);
}

} // verus!
