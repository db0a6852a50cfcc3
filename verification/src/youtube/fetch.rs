//! Collecting the videos of a whole playlist.
//!
//! A playlist comes in pages, and each page names the next by a cursor that
//! cannot be known before the page has arrived. The traversal is therefore
//! written as a function from the state and the latest event to the next
//! step. The caller owns the transport: it fetches the target that a step
//! names and hands the outcome back, until a step ends the traversal.
//!
//! The traversal goes on for as long as pages carry a cursor, and sets no
//! bound of its own on their number: where the service names a cursor a
//! second time, the same pages are asked for again and again, and it is for
//! the caller to stop.

use crate::video::{NormalizedRecord, Video};
use crate::youtube::auth::{Authorized, Credential};
use crate::youtube::page::{DecodeError, PlaylistPage, YoutubePlaylistPage};
use crate::youtube::playlist::RequestSpec;
use crate::youtube::{ClientError, Failure, Youtube};
use vstd::prelude::*;

verus! {

/// The name of the header that every request carries.
pub const ACCEPT_HEADER: &'static str = "accept";

/// The value of that header: the service is to answer in JSON.
pub const ACCEPT_JSON: &'static str = "application/json";

/// A [`PlaylistFetch`] as a mathematical value: a traversal that waits for
/// a page.
pub struct Traversal {
    /// The credential of the client that fetches.
    pub credential: Credential,
    /// The playlist that is walked.
    pub playlist_id: Seq<char>,
    /// The page size asked for in every request.
    pub page_size: u32,
    /// The records of all pages that have arrived, in their order.
    pub records: Seq<NormalizedRecord>,
}

/// A [`FetchEvent`] as a mathematical value.
pub enum Event {
    /// The transport delivered a response with this body.
    Body(Seq<char>),
    /// The transport failed, and said this of it.
    Failure(Seq<char>),
}

/// A [`FetchStep`] as a mathematical value.
pub enum Progress {
    /// The page at `target` is to be fetched, and its outcome handed to
    /// `traversal`.
    Fetch { traversal: Traversal, target: Seq<char> },
    /// The last page has arrived; these are the records of the playlist.
    Done { records: Seq<NormalizedRecord> },
    /// The traversal has failed. No record is handed out.
    Failed { failure: Failure },
}

impl Traversal {
    /// The request for the page at `cursor`; the first page has no cursor.
    pub open spec fn request(self, cursor: Option<Seq<char>>) -> RequestSpec {
        let first = RequestSpec::new(self.credential).max_items(self.page_size).playlist_id(
            self.playlist_id,
        );
        match cursor {
            Some(page) => first.page_id(page),
            None => first,
        }
    }

    /// The step that asks for the page at `cursor`.
    pub open spec fn ask(self, cursor: Option<Seq<char>>) -> Progress {
        match self.request(cursor).build() {
            Ok(target) => Progress::Fetch { traversal: self, target },
            Err(failure) => Progress::Failed { failure },
        }
    }

    /// The first step of a traversal: the request for the first page.
    pub open spec fn begin(credential: Credential, playlist_id: Seq<char>, page_size: u32) -> Progress {
        (Traversal { credential, playlist_id, page_size, records: Seq::empty() }).ask(None)
    }

    /// The step that follows `event`. A failure of the transport and a body
    /// that is no page end the traversal. The records of a page are added
    /// after those of the pages before it, whether the page holds any or
    /// not; then the page's cursor decides: with one, the next page is
    /// asked for, and without one the traversal is done.
    pub open spec fn advance(self, event: Event) -> Progress {
        match event {
            Event::Failure(text) => Progress::Failed { failure: Failure::Transport(text) },
            Event::Body(body) => match PlaylistPage::decode(body) {
                Err(error) => Progress::Failed { failure: Failure::Decode(error) },
                Ok(page) => {
                    let grown = Traversal { records: self.records + page.records(), ..self };
                    match page.next_page_token {
                        Some(cursor) => grown.ask(Some(cursor)),
                        None => Progress::Done { records: grown.records },
                    }
                },
            },
        }
    }
}

/// A traversal of a playlist that waits for a page.
pub struct PlaylistFetch<'a, T> {
    client: &'a Youtube<T>,
    playlist_id: String,
    page_size: u32,
    videos: Vec<Video>,
}

/// What the transport reports of a request.
#[derive(Debug)]
pub enum FetchEvent {
    /// The body of the response.
    Body(String),
    /// The transport failed; the text is its own account of the failure.
    Failure(String),
}

/// What is to happen next in a traversal.
pub enum FetchStep<'a, T> {
    /// Fetch `target`, and hand the outcome to `fetch`.
    Fetch { fetch: PlaylistFetch<'a, T>, target: String },
    /// The traversal is complete: these are the videos of the playlist, in
    /// the order of its pages.
    Done(Vec<Video>),
    /// The traversal has failed, and the videos collected so far are
    /// dropped.
    Failed(ClientError),
}

impl<'a, T: Authorized> View for PlaylistFetch<'a, T> {
    type V = Traversal;

    closed spec fn view(&self) -> Traversal {
        Traversal {
            credential: self.client.credential(),
            playlist_id: self.playlist_id@,
            page_size: self.page_size,
            records: self.videos.deep_view(),
        }
    }
}

impl View for FetchEvent {
    type V = Event;

    open spec fn view(&self) -> Event {
        match self {
            FetchEvent::Body(body) => Event::Body(body@),
            FetchEvent::Failure(text) => Event::Failure(text@),
        }
    }
}

impl<'a, T: Authorized> View for FetchStep<'a, T> {
    type V = Progress;

    open spec fn view(&self) -> Progress {
        match self {
            FetchStep::Fetch { fetch, target } => Progress::Fetch {
                traversal: fetch@,
                target: target@,
            },
            FetchStep::Done(videos) => Progress::Done { records: videos.deep_view() },
            FetchStep::Failed(error) => Progress::Failed { failure: error@ },
        }
    }
}

impl<'a, T: Authorized> PlaylistFetch<'a, T> {
    /// Begins to collect the videos of the playlist `playlist_id`, asking
    /// for `page_size` items a page. The step handed back asks for the first
    /// page, which every traversal fetches; it is a failure where
    /// `playlist_id` is empty.
    pub fn begin(client: &'a Youtube<T>, playlist_id: &str, page_size: u32) -> (step: FetchStep<
        'a,
        T,
    >)
        ensures
            step@ == Traversal::begin(client.credential(), playlist_id@, page_size),
    {
        let fetch = PlaylistFetch {
            client,
            playlist_id: playlist_id.to_owned(),
            page_size,
            videos: Vec::new(),
        };
        assert(fetch.videos.deep_view() =~= Seq::<NormalizedRecord>::empty());
        fetch.ask(None)
    }

    /// The step that asks for the page at `cursor`.
    fn ask(self, cursor: Option<&str>) -> (step: FetchStep<'a, T>)
        ensures
            step@ == self@.ask(cursor.deep_view()),
    {
        let request = self.client.playlist_items().max_items(self.page_size).playlist_id(
            self.playlist_id.as_str(),
        );
        let request = match cursor {
            Some(page) => request.page_id(page),
            None => request,
        };
        match request.build() {
            Ok(target) => FetchStep::Fetch { fetch: self, target },
            Err(error) => FetchStep::Failed(error),
        }
    }

    /// Takes what the transport reports of the request that the last step
    /// named, and gives the next step.
    pub fn advance(self, event: FetchEvent) -> (step: FetchStep<'a, T>)
        ensures
            step@ == self@.advance(event@),
    {
        match event {
            FetchEvent::Failure(text) => FetchStep::Failed(ClientError::Transport(text)),
            FetchEvent::Body(body) => match YoutubePlaylistPage::decode(body.as_str()) {
                Err(error) => FetchStep::Failed(ClientError::Decode(error)),
                Ok(page) => {
                    let ghost before = self@;
                    let PlaylistFetch { client, playlist_id, page_size, mut videos } = self;
                    let mut found = page.to_videos();
                    videos.append(&mut found);
                    assert(videos.deep_view() =~= before.records + page@.records());
                    match &page.next_page_token {
                        Some(cursor) => {
                            let fetch = PlaylistFetch { client, playlist_id, page_size, videos };
                            fetch.ask(Some(cursor.as_str()))
                        },
                        None => FetchStep::Done(videos),
                    }
                },
            },
        }
    }
}

impl Progress {
    /// The step that is reached when `events` are handed over one after
    /// another. Events that come after the traversal has ended change
    /// nothing.
    pub open spec fn run(self, events: Seq<Event>) -> Progress
        decreases events.len(),
    {
        if events.len() == 0 {
            self
        } else {
            match self {
                Progress::Fetch { traversal, .. } => traversal.advance(events[0]).run(
                    events.drop_first(),
                ),
                _ => self,
            }
        }
    }

    /// The number of targets that the traversal names while `events` are
    /// handed over: the requests that the caller performs.
    pub open spec fn requests(self, events: Seq<Event>) -> nat
        decreases events.len(),
    {
        match self {
            Progress::Fetch { traversal, .. } => if events.len() == 0 {
                1
            } else {
                1 + traversal.advance(events[0]).requests(events.drop_first())
            },
            _ => 0,
        }
    }
}

/// The events in which the transport delivers `bodies`, one after another.
pub open spec fn deliveries(bodies: Seq<Seq<char>>) -> Seq<Event> {
    Seq::new(bodies.len(), |i: int| Event::Body(bodies[i]))
}

/// The records of `pages`, page after page.
pub open spec fn all_records(pages: Seq<PlaylistPage>) -> Seq<NormalizedRecord>
    decreases pages.len(),
{
    if pages.len() == 0 {
        Seq::empty()
    } else {
        pages[0].records() + all_records(pages.drop_first())
    }
}

/// Whether `pages` are the pages of one playlist from some page on: there
/// is at least one, and the last of them, and no other, lacks a cursor.
pub open spec fn ends_playlist(pages: Seq<PlaylistPage>) -> bool {
    &&& pages.len() > 0
    &&& forall|i: int|
        0 <= i < pages.len() ==> ((#[trigger] pages[i]).next_page_token is None <==> i
            == pages.len() - 1)
}

/// Whether `bodies` decode to `pages`, one by one.
pub open spec fn decode_to(bodies: Seq<Seq<char>>, pages: Seq<PlaylistPage>) -> bool {
    &&& bodies.len() == pages.len()
    &&& forall|i: int|
        0 <= i < bodies.len() ==> PlaylistPage::decode(#[trigger] bodies[i]) == Ok::<
            PlaylistPage,
            DecodeError,
        >(pages[i])
}

/// A traversal that asks for a page whatever its records, and is then
/// handed the pages of a playlist to its end, is done with its records
/// followed by those of the pages, after one request a page.
proof fn lemma_collects(
    traversal: Traversal,
    cursor: Option<Seq<char>>,
    bodies: Seq<Seq<char>>,
    pages: Seq<PlaylistPage>,
)
    requires
        traversal.playlist_id.len() > 0,
        decode_to(bodies, pages),
        ends_playlist(pages),
    ensures
        traversal.ask(cursor).run(deliveries(bodies)) == (Progress::Done {
            records: traversal.records + all_records(pages),
        }),
        traversal.ask(cursor).requests(deliveries(bodies)) == pages.len(),
    decreases pages.len(),
{
    let events = deliveries(bodies);
    let grown = Traversal { records: traversal.records + pages[0].records(), ..traversal };
    let first = traversal.ask(cursor);
    assert(traversal.request(cursor).complete());
    assert(first is Fetch && first->traversal == traversal);
    assert(events[0] == Event::Body(bodies[0]));
    assert(PlaylistPage::decode(bodies[0]) == Ok::<PlaylistPage, DecodeError>(pages[0]));
    let second = traversal.advance(events[0]);
    assert(first.run(events) == second.run(events.drop_first()));
    assert(first.requests(events) == 1 + second.requests(events.drop_first()));
    assert(events.drop_first() =~= deliveries(bodies.drop_first()));
    if pages.len() == 1 {
        assert(pages[0].next_page_token is None);
        assert(second == Progress::Done { records: grown.records });
        assert(all_records(pages.drop_first()) =~= Seq::<NormalizedRecord>::empty());
        assert(traversal.records + all_records(pages) =~= grown.records);
    } else {
        assert(pages[0].next_page_token is Some);
        assert(second == grown.ask(pages[0].next_page_token));
        let rest = pages.drop_first();
        assert forall|i: int| 0 <= i < rest.len() implies ((#[trigger] rest[i]).next_page_token
            is None <==> i == rest.len() - 1) by {
            assert(rest[i] == pages[i + 1]);
        }
        assert forall|i: int| 0 <= i < rest.len() implies PlaylistPage::decode(
            #[trigger] bodies.drop_first()[i],
        ) == Ok::<PlaylistPage, DecodeError>(rest[i]) by {
            assert(bodies.drop_first()[i] == bodies[i + 1]);
            assert(rest[i] == pages[i + 1]);
        }
        lemma_collects(grown, pages[0].next_page_token, bodies.drop_first(), rest);
        assert(traversal.records + all_records(pages) =~= grown.records + all_records(rest));
    }
}

/// A traversal that is handed pages which all carry a cursor, and then
/// `last`, ends as a traversal that holds the records of those pages ends
/// on `last`.
proof fn lemma_fails(
    traversal: Traversal,
    cursor: Option<Seq<char>>,
    bodies: Seq<Seq<char>>,
    pages: Seq<PlaylistPage>,
    last: Event,
)
    requires
        traversal.playlist_id.len() > 0,
        decode_to(bodies, pages),
        forall|i: int| 0 <= i < pages.len() ==> (#[trigger] pages[i]).next_page_token is Some,
    ensures
        traversal.ask(cursor).run(deliveries(bodies).push(last)) == (Traversal {
            records: traversal.records + all_records(pages),
            ..traversal
        }).advance(last),
    decreases pages.len(),
{
    let events = deliveries(bodies).push(last);
    let first = traversal.ask(cursor);
    assert(traversal.request(cursor).complete());
    assert(first is Fetch && first->traversal == traversal);
    let second = traversal.advance(events[0]);
    assert(first.run(events) == second.run(events.drop_first()));
    if pages.len() == 0 {
        assert(events[0] == last);
        assert(events.drop_first() =~= Seq::<Event>::empty());
        assert(traversal.records + all_records(pages) =~= traversal.records);
        assert((Traversal { records: traversal.records + all_records(pages), ..traversal })
            == traversal);
    } else {
        let grown = Traversal { records: traversal.records + pages[0].records(), ..traversal };
        assert(events[0] == Event::Body(bodies[0]));
        assert(PlaylistPage::decode(bodies[0]) == Ok::<PlaylistPage, DecodeError>(pages[0]));
        assert(pages[0].next_page_token is Some);
        assert(second == grown.ask(pages[0].next_page_token));
        assert(events.drop_first() =~= deliveries(bodies.drop_first()).push(last));
        let rest = pages.drop_first();
        assert forall|i: int| 0 <= i < rest.len() implies (#[trigger] rest[i]).next_page_token
            is Some by {
            assert(rest[i] == pages[i + 1]);
        }
        assert forall|i: int| 0 <= i < rest.len() implies PlaylistPage::decode(
            #[trigger] bodies.drop_first()[i],
        ) == Ok::<PlaylistPage, DecodeError>(rest[i]) by {
            assert(bodies.drop_first()[i] == bodies[i + 1]);
            assert(rest[i] == pages[i + 1]);
        }
        lemma_fails(grown, pages[0].next_page_token, bodies.drop_first(), rest, last);
        assert(traversal.records + all_records(pages) =~= grown.records + all_records(rest));
    }
}

/// A traversal walks a playlist to its end. Where the bodies that the
/// transport delivers are the pages of a playlist, of which only the last
/// lacks a cursor, the traversal asks for exactly one target a page, and
/// ends with the records of all pages, page after page. A page without
/// entries adds nothing and is passed like any other.
pub proof fn law_traversal_collects_all(
    credential: Credential,
    playlist_id: Seq<char>,
    page_size: u32,
    bodies: Seq<Seq<char>>,
    pages: Seq<PlaylistPage>,
)
    requires
        playlist_id.len() > 0,
        decode_to(bodies, pages),
        ends_playlist(pages),
    ensures
        Traversal::begin(credential, playlist_id, page_size).run(deliveries(bodies)) == (
        Progress::Done { records: all_records(pages) }),
        Traversal::begin(credential, playlist_id, page_size).requests(deliveries(bodies))
            == pages.len(),
{
    let traversal = Traversal { credential, playlist_id, page_size, records: Seq::empty() };
    lemma_collects(traversal, None, bodies, pages);
    assert(traversal.records + all_records(pages) =~= all_records(pages));
}

/// A traversal gives all or nothing. Where, after any number of pages that
/// each carry a cursor, the transport fails or delivers a body that is no
/// page, the traversal ends in that failure, and hands out none of the
/// records that it had collected.
pub proof fn law_traversal_all_or_nothing(
    credential: Credential,
    playlist_id: Seq<char>,
    page_size: u32,
    bodies: Seq<Seq<char>>,
    pages: Seq<PlaylistPage>,
    last: Event,
)
    requires
        playlist_id.len() > 0,
        decode_to(bodies, pages),
        forall|i: int| 0 <= i < pages.len() ==> (#[trigger] pages[i]).next_page_token is Some,
        last matches Event::Body(body) ==> PlaylistPage::decode(body) is Err,
    ensures
        Traversal::begin(credential, playlist_id, page_size).run(deliveries(bodies).push(last))
            == (Progress::Failed {
            failure: match last {
                Event::Failure(text) => Failure::Transport(text),
                Event::Body(body) => Failure::Decode(PlaylistPage::decode(body)->Err_0),
            },
        }),
{
    let traversal = Traversal { credential, playlist_id, page_size, records: Seq::empty() };
    lemma_fails(traversal, None, bodies, pages, last);
}

} // verus!
