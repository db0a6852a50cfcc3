//! The record that the crate hands out for each video.

use vstd::prelude::*;

verus! {

/// A [`Video`] as a mathematical value. A field that is `None` has no
/// value; that is not the same as the empty text.
pub struct NormalizedRecord {
    /// The address at which the video is watched.
    pub url: Seq<char>,
    pub title: Option<Seq<char>>,
    pub description: Option<Seq<char>>,
    /// The title of the channel that owns the video.
    pub author: Option<Seq<char>>,
}

impl NormalizedRecord {
    /// The record that holds an address and nothing else.
    pub open spec fn new(url: Seq<char>) -> NormalizedRecord {
        NormalizedRecord { url, title: None, description: None, author: None }
    }
}

/// A video. Its address is never empty.
#[derive(Debug)]
pub struct Video {
    url: String,
    title: Option<String>,
    description: Option<String>,
    author: Option<String>,
}

impl View for Video {
    type V = NormalizedRecord;

    closed spec fn view(&self) -> NormalizedRecord {
        NormalizedRecord {
            url: self.url@,
            title: self.title.deep_view(),
            description: self.description.deep_view(),
            author: self.author.deep_view(),
        }
    }
}

impl DeepView for Video {
    type V = NormalizedRecord;

    open spec fn deep_view(&self) -> NormalizedRecord {
        self@
    }
}

impl Video {
    #[verifier::type_invariant]
    spec fn has_address(&self) -> bool {
        self.url@.len() > 0
    }

    /// A video at the address `url`, without title, description or author.
    pub fn new(url: &str) -> (video: Video)
        requires
            url@.len() > 0,
        ensures
            video@ == NormalizedRecord::new(url@),
    {
        Video { url: url.to_owned(), title: None, description: None, author: None }
    }

    /// Replaces the address.
    pub fn set_url(&mut self, url: &str)
        requires
            url@.len() > 0,
        ensures
            final(self)@ == (NormalizedRecord { url: url@, ..old(self)@ }),
    {
        self.url = url.to_owned();
    }

    /// Gives the video a title.
    pub fn set_title(&mut self, title: &str)
        ensures
            final(self)@ == (NormalizedRecord { title: Some(title@), ..old(self)@ }),
    {
        proof {
            use_type_invariant(&*self);
        }
        self.title = Some(title.to_owned());
    }

    /// Gives the video a description.
    pub fn set_description(&mut self, description: &str)
        ensures
            final(self)@ == (NormalizedRecord { description: Some(description@), ..old(self)@ }),
    {
        proof {
            use_type_invariant(&*self);
        }
        self.description = Some(description.to_owned());
    }

    /// Gives the video an author.
    pub fn set_author(&mut self, author: &str)
        ensures
            final(self)@ == (NormalizedRecord { author: Some(author@), ..old(self)@ }),
    {
        proof {
            use_type_invariant(&*self);
        }
        self.author = Some(author.to_owned());
    }

    /// The address, which is not empty.
    pub fn url(&self) -> (url: &String)
        ensures
            url@ == self@.url,
            url@.len() > 0,
    {
        proof {
            use_type_invariant(self);
        }
        &self.url
    }

    /// The title, if the video has one.
    pub fn title(&self) -> (title: Option<&String>)
        ensures
            title.deep_view() == self@.title,
    {
        self.title.as_ref()
    }

    /// The description, if the video has one.
    pub fn description(&self) -> (description: Option<&String>)
        ensures
            description.deep_view() == self@.description,
    {
        self.description.as_ref()
    }

    /// The author, if the video has one.
    pub fn author(&self) -> (author: Option<&String>)
        ensures
            author.deep_view() == self@.author,
    {
        self.author.as_ref()
    }
}

} // verus!
