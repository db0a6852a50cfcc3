//! The names that the service gives to what a request can say.

use vstd::prelude::*;

verus! {

/// A parameter of a request.
#[derive(Debug, Clone, Copy, PartialEq, Eq, Structural)]
pub enum ApiParameter {
    /// What is asked of each item; always its snippet.
    Part,
    /// The playlist whose items are asked for.
    PlaylistId,
    /// The most items on one page.
    MaxResults,
    /// The cursor of the page asked for.
    PageToken,
}

impl ApiParameter {
    /// The text that introduces the parameter in a request target: its
    /// separator, its name, and an equals sign. `part` leads the query, so
    /// its separator is `?`; every other parameter follows another.
    pub open spec fn introduction(self) -> Seq<char> {
        match self {
            ApiParameter::Part => "?part="@,
            ApiParameter::PlaylistId => "&playlistId="@,
            ApiParameter::MaxResults => "&maxResults="@,
            ApiParameter::PageToken => "&pageToken="@,
        }
    }

    /// The text that introduces `param` in a request target.
    pub fn key(param: ApiParameter) -> (key: &'static str)
        ensures
            key@ == param.introduction(),
    {
        match param {
            ApiParameter::Part => "?part=",
            ApiParameter::PlaylistId => "&playlistId=",
            ApiParameter::MaxResults => "&maxResults=",
            ApiParameter::PageToken => "&pageToken=",
        }
    }
}

/// A command of the service.
#[derive(Debug, Clone, Copy, PartialEq, Eq, Structural)]
pub enum ApiCommand {
    /// Lists the items of a playlist.
    PlaylistItems,
}

} // verus!
