//! Enumerates the videos of a YouTube playlist.
//!
//! The crate builds the request targets of the playlist-items endpoint,
//! decodes the pages that the service answers with, and walks the page
//! cursors until the whole playlist has been collected. Network transport
//! is left to the caller: the crate says which target to fetch next and is
//! handed the response body.

pub mod config;
pub mod naming;
pub mod request;
pub mod text;
pub mod video;
pub mod youtube;

pub use crate::video::Video;
pub use crate::youtube::page::{
    YoutubeContentDescription, YoutubePlaylistItem, YoutubePlaylistPage, YoutubeResourceId,
};
