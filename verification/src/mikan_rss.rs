//! The shape of a Mikan RSS document, as plain data.
//!
//! These mirror the XML elements of the Mikan feed dialect; the
//! surrounding application deserializes a fetched document into them.

use vstd::prelude::*;

verus! {

/// A whole Mikan RSS document.
#[derive(Clone, Debug)]
pub struct MikanRSSContent {
    pub channel: Channel,
}

/// The single channel of a Mikan RSS document.
#[derive(Clone, Debug)]
pub struct Channel {
    pub title: String,
    pub link: String,
    pub description: String,
    pub items: Vec<MikanRSSItem>,
}

/// One entry of a Mikan channel.
#[derive(Clone, Debug)]
pub struct MikanRSSItem {
    pub guid: String,
    pub link: String,
    pub title: String,
    pub description: String,
    pub torrent: Torrent,
}

/// The torrent element attached to a Mikan entry.
#[derive(Clone, Debug)]
pub struct Torrent {
    pub link: String,
    pub content_length: String,
    pub pub_date: String,
}

} // verus!
