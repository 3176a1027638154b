//! Shared data schema: the typed records and variants exchanged across the
//! sandbox boundary. Pure data with no behavior.

use vstd::prelude::*;

verus! {

/// Publication status of a manga.
#[derive(Debug, Clone, Copy, PartialEq, Eq, Structural)]
pub enum Status {
    Unknown,
    Ongoing,
    Completed,
    Hiatus,
    Cancelled,
}

/// Audience rating of a manga.
#[derive(Debug, Clone, Copy, PartialEq, Eq, Structural)]
pub enum ContentRating {
    Safe,
    Suggestive,
    Nsfw,
}

/// How a manga's pages are meant to be read.
#[derive(Debug, Clone, Copy, PartialEq, Eq, Structural)]
pub enum ReadingMode {
    RightToLeft,
    LeftToRight,
    Vertical,
    Scroll,
}

/// One manga record.
#[derive(Debug, Clone, PartialEq)]
pub struct Manga {
    pub id: String,
    pub title: String,
    pub url: String,
    pub description: String,
    pub cover_url: String,
    pub author_name: String,
    pub artist_name: String,
    pub categories: Vec<String>,
    pub status: Status,
    pub content_rating: ContentRating,
    pub reading_mode: ReadingMode,
}

/// One chapter record.
///
/// `volume` and `chapter` carry the IEEE-754 bit patterns of the 32-bit
/// floating-point volume and chapter numbers; the embedding application
/// converts at the boundary, and the runtime itself never computes on them.
#[derive(Debug, Clone, PartialEq)]
pub struct Chapter {
    pub id: String,
    pub title: String,
    pub volume: u32,
    pub chapter: u32,
    /// The date the chapter was last updated, as a Unix timestamp in seconds.
    pub date_updated: u32,
    pub scanlator: String,
    pub url: String,
    pub language: String,
}

/// One page of a chapter: either a URL to fetch or inline base64 data.
#[derive(Debug, Clone, PartialEq)]
pub struct Page {
    pub index: u32,
    pub url: String,
    /// The base64-encoded data of the page.
    pub base64: Vec<u8>,
}

/// A free-text title filter.
#[derive(Debug, Clone, PartialEq)]
pub struct FilterTitle {
    pub query: String,
}

/// A sort-order filter.
#[derive(Debug, Clone, Copy, PartialEq, Eq, Structural)]
pub struct FilterSort {
    pub option_index: u32,
    /// If true, the sort order is reversed: ascending instead of descending.
    pub option_reversed: bool,
}

/// A filter applied to a manga listing.
#[derive(Debug, Clone, PartialEq)]
pub enum Filter {
    Title(FilterTitle),
    Sort(FilterSort),
}

} // verus!
