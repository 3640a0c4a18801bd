//! The records of the music catalog.

use vstd::prelude::*;

verus! {

/// An artist of the catalog.
#[derive(Debug, Clone)]
pub struct Artist {
    pub id: i64,
    pub name: String,
}

/// An album of the catalog. Titles are unique only together with the artist.
#[derive(Debug, Clone)]
pub struct Album {
    pub id: i64,
    pub title: String,
    pub artist_id: i64,
    pub cover_path: Option<String>,
}

/// A track of the catalog.
pub struct Track {
    pub id: i64,
    pub file_path: String,
    pub title: String,
    pub artist_id: i64,
    pub album_id: i64,
    pub duration_ms: i64,
    /// The file's extension in lower case, such as `mp3`.
    pub file_format: String,
    pub file_size: i64,
    /// The day the track was added, as the decimal number `YYYYMMDD`.
    pub date_added: i64,
}

/// What was read from an audio file before it enters the catalog.
#[derive(Debug)]
pub struct ExtractedTrack {
    pub file_path: String,
    pub title: String,
    pub artist: String,
    pub album: String,
    pub duration_ms: i64,
    /// The file's extension in lower case, such as `mp3`.
    pub file_format: String,
    pub file_size: i64,
    /// The day the track was added, as the decimal number `YYYYMMDD`.
    pub date_added: i64,
    pub thumbnail_data: Option<Vec<u8>>,
    pub thumbnail_mime: Option<String>,
}

} // verus!
