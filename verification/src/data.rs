//! Plain value types shared by the coordinator and its callers.

use vstd::prelude::*;

verus! {

/// Relies on `String::push_str` from the standard library: it appends the
/// given string slice onto the end of the `String`.
pub assume_specification[ String::push_str ](s: &mut String, other: &str)
    ensures
        final(s)@ == old(s)@ + other@,
;

/// Metadata describing one playable track: title, primary contributor, the
/// canonical catalog URL, and a cover-art URL.  Immutable once constructed.
#[derive(Clone, Debug, PartialEq)]
pub struct Song {
    pub song_name: String,
    pub artist_name: String,
    pub song_url: String,
    pub album_cover_url: String,
}

impl Song {
    /// Builds a track from its four metadata fields.
    pub fn new(
        song_name: String,
        artist_name: String,
        song_url: String,
        album_cover_url: String,
    ) -> (song: Song)
        ensures
            song.song_name == song_name,
            song.artist_name == artist_name,
            song.song_url == song_url,
            song.album_cover_url == album_cover_url,
    {
        Song { song_name, artist_name, song_url, album_cover_url }
    }

    /// The search query handed to the stream locator for this track,
    /// conventionally built as `<title> by <contributor> audio`.
    pub fn search_query(&self) -> (query: String)
        ensures
            query@ == self.song_name@ + " by "@ + self.artist_name@ + " audio"@,
    {
        let mut query = self.song_name.as_str().to_owned();
        query.push_str(" by ");
        query.push_str(self.artist_name.as_str());
        query.push_str(" audio");
        query
    }
}

/// An opaque reference to an active voice-session connection, identified by
/// the session it belongs to.  The coordinator borrows it to decide whether
/// playback can start; creating and tearing it down is the voice-session
/// manager's business.
#[derive(Clone, Copy, Debug, PartialEq, Eq, Structural)]
pub struct SessionHandle {
    pub session_id: u64,
}

/// An opaque, playable audio source, as resolved by the stream locator from
/// a search query; `source` is the locator's reference for it.
#[derive(Clone, Debug, PartialEq)]
pub struct StreamHandle {
    pub source: String,
}

/// Custom user data passed to all command functions: the per-session queue
/// coordinator.  The exclusive lock that serializes access to it belongs to
/// the surrounding runtime.
pub struct Data {
    pub song_queue: crate::coordinator::Coordinator,
}

} // verus!
