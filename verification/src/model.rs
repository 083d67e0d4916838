//! The catalogue model: tracks, artists, albums and what the hub answers.

use vstd::prelude::*;
use crate::hash::FALLBACK_ID_PREFIX;
use crate::text::{has_prefix, starts_with_str};

verus! {

broadcast use vstd::string::group_string_axioms;

/// An artist credited on a track.
#[derive(Debug)]
pub struct Artist {
    pub id: String,
    pub name: String,
}

impl Clone for Artist {
    fn clone(&self) -> (r: Self)
        ensures
            r == *self,
    {
        Artist { id: self.id.clone(), name: self.name.clone() }
    }
}

/// The text that synthetic artist IDs begin with.
pub open spec fn fallback_prefix() -> Seq<char> {
    seq!['y', 't', '_', 'g', 'e', 'n', '_']
}

impl Artist {
    /// The ID is a synthetic one (it begins with `yt_gen_`): stored as is,
    /// but hidden from API clients.
    pub open spec fn has_fallback_id(&self) -> bool {
        has_prefix(self.id@, fallback_prefix())
    }

    /// Whether the artist's ID is a synthetic one made for an artist that had
    /// no real ID.
    pub fn is_fallback_id(&self) -> (b: bool)
        ensures
            b == self.has_fallback_id(),
    {
        proof {
            reveal_strlit("yt_gen_");
            assert(FALLBACK_ID_PREFIX@ =~= fallback_prefix());
        }
        starts_with_str(self.id.as_str(), FALLBACK_ID_PREFIX)
    }

    /// The ID that API clients see: none for a synthetic ID.
    pub fn public_id(&self) -> (r: Option<String>)
        ensures
            r matches Some(id) ==> !self.has_fallback_id() && id@ == self.id@,
            r is None ==> self.has_fallback_id(),
    {
        if self.is_fallback_id() {
            None
        } else {
            Some(self.id.clone())
        }
    }
}

/// The album a track belongs to.
#[derive(Debug)]
pub struct Album {
    pub id: String,
    pub name: String,
}

impl Clone for Album {
    fn clone(&self) -> (r: Self)
        ensures
            r == *self,
    {
        Album { id: self.id.clone(), name: self.name.clone() }
    }
}

/// A copy of an optional string.
pub fn clone_opt_string(s: &Option<String>) -> (r: Option<String>)
    ensures
        r == *s,
{
    match s {
        Some(v) => Some(v.clone()),
        None => None,
    }
}

/// A copy of a list of artists.
pub fn clone_artists(v: &Vec<Artist>) -> (r: Vec<Artist>)
    ensures
        r@ == v@,
{
    let mut r: Vec<Artist> = Vec::new();
    let mut i: usize = 0;
    while i < v.len()
        invariant
            i <= v@.len(),
            r@ == v@.subrange(0, i as int),
        decreases v@.len() - i,
    {
        r.push(v[i].clone());
        i = i + 1;
        assert(r@ =~= v@.subrange(0, i as int));
    }
    assert(v@.subrange(0, v@.len() as int) =~= v@);
    r
}

/// A track of the catalogue, with its album and artists resolved.
/// `added_at` is the time it was added, in microseconds since the Unix epoch.
#[derive(Debug)]
pub struct Track {
    pub id: String,
    pub title: String,
    pub duration_seconds: i32,
    pub thumbnail_url: Option<String>,
    pub thumbnail_small: Option<String>,
    pub thumbnail_large: Option<String>,
    pub bpm: Option<i32>,
    pub camelot_key: Option<String>,
    pub file_path: Option<String>,
    pub added_at: Option<i64>,
    pub album: Option<Album>,
    pub artists: Vec<Artist>,
}

/// A track with its list of artists taken as a sequence: two tracks with
/// the same view hold the same data.
pub struct TrackView {
    pub id: String,
    pub title: String,
    pub duration_seconds: i32,
    pub thumbnail_url: Option<String>,
    pub thumbnail_small: Option<String>,
    pub thumbnail_large: Option<String>,
    pub bpm: Option<i32>,
    pub camelot_key: Option<String>,
    pub file_path: Option<String>,
    pub added_at: Option<i64>,
    pub album: Option<Album>,
    pub artists: Seq<Artist>,
}

impl View for Track {
    type V = TrackView;

    open spec fn view(&self) -> TrackView {
        TrackView {
            id: self.id,
            title: self.title,
            duration_seconds: self.duration_seconds,
            thumbnail_url: self.thumbnail_url,
            thumbnail_small: self.thumbnail_small,
            thumbnail_large: self.thumbnail_large,
            bpm: self.bpm,
            camelot_key: self.camelot_key,
            file_path: self.file_path,
            added_at: self.added_at,
            album: self.album,
            artists: self.artists@,
        }
    }
}

impl Clone for Track {
    fn clone(&self) -> (r: Self)
        ensures
            r@ == self@,
    {
        let album = match &self.album {
            Some(a) => Some(a.clone()),
            None => None,
        };
        Track {
            id: self.id.clone(),
            title: self.title.clone(),
            duration_seconds: self.duration_seconds,
            thumbnail_url: clone_opt_string(&self.thumbnail_url),
            thumbnail_small: clone_opt_string(&self.thumbnail_small),
            thumbnail_large: clone_opt_string(&self.thumbnail_large),
            bpm: self.bpm,
            camelot_key: clone_opt_string(&self.camelot_key),
            file_path: clone_opt_string(&self.file_path),
            added_at: self.added_at,
            album,
            artists: clone_artists(&self.artists),
        }
    }
}

impl Track {
    /// The audio file of the track is stored locally.
    pub open spec fn is_stored(&self) -> bool {
        self.file_path is Some
    }
}

/// A short form of an album, as listed on an artist page.
#[derive(Debug)]
pub struct AlbumStub {
    pub id: String,
    pub name: String,
    pub thumbnail_small: Option<String>,
    pub thumbnail_large: Option<String>,
    pub kind: Option<String>,
    pub year: Option<String>,
}

/// An album as the metadata service describes it.
#[derive(Debug)]
pub struct AlbumPayload {
    pub id: String,
    pub name: String,
    pub thumbnail_small: Option<String>,
    pub thumbnail_large: Option<String>,
    pub kind: Option<String>,
    pub year: Option<String>,
    pub artists: Vec<Artist>,
    pub tracks: Vec<Track>,
}

/// An album as the hub answers it, each track marked cached or partial.
pub struct AlbumResult {
    pub id: String,
    pub name: String,
    pub thumbnail_small: Option<String>,
    pub thumbnail_large: Option<String>,
    pub kind: Option<String>,
    pub year: Option<String>,
    pub artists: Vec<Artist>,
    pub tracks: Vec<TrackResult>,
}

/// An artist page as the metadata service describes it. `views` is the raw
/// total of channel views.
#[derive(Debug)]
pub struct ArtistPayload {
    pub id: String,
    pub name: String,
    pub banner: Option<String>,
    pub views: Option<i64>,
    pub songs: Vec<Track>,
    pub albums: Vec<AlbumStub>,
}

/// An artist page as the hub answers it.
pub struct ArtistResult {
    pub id: String,
    pub name: String,
    pub banner: Option<String>,
    pub views: Option<i64>,
    pub songs: Vec<TrackResult>,
    pub albums: Vec<AlbumStub>,
}

/// The short form of an artist: ID, name and profile photo.
#[derive(Debug)]
pub struct ArtistProfileResult {
    pub id: String,
    pub name: String,
    pub photo: Option<String>,
}

/// A track in a listing: the stored record when the audio is local,
/// otherwise the metadata that the service gave.
pub enum TrackResult {
    Cached(Track),
    Partial {
        id: String,
        title: String,
        artists: Vec<Artist>,
        album: Option<Album>,
        duration_seconds: i32,
        thumbnail_small: Option<String>,
        thumbnail_large: Option<String>,
    },
}

/// The listing entry for a service track `remote` and the stored record `db`.
pub open spec fn track_result_of(remote: Track, db: Option<Track>) -> TrackResult {
    match db {
        Some(cached) if cached.file_path is Some => TrackResult::Cached(cached),
        _ => TrackResult::Partial {
            id: remote.id,
            title: remote.title,
            artists: remote.artists,
            album: remote.album,
            duration_seconds: remote.duration_seconds,
            thumbnail_small: remote.thumbnail_small,
            thumbnail_large: remote.thumbnail_large,
        },
    }
}

impl TrackResult {
    /// The stored record when its audio is local, else the service's metadata.
    pub fn from_track_and_db(python_track: Track, db_track: Option<Track>) -> (r: Self)
        ensures
            r == track_result_of(python_track, db_track),
    {
        match db_track {
            Some(cached) if cached.file_path.is_some() => TrackResult::Cached(cached),
            _ => TrackResult::Partial {
                id: python_track.id,
                title: python_track.title,
                artists: python_track.artists,
                album: python_track.album,
                duration_seconds: python_track.duration_seconds,
                thumbnail_small: python_track.thumbnail_small,
                thumbnail_large: python_track.thumbnail_large,
            },
        }
    }
}

} // verus!
