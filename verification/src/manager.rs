//! The decisions of the track manager: each operation is a state machine that
//! asks for one piece of outside work at a time (a database read, a call to
//! the metadata service, a download, a save) and decides from what came back.

use vstd::prelude::*;
use crate::download::DownloadError;
use crate::json::{JsonValue, JsonView, as_str, find_key, get, lemma_object_view, member_str};
use crate::model::{Track, TrackResult, TrackView, clone_opt_string, track_result_of};
use crate::repository::RepositoryError;
use crate::text::{trim, trim_str};
use crate::video_id::{extract_video_id, video_id_of};

verus! {

broadcast use vstd::string::group_string_axioms;

/// Why an operation of the track manager failed.
#[derive(Debug)]
pub enum TrackManagerError {
    MetadataError(String),
    NoResults,
    DownloadError(DownloadError),
    DatabaseError(String),
}

impl TrackManagerError {
    /// The error's message.
    pub fn message(&self) -> (m: String)
        ensures
            match self {
                TrackManagerError::MetadataError(e) => m@ == "Metadata error: "@ + e@,
                TrackManagerError::NoResults => m@ == "No results found"@,
                TrackManagerError::DownloadError(e) => exists|t: String|
                    m@ == "Download error: "@ + t@ && #[trigger] download_message_of(*e, t),
                TrackManagerError::DatabaseError(e) => m@ == "Database error: "@ + e@,
            },
    {
        match self {
            TrackManagerError::MetadataError(e) => {
                let mut m = String::from_str("Metadata error: ");
                m.append(e.as_str());
                m
            },
            TrackManagerError::NoResults => String::from_str("No results found"),
            TrackManagerError::DownloadError(e) => {
                let t = e.message();
                let mut m = String::from_str("Download error: ");
                m.append(t.as_str());
                assert(download_message_of(*e, t));
                m
            },
            TrackManagerError::DatabaseError(e) => {
                let mut m = String::from_str("Database error: ");
                m.append(e.as_str());
                m
            },
        }
    }
}

/// `t` is a message that `DownloadError::message` may give for `e`.
pub open spec fn download_message_of(e: DownloadError, t: String) -> bool {
    match e {
        DownloadError::IoError(io) => exists|x: String|
            crate::repository::displays_as(&io, x) && t@ == "IO error: "@ + x@,
        DownloadError::YtDlpFailed(s) => t@ == "yt-dlp failed: "@ + s@,
        DownloadError::FileNotFound(id) => t@ == "Archivo no encontrado: "@ + id@,
    }
}

/// A failed database operation, as the manager reports it.
pub open spec fn database_error(e: RepositoryError, m: String) -> bool {
    match e {
        RepositoryError::Sqlx(x) => exists|t: String|
            crate::repository::displays_as(&x, t) && m@ == "Database error: "@ + t@,
        RepositoryError::Io(x) => exists|t: String|
            crate::repository::displays_as(&x, t) && m@ == "I/O error: "@ + t@,
        RepositoryError::Custom(msg) => m@ == "Error: "@ + msg@,
    }
}

fn db_error(e: RepositoryError) -> (r: TrackManagerError)
    ensures
        r matches TrackManagerError::DatabaseError(m) && database_error(e, m),
{
    let m = e.message();
    TrackManagerError::DatabaseError(m)
}

// ── the strictly local lookup ───────────────────────────────────────────────

/// The ID a local lookup of `query` reads: the video ID it names, else the
/// query without surrounding white space.
pub open spec fn local_id_of(query: Seq<char>) -> Seq<char> {
    match video_id_of(query) {
        Some(id) => id,
        None => trim(query),
    }
}

/// The ID that a local lookup of `query` reads from the database.
pub fn local_track_id(query: &str) -> (id: String)
    ensures
        id@ == local_id_of(query@),
{
    match extract_video_id(query) {
        Some(id) => id,
        None => trim_str(query),
    }
}

/// A local lookup succeeds only with a stored record whose audio is local;
/// a missing record or file is `NoResults`.
pub fn local_track_outcome(loaded: Result<Option<Track>, RepositoryError>) -> (r: Result<Track, TrackManagerError>)
    ensures
        match loaded {
            Err(e) => r matches Err(TrackManagerError::DatabaseError(m)) && database_error(e, m),
            Ok(Some(t)) => if t.file_path is Some {
                r == Ok::<Track, TrackManagerError>(t)
            } else {
                r matches Err(TrackManagerError::NoResults)
            },
            Ok(None) => r matches Err(TrackManagerError::NoResults),
        },
{
    match loaded {
        Err(e) => Err(db_error(e)),
        Ok(Some(t)) => if t.file_path.is_some() {
            Ok(t)
        } else {
            Err(TrackManagerError::NoResults)
        },
        Ok(None) => Err(TrackManagerError::NoResults),
    }
}

/// Marking a track as played: a failed update is a database error.
pub fn played_outcome(r: Result<(), RepositoryError>) -> (o: Result<(), TrackManagerError>)
    ensures
        match r {
            Ok(()) => o is Ok,
            Err(e) => o matches Err(TrackManagerError::DatabaseError(m)) && database_error(e, m),
        },
{
    match r {
        Ok(()) => Ok(()),
        Err(e) => Err(db_error(e)),
    }
}

// ── outside work ────────────────────────────────────────────────────────────

/// A piece of outside work that an operation asks for.
pub enum Request {
    /// Read the record of the track with this ID.
    LoadTrack(String),
    /// Ask the metadata service for the track with this ID (`track`).
    FetchTrack(String),
    /// Ask the metadata service to search for this text (`search`).
    SearchTracks(String),
    /// Ask the metadata service for up to `limit` hits for `query`.
    SearchPage { query: String, limit: usize },
    /// Ask the metadata service for a radio seeded by this track (`radio`).
    Radio(String),
    /// Ask the metadata service for the tracks of this album (`album`).
    AlbumTracks(String),
    /// Download the audio of video `id` (titled `title`, for progress
    /// reports); the answer is the path of its file.
    Download { id: String, title: String, thumbnail_small: Option<String> },
    /// Save this track.
    Save(Track),
    /// Read the records of these tracks, in one batch.
    LoadMany(Vec<String>),
    /// Ask the metadata service for each of these tracks, all at once.
    FetchEach(Vec<String>),
}

/// What came back from a piece of outside work.
pub enum Reply {
    Loaded(Result<Option<Track>, RepositoryError>),
    Fetched(Result<Track, String>),
    Listed(Result<Vec<Track>, String>),
    Downloaded(Result<String, DownloadError>),
    Saved(Result<(), RepositoryError>),
    LoadedMany(Result<Vec<Track>, RepositoryError>),
    /// One entry per fetch, in the order they finished: the track, or none
    /// when that fetch failed.
    FetchedEach(Vec<Option<Track>>),
}

/// `reply` is the kind of answer that `req` gets.
pub open spec fn answers(req: Request, reply: Reply) -> bool {
    match req {
        Request::LoadTrack(_) => reply is Loaded,
        Request::FetchTrack(_) => reply is Fetched,
        Request::SearchTracks(_) => reply is Listed,
        Request::SearchPage { .. } => reply is Listed,
        Request::Radio(_) => reply is Listed,
        Request::AlbumTracks(_) => reply is Listed,
        Request::Download { .. } => reply is Downloaded,
        Request::Save(_) => reply is Saved,
        Request::LoadMany(_) => reply is LoadedMany,
        Request::FetchEach(_) => reply is FetchedEach,
    }
}

/// Two requests ask for the same work (tracks compared by their view).
pub open spec fn same_work(a: Request, b: Request) -> bool {
    match (a, b) {
        (Request::Save(x), Request::Save(y)) => x@ == y@,
        (Request::LoadMany(x), Request::LoadMany(y)) => x@ == y@,
        (Request::FetchEach(x), Request::FetchEach(y)) => x@ == y@,
        _ => a == b,
    }
}

// ── resolving metadata ──────────────────────────────────────────────────────

/// The metadata of a query, from the database when it holds the track, else
/// from the metadata service; it never downloads audio.
pub enum ResolveMetadata {
    /// The query named video `id`: reading its record.
    LoadNamed { id: String },
    /// Asking the service for track `id`.
    FetchById { id: String },
    /// The query was free text: searching for it.
    Searching { query: String },
    /// Reading the record of the first hit `id`.
    LoadFirstHit { id: String },
}

/// What an operation does next.
pub enum Next<M, T> {
    /// Do this work and hand its answer to the operation.
    Ask(M, Request),
    /// The operation is over.
    Done(Result<T, TrackManagerError>),
}

/// What a failed call to the metadata service is reported as.
pub open spec fn metadata_error<T>(r: Result<T, TrackManagerError>, m: String) -> bool {
    r matches Err(TrackManagerError::MetadataError(x)) && x == m
}

/// One step of metadata resolution: `n` is what `m` does on `reply`. A
/// stored record is the answer; without one the service is asked for the
/// track; a search takes its first hit, and none is `NoResults`. An answer
/// of the wrong kind changes nothing.
pub open spec fn resolve_step(st: ResolveMetadata, reply: Reply, n: Next<ResolveMetadata, Track>) -> bool {
    if !answers(st.awaits(), reply) {
        n == Next::<ResolveMetadata, Track>::Ask(st, st.awaits())
    } else {
        match (st, reply) {
            (ResolveMetadata::LoadNamed { id }, Reply::Loaded(r))
            | (ResolveMetadata::LoadFirstHit { id }, Reply::Loaded(r)) => match r {
                Err(e) => n matches Next::Done(Err(TrackManagerError::DatabaseError(m))) && database_error(e, m),
                Ok(Some(t)) => n == Next::<ResolveMetadata, Track>::Done(Ok(t)),
                Ok(None) => n matches Next::Ask(s, req) && s == (ResolveMetadata::FetchById { id })
                    && req == s.awaits(),
            },
            (ResolveMetadata::FetchById { .. }, Reply::Fetched(r)) => match r {
                Ok(t) => n == Next::<ResolveMetadata, Track>::Done(Ok(t)),
                Err(m) => n matches Next::Done(res) && metadata_error(res, m),
            },
            (ResolveMetadata::Searching { .. }, Reply::Listed(r)) => match r {
                Err(m) => n matches Next::Done(res) && metadata_error(res, m),
                Ok(hits) => if hits@.len() == 0 {
                    n matches Next::Done(Err(TrackManagerError::NoResults))
                } else {
                    n matches Next::Ask(s, req) && (s matches ResolveMetadata::LoadFirstHit { id }
                        && id == hits@[0].id) && req == s.awaits()
                },
            },
            _ => false,
        }
    }
}

impl ResolveMetadata {
    /// The work the operation waits for.
    pub open spec fn awaits(&self) -> Request {
        match self {
            ResolveMetadata::LoadNamed { id } => Request::LoadTrack(*id),
            ResolveMetadata::FetchById { id } => Request::FetchTrack(*id),
            ResolveMetadata::Searching { query } => Request::SearchTracks(*query),
            ResolveMetadata::LoadFirstHit { id } => Request::LoadTrack(*id),
        }
    }

    fn pending(&self) -> (r: Request)
        ensures
            r == self.awaits(),
    {
        match self {
            ResolveMetadata::LoadNamed { id } => Request::LoadTrack(id.clone()),
            ResolveMetadata::FetchById { id } => Request::FetchTrack(id.clone()),
            ResolveMetadata::Searching { query } => Request::SearchTracks(query.clone()),
            ResolveMetadata::LoadFirstHit { id } => Request::LoadTrack(id.clone()),
        }
    }

    /// Starts resolving `query` (surrounding white space ignored): a query
    /// that names a video reads its record; any other is searched for.
    pub fn start(query: &str) -> (r: (ResolveMetadata, Request))
        ensures
            r.1 == r.0.awaits(),
            match video_id_of(trim(query@)) {
                Some(id) => r.0 matches ResolveMetadata::LoadNamed { id: i } && i@ == id,
                None => r.0 matches ResolveMetadata::Searching { query: q } && q@ == trim(query@),
            },
    {
        let q = trim_str(query);
        match extract_video_id(q.as_str()) {
            Some(id) => {
                let m = ResolveMetadata::LoadNamed { id };
                let req = m.pending();
                (m, req)
            },
            None => {
                let m = ResolveMetadata::Searching { query: q };
                let req = m.pending();
                (m, req)
            },
        }
    }

    /// Takes the answer to the pending work. A stored record is the answer;
    /// without one the service is asked for the track; a search takes its
    /// first hit, and none is `NoResults`. An answer of the wrong kind
    /// changes nothing.
    pub fn on_reply(self, reply: Reply) -> (n: Next<ResolveMetadata, Track>)
        ensures
            resolve_step(self, reply, n),
    {
        match (self, reply) {
            (ResolveMetadata::LoadNamed { id }, Reply::Loaded(r))
            | (ResolveMetadata::LoadFirstHit { id }, Reply::Loaded(r)) => match r {
                Err(e) => Next::Done(Err(db_error(e))),
                Ok(Some(t)) => Next::Done(Ok(t)),
                Ok(None) => {
                    let s = ResolveMetadata::FetchById { id };
                    let req = s.pending();
                    Next::Ask(s, req)
                },
            },
            (ResolveMetadata::FetchById { .. }, Reply::Fetched(r)) => match r {
                Ok(t) => Next::Done(Ok(t)),
                Err(m) => Next::Done(Err(TrackManagerError::MetadataError(m))),
            },
            (ResolveMetadata::Searching { .. }, Reply::Listed(r)) => match r {
                Err(m) => Next::Done(Err(TrackManagerError::MetadataError(m))),
                Ok(hits) => {
                    if hits.len() == 0 {
                        Next::Done(Err(TrackManagerError::NoResults))
                    } else {
                        let s = ResolveMetadata::LoadFirstHit { id: hits[0].id.clone() };
                        let req = s.pending();
                        Next::Ask(s, req)
                    }
                },
            },
            (s, _) => {
                let req = s.pending();
                Next::Ask(s, req)
            },
        }
    }

    /// Whether `reply` is the kind of answer the pending work gets.
    pub fn accepts(&self, reply: &Reply) -> (b: bool)
        ensures
            b == answers(self.awaits(), *reply),
    {
        match (self, reply) {
            (ResolveMetadata::LoadNamed { .. }, Reply::Loaded(_)) => true,
            (ResolveMetadata::FetchById { .. }, Reply::Fetched(_)) => true,
            (ResolveMetadata::Searching { .. }, Reply::Listed(_)) => true,
            (ResolveMetadata::LoadFirstHit { .. }, Reply::Loaded(_)) => true,
            _ => false,
        }
    }
}

// ── downloading ─────────────────────────────────────────────────────────────

/// A track with its audio stored at `path`.
pub open spec fn with_file(t: TrackView, path: String) -> TrackView {
    TrackView { file_path: Some(path), ..t }
}

/// How a download goes on from a step of its metadata resolution: a
/// resolved track whose audio is stored is the answer; any other resolved
/// track is downloaded.
pub open spec fn after_resolve(inner: Next<ResolveMetadata, Track>, n: Next<DownloadTrack, Downloaded>) -> bool {
    match inner {
        Next::Ask(m2, req) => n == Next::<DownloadTrack, Downloaded>::Ask(DownloadTrack::Resolving(m2), req),
        Next::Done(Err(e)) => n == Next::<DownloadTrack, Downloaded>::Done(Err(e)),
        Next::Done(Ok(t)) => if t.file_path is Some {
            n matches Next::Done(Ok(d)) && d.track == t && d.follow_up is None
        } else {
            n matches Next::Ask(s, req) && s == (DownloadTrack::Downloading { track: t })
                && req == s.awaits()
        },
    }
}

/// The outcome of a download: the track, and the background work to start
/// when its audio was just downloaded and saved.
pub struct Downloaded {
    pub track: Track,
    pub follow_up: Option<(AnalysisJob, LyricsJob)>,
}

/// Download of a query's track: its metadata is resolved first; a track whose
/// audio is already stored is the answer as it is; otherwise the audio is
/// downloaded and the track saved with the path of its file.
pub enum DownloadTrack {
    /// Resolving the query's metadata.
    Resolving(ResolveMetadata),
    /// Downloading the audio of `track`.
    Downloading { track: Track },
    /// Saving `saved`, whose audio was just downloaded to `path`.
    Saving { saved: Track, path: String },
}

impl DownloadTrack {
    /// The work the operation waits for.
    pub open spec fn awaits(&self) -> Request {
        match self {
            DownloadTrack::Resolving(r) => r.awaits(),
            DownloadTrack::Downloading { track } => Request::Download {
                id: track.id,
                title: track.title,
                thumbnail_small: track.thumbnail_small,
            },
            DownloadTrack::Saving { saved, .. } => Request::Save(*saved),
        }
    }

    fn pending(&self) -> (r: Request)
        ensures
            same_work(r, self.awaits()),
    {
        match self {
            DownloadTrack::Resolving(r) => r.pending(),
            DownloadTrack::Downloading { track } => Request::Download {
                id: track.id.clone(),
                title: track.title.clone(),
                thumbnail_small: clone_opt_string(&track.thumbnail_small),
            },
            DownloadTrack::Saving { saved, .. } => Request::Save(saved.clone()),
        }
    }

    /// Whether `reply` is the kind of answer the pending work gets.
    pub fn accepts(&self, reply: &Reply) -> (b: bool)
        ensures
            b == answers(self.awaits(), *reply),
    {
        match self {
            DownloadTrack::Resolving(r) => r.accepts(reply),
            DownloadTrack::Downloading { .. } => matches!(reply, Reply::Downloaded(_)),
            DownloadTrack::Saving { .. } => matches!(reply, Reply::Saved(_)),
        }
    }

    /// Starts the download of what `query` names.
    pub fn start(query: &str) -> (r: (DownloadTrack, Request))
        ensures
            r.1 == r.0.awaits(),
            r.0 matches DownloadTrack::Resolving(m) && match video_id_of(trim(query@)) {
                Some(id) => m matches ResolveMetadata::LoadNamed { id: i } && i@ == id,
                None => m matches ResolveMetadata::Searching { query: q } && q@ == trim(query@),
            },
    {
        let (m, req) = ResolveMetadata::start(query);
        (DownloadTrack::Resolving(m), req)
    }

    /// Takes the answer to the pending work. An answer of the wrong kind
    /// changes nothing.
    pub fn on_reply(self, reply: Reply) -> (n: Next<DownloadTrack, Downloaded>)
        ensures
            !answers(self.awaits(), reply) ==> (n matches Next::Ask(s, req) && s == self && same_work(req, self.awaits())),
            answers(self.awaits(), reply) ==> match self {
                DownloadTrack::Resolving(m) => exists|inner: Next<ResolveMetadata, Track>|
                    #[trigger] resolve_step(m, reply, inner) && after_resolve(inner, n),
                DownloadTrack::Downloading { track } => match reply {
                    Reply::Downloaded(Err(e)) => n == Next::<DownloadTrack, Downloaded>::Done(
                        Err(TrackManagerError::DownloadError(e)),
                    ),
                    Reply::Downloaded(Ok(path)) => n matches Next::Ask(s, req)
                        && (s matches DownloadTrack::Saving { saved, path: p } && saved@ == with_file(track@, path)
                        && p@ == path@) && same_work(req, s.awaits()),
                    _ => false,
                },
                DownloadTrack::Saving { saved, path } => match reply {
                    Reply::Saved(Err(e)) => n matches Next::Done(Err(TrackManagerError::DatabaseError(m)))
                        && database_error(e, m),
                    Reply::Saved(Ok(())) => n matches Next::Done(Ok(d)) && d.track == saved
                        && (d.follow_up matches Some(jobs) && jobs_for(saved, path@, jobs)),
                    _ => false,
                },
            },
    {
        match (self, reply) {
            (DownloadTrack::Resolving(m), reply) => {
                let ghost m0 = m;
                let inner = m.on_reply(reply);
                let ghost g = inner;
                let n = match inner {
                    Next::Ask(m2, req) => Next::Ask(DownloadTrack::Resolving(m2), req),
                    Next::Done(Err(e)) => Next::Done(Err(e)),
                    Next::Done(Ok(t)) => {
                        if t.file_path.is_some() {
                            Next::Done(Ok(Downloaded { track: t, follow_up: None }))
                        } else {
                            let s = DownloadTrack::Downloading { track: t };
                            let req = s.pending();
                            Next::Ask(s, req)
                        }
                    },
                };
                assert(resolve_step(m0, reply, g) && after_resolve(g, n));
                n
            },
            (DownloadTrack::Downloading { track }, Reply::Downloaded(r)) => match r {
                Err(e) => Next::Done(Err(TrackManagerError::DownloadError(e))),
                Ok(path) => {
                    let p = path.clone();
                    let saved = Track { file_path: Some(path), ..track };
                    let req = Request::Save(saved.clone());
                    Next::Ask(DownloadTrack::Saving { saved, path: p }, req)
                },
            },
            (DownloadTrack::Saving { saved, path }, Reply::Saved(r)) => match r {
                Err(e) => Next::Done(Err(db_error(e))),
                Ok(()) => {
                    let jobs = follow_up(&saved, path.as_str());
                    Next::Done(Ok(Downloaded { track: saved, follow_up: Some(jobs) }))
                },
            },
            (s, _) => {
                let req = s.pending();
                Next::Ask(s, req)
            },
        }
    }
}

// ── listings ────────────────────────────────────────────────────────────────

/// `v` reversed.
fn reversed(v: Vec<Track>) -> (r: Vec<Track>)
    ensures
        r@ == v@.reverse(),
{
    let ghost orig = v@;
    let mut v = v;
    let mut r: Vec<Track> = Vec::new();
    while v.len() > 0
        invariant
            v@.len() <= orig.len(),
            v@ == orig.subrange(0, v@.len() as int),
            r@ == orig.subrange(v@.len() as int, orig.len() as int).reverse(),
        decreases v@.len(),
    {
        let x = v.pop().unwrap();
        r.push(x);
        assert(r@ =~= orig.subrange(v@.len() as int, orig.len() as int).reverse());
    }
    assert(orig.subrange(0, orig.len() as int) =~= orig);
    r
}

/// The first `limit` entries of a listing, or all of them without a limit.
pub open spec fn truncated<T>(s: Seq<T>, limit: Option<usize>) -> Seq<T> {
    match limit {
        Some(l) if l < s.len() => s.take(l as int),
        _ => s,
    }
}

/// Where a listing comes from.
pub enum ListSource {
    /// A radio seeded by a track.
    Radio,
    /// The tracks of an album.
    Album,
}

/// A listing from the metadata service (a radio or an album): each track is
/// checked against the database and marked cached or partial; a radio keeps
/// its first `limit` entries.
pub enum ResolveList {
    /// Asking the service for the list.
    Listing { source: ListSource, key: String, limit: Option<usize> },
    /// Checking each track; `todo` holds the unchecked tracks in reverse
    /// order and `pending_id` is the ID of the next one.
    Checking { todo: Vec<Track>, done: Vec<TrackResult>, limit: Option<usize>, pending_id: String },
}

impl ResolveList {
    /// The work the operation waits for.
    pub open spec fn awaits(&self) -> Request {
        match self {
            ResolveList::Listing { source, key, .. } => match source {
                ListSource::Radio => Request::Radio(*key),
                ListSource::Album => Request::AlbumTracks(*key),
            },
            ResolveList::Checking { pending_id, .. } => Request::LoadTrack(*pending_id),
        }
    }

    /// The tracks not yet checked, in list order.
    pub open spec fn unchecked(&self) -> Seq<Track> {
        match self {
            ResolveList::Checking { todo, .. } => todo@.reverse(),
            _ => Seq::empty(),
        }
    }

    /// The entries made so far.
    pub open spec fn entries(&self) -> Seq<TrackResult> {
        match self {
            ResolveList::Checking { done, .. } => done@,
            _ => Seq::empty(),
        }
    }

    /// How many entries the listing keeps.
    pub open spec fn limit(&self) -> Option<usize> {
        match self {
            ResolveList::Listing { limit, .. } => *limit,
            ResolveList::Checking { limit, .. } => *limit,
        }
    }

    /// The states the operation can be in: while checking, some track is
    /// left and the pending ID is that of the next one.
    pub open spec fn wf(&self) -> bool {
        match self {
            ResolveList::Checking { todo, pending_id, .. } => todo@.len() > 0 && pending_id == todo@.last().id,
            _ => true,
        }
    }

    fn pending(&self) -> (r: Request)
        ensures
            r == self.awaits(),
    {
        match self {
            ResolveList::Listing { source, key, .. } => match source {
                ListSource::Radio => Request::Radio(key.clone()),
                ListSource::Album => Request::AlbumTracks(key.clone()),
            },
            ResolveList::Checking { pending_id, .. } => Request::LoadTrack(pending_id.clone()),
        }
    }

    /// Whether `reply` is the kind of answer the pending work gets.
    pub fn accepts(&self, reply: &Reply) -> (b: bool)
        ensures
            b == answers(self.awaits(), *reply),
    {
        match self {
            ResolveList::Listing { .. } => matches!(reply, Reply::Listed(_)),
            ResolveList::Checking { .. } => matches!(reply, Reply::Loaded(_)),
        }
    }

    /// A radio seeded by track `seed_id`, keeping at most `limit` entries.
    pub fn radio(seed_id: &str, limit: usize) -> (r: (ResolveList, Request))
        ensures
            r.0.wf(),
            r.1 == r.0.awaits(),
            r.1 matches Request::Radio(k) && k@ == seed_id@,
            r.0.limit() == Some(limit),
    {
        let m = ResolveList::Listing { source: ListSource::Radio, key: String::from_str(seed_id), limit: Some(limit) };
        let req = m.pending();
        (m, req)
    }

    /// The tracks of album `album_id`.
    pub fn album(album_id: &str) -> (r: (ResolveList, Request))
        ensures
            r.0.wf(),
            r.1 == r.0.awaits(),
            r.1 matches Request::AlbumTracks(k) && k@ == album_id@,
            r.0.limit() is None,
    {
        let m = ResolveList::Listing { source: ListSource::Album, key: String::from_str(album_id), limit: None };
        let req = m.pending();
        (m, req)
    }

    /// Takes the answer to the pending work. A failed list is a metadata
    /// error; each track then gets its stored record, and becomes a cached
    /// entry when its audio is local, else a partial one; a failed read ends
    /// the listing. An answer of the wrong kind changes nothing.
    pub fn on_reply(self, reply: Reply) -> (n: Next<ResolveList, Vec<TrackResult>>)
        requires
            self.wf(),
        ensures
            !answers(self.awaits(), reply) ==> n == Next::<ResolveList, Vec<TrackResult>>::Ask(self, self.awaits()),
            answers(self.awaits(), reply) ==> match reply {
                Reply::Listed(Err(m)) => n matches Next::Done(res) && metadata_error(res, m),
                Reply::Listed(Ok(tracks)) => if tracks@.len() == 0 {
                    n matches Next::Done(Ok(v)) && v@.len() == 0
                } else {
                    n matches Next::Ask(s, req) && s.wf() && req == s.awaits() && s.unchecked() == tracks@
                        && s.entries().len() == 0 && s.limit() == self.limit()
                },
                Reply::Loaded(Err(e)) => n matches Next::Done(Err(TrackManagerError::DatabaseError(m)))
                    && database_error(e, m),
                Reply::Loaded(Ok(db)) => {
                    let entries = self.entries().push(track_result_of(self.unchecked()[0], db));
                    if self.unchecked().len() == 1 {
                        n matches Next::Done(Ok(v)) && v@ == truncated(entries, self.limit())
                    } else {
                        n matches Next::Ask(s, req) && s.wf() && req == s.awaits()
                            && s.unchecked() == self.unchecked().drop_first() && s.entries() == entries
                            && s.limit() == self.limit()
                    }
                },
                _ => false,
            },
    {
        match (self, reply) {
            (ResolveList::Listing { limit, .. }, Reply::Listed(r)) => match r {
                Err(m) => Next::Done(Err(TrackManagerError::MetadataError(m))),
                Ok(tracks) => {
                    if tracks.len() == 0 {
                        return Next::Done(Ok(Vec::new()));
                    }
                    let todo = reversed(tracks);
                    let pending_id = todo[todo.len() - 1].id.clone();
                    let s = ResolveList::Checking { todo, done: Vec::new(), limit, pending_id };
                    let req = s.pending();
                    assert(s.unchecked() =~= tracks@);
                    Next::Ask(s, req)
                },
            },
            (ResolveList::Checking { todo, done, limit, .. }, Reply::Loaded(r)) => match r {
                Err(e) => Next::Done(Err(db_error(e))),
                Ok(db) => {
                    let ghost before = todo@;
                    let mut todo = todo;
                    let mut done = done;
                    let t = todo.pop().unwrap();
                    assert(t == before.reverse()[0]);
                    done.push(TrackResult::from_track_and_db(t, db));
                    if todo.len() == 0 {
                        if let Some(l) = limit {
                            done.truncate(l);
                        }
                        Next::Done(Ok(done))
                    } else {
                        let pending_id = todo[todo.len() - 1].id.clone();
                        let s = ResolveList::Checking { todo, done, limit, pending_id };
                        assert(s.unchecked() =~= before.reverse().drop_first());
                        let req = s.pending();
                        Next::Ask(s, req)
                    }
                },
            },
            (s, _) => {
                let req = s.pending();
                Next::Ask(s, req)
            },
        }
    }
}

// ── searching ───────────────────────────────────────────────────────────────

/// What a search hit becomes: the stored record when a strictly local lookup
/// of its ID succeeds, else the hit itself.
pub open spec fn search_entry(hit: Track, loaded: Result<Option<Track>, RepositoryError>) -> Track {
    match loaded {
        Ok(Some(c)) if c.file_path is Some => c,
        _ => hit,
    }
}

/// A search of the metadata service for up to `limit` hits; each hit that
/// is stored locally with its audio is replaced by its record.
pub enum SearchList {
    /// Asking the service.
    Listing { query: String, limit: usize },
    /// Looking up each hit; `todo` holds the hits not yet looked up in
    /// reverse order and `pending_id` is the local ID of the next one.
    Checking { todo: Vec<Track>, done: Vec<Track>, pending_id: String },
}

impl SearchList {
    /// The work the operation waits for.
    pub open spec fn awaits(&self) -> Request {
        match self {
            SearchList::Listing { query, limit } => Request::SearchPage { query: *query, limit: *limit },
            SearchList::Checking { pending_id, .. } => Request::LoadTrack(*pending_id),
        }
    }

    /// The hits not yet looked up, in order.
    pub open spec fn unchecked(&self) -> Seq<Track> {
        match self {
            SearchList::Checking { todo, .. } => todo@.reverse(),
            _ => Seq::empty(),
        }
    }

    /// The most hits the search asks for and keeps; it only matters while
    /// the listing is awaited.
    pub open spec fn limit(&self) -> usize {
        match self {
            SearchList::Listing { limit, .. } => *limit,
            SearchList::Checking { .. } => 0,
        }
    }

    /// The entries made so far.
    pub open spec fn entries(&self) -> Seq<Track> {
        match self {
            SearchList::Checking { done, .. } => done@,
            _ => Seq::empty(),
        }
    }

    /// While looking up, some hit is left and the pending ID is the local
    /// ID of the next one.
    pub open spec fn wf(&self) -> bool {
        match self {
            SearchList::Checking { todo, pending_id, .. } => todo@.len() > 0 && pending_id@ == local_id_of(
                todo@.last().id@,
            ),
            _ => true,
        }
    }

    fn pending(&self) -> (r: Request)
        ensures
            r == self.awaits(),
    {
        match self {
            SearchList::Listing { query, limit } => Request::SearchPage { query: query.clone(), limit: *limit },
            SearchList::Checking { pending_id, .. } => Request::LoadTrack(pending_id.clone()),
        }
    }

    /// Whether `reply` is the kind of answer the pending work gets.
    pub fn accepts(&self, reply: &Reply) -> (b: bool)
        ensures
            b == answers(self.awaits(), *reply),
    {
        match self {
            SearchList::Listing { .. } => matches!(reply, Reply::Listed(_)),
            SearchList::Checking { .. } => matches!(reply, Reply::Loaded(_)),
        }
    }

    /// A search for `query` with at most `limit` hits.
    pub fn start(query: &str, limit: usize) -> (r: (SearchList, Request))
        ensures
            r.0.wf(),
            r.1 == r.0.awaits(),
            r.1 matches Request::SearchPage { query: q, limit: l } && q@ == query@ && l == limit,
    {
        let m = SearchList::Listing { query: String::from_str(query), limit };
        let req = m.pending();
        (m, req)
    }

    /// Takes the answer to the pending work. A failed search is a metadata
    /// error; of a listing only the first `limit` hits are kept; a failed or
    /// unsuccessful local lookup keeps the hit. An answer
    /// of the wrong kind changes nothing.
    pub fn on_reply(self, reply: Reply) -> (n: Next<SearchList, Vec<Track>>)
        requires
            self.wf(),
        ensures
            !answers(self.awaits(), reply) ==> n == Next::<SearchList, Vec<Track>>::Ask(self, self.awaits()),
            answers(self.awaits(), reply) ==> match reply {
                Reply::Listed(Err(m)) => n matches Next::Done(res) && metadata_error(res, m),
                Reply::Listed(Ok(hits)) => {
                    let kept = truncated(hits@, Some(self.limit()));
                    if kept.len() == 0 {
                        n matches Next::Done(Ok(v)) && v@.len() == 0
                    } else {
                        n matches Next::Ask(s, req) && s.wf() && req == s.awaits() && s.unchecked() == kept
                            && s.entries().len() == 0
                    }
                },
                Reply::Loaded(loaded) => {
                    let entries = self.entries().push(search_entry(self.unchecked()[0], loaded));
                    if self.unchecked().len() == 1 {
                        n matches Next::Done(Ok(v)) && v@ == entries
                    } else {
                        n matches Next::Ask(s, req) && s.wf() && req == s.awaits()
                            && s.unchecked() == self.unchecked().drop_first() && s.entries() == entries
                    }
                },
                _ => false,
            },
    {
        match (self, reply) {
            (SearchList::Listing { limit, .. }, Reply::Listed(r)) => match r {
                Err(m) => Next::Done(Err(TrackManagerError::MetadataError(m))),
                Ok(hits) => {
                    let ghost all = hits@;
                    let mut hits = hits;
                    hits.truncate(limit);
                    assert(hits@ =~= truncated(all, Some(limit)));
                    if hits.len() == 0 {
                        return Next::Done(Ok(Vec::new()));
                    }
                    let todo = reversed(hits);
                    let pending_id = local_track_id(todo[todo.len() - 1].id.as_str());
                    let s = SearchList::Checking { todo, done: Vec::new(), pending_id };
                    let req = s.pending();
                    assert(s.unchecked() =~= hits@);
                    Next::Ask(s, req)
                },
            },
            (SearchList::Checking { todo, done, .. }, Reply::Loaded(loaded)) => {
                let ghost before = todo@;
                let ghost l0 = loaded;
                let mut todo = todo;
                let mut done = done;
                let hit = todo.pop().unwrap();
                assert(hit == before.reverse()[0]);
                let entry = match local_track_outcome(loaded) {
                    Ok(c) => c,
                    Err(_) => hit,
                };
                assert(entry == search_entry(before.reverse()[0], l0));
                done.push(entry);
                if todo.len() == 0 {
                    Next::Done(Ok(done))
                } else {
                    let pending_id = local_track_id(todo[todo.len() - 1].id.as_str());
                    let s = SearchList::Checking { todo, done, pending_id };
                    assert(s.unchecked() =~= before.reverse().drop_first());
                    let req = s.pending();
                    Next::Ask(s, req)
                }
            },
            (s, _) => {
                let req = s.pending();
                Next::Ask(s, req)
            },
        }
    }
}

// ── resolving many IDs ──────────────────────────────────────────────────────

/// Most IDs that one batch resolves.
pub const MAX_BATCH: usize = 250;

/// The IDs a batch works on: the first `MAX_BATCH` of them.
pub open spec fn batch_of(ids: Seq<String>) -> Seq<String> {
    if ids.len() > MAX_BATCH {
        ids.take(MAX_BATCH as int)
    } else {
        ids
    }
}

/// Some track of `found` has ID `id`.
pub open spec fn is_found(found: Seq<Track>, id: Seq<char>) -> bool {
    exists|j: int| 0 <= j < found.len() && found[j].id@ == id
}

/// The IDs of `ids` that no track of `found` has, in order.
pub open spec fn missing_of(ids: Seq<String>, found: Seq<Track>) -> Seq<String>
    decreases ids.len(),
{
    if ids.len() == 0 {
        Seq::empty()
    } else if is_found(found, ids.last()@) {
        missing_of(ids.drop_last(), found)
    } else {
        missing_of(ids.drop_last(), found).push(ids.last())
    }
}

/// The tracks among fetch results, in order.
pub open spec fn fetched_tracks(arrivals: Seq<Option<Track>>) -> Seq<Track>
    decreases arrivals.len(),
{
    if arrivals.len() == 0 {
        Seq::empty()
    } else {
        match arrivals.last() {
            Some(t) => fetched_tracks(arrivals.drop_last()).push(t),
            None => fetched_tracks(arrivals.drop_last()),
        }
    }
}

fn clone_ids(ids: &Vec<String>, n: usize) -> (r: Vec<String>)
    requires
        n <= ids@.len(),
    ensures
        r@ == ids@.take(n as int),
{
    let mut r: Vec<String> = Vec::new();
    let mut i: usize = 0;
    while i < n
        invariant
            n <= ids@.len(),
            i <= n,
            r@ == ids@.take(i as int),
        decreases n - i,
    {
        r.push(ids[i].clone());
        i = i + 1;
        assert(r@ =~= ids@.take(i as int));
    }
    r
}

fn found_has(found: &Vec<Track>, id: &String) -> (b: bool)
    ensures
        b == is_found(found@, id@),
{
    let mut j: usize = 0;
    while j < found.len()
        invariant
            j <= found@.len(),
            forall|k: int| 0 <= k < j ==> found@[k].id@ != id@,
        decreases found@.len() - j,
    {
        if found[j].id == *id {
            return true;
        }
        j = j + 1;
    }
    false
}

fn missing_ids(ids: &Vec<String>, found: &Vec<Track>) -> (r: Vec<String>)
    ensures
        r@ == missing_of(ids@, found@),
{
    let mut r: Vec<String> = Vec::new();
    let mut i: usize = 0;
    while i < ids.len()
        invariant
            i <= ids@.len(),
            r@ == missing_of(ids@.take(i as int), found@),
        decreases ids@.len() - i,
    {
        assert(ids@.take(i + 1).drop_last() =~= ids@.take(i as int));
        if !found_has(found, &ids[i]) {
            r.push(ids[i].clone());
        }
        i = i + 1;
    }
    assert(ids@.take(ids@.len() as int) =~= ids@);
    r
}

/// Resolution of many IDs at once: the first `MAX_BATCH` are read from the
/// database in one batch; those it lacks are fetched from the service in
/// parallel; the answer is the stored tracks, then the fetched ones in the
/// order they arrived (failed fetches are left out).
pub enum ResolveMany {
    /// Reading the batch `ids`.
    Loading { ids: Vec<String> },
    /// Fetching `missing`; `found` came from the database.
    Fetching { found: Vec<Track>, missing: Vec<String> },
}

impl ResolveMany {
    /// Whether `reply` is the kind of answer the pending work gets.
    pub open spec fn takes(&self, reply: Reply) -> bool {
        match self {
            ResolveMany::Loading { .. } => reply is LoadedMany,
            ResolveMany::Fetching { .. } => reply is FetchedEach,
        }
    }

    /// The work the operation waits for, up to the copies of the ID lists.
    pub open spec fn awaits(&self) -> Request {
        match self {
            ResolveMany::Loading { ids } => Request::LoadMany(*ids),
            ResolveMany::Fetching { missing, .. } => Request::FetchEach(*missing),
        }
    }

    fn pending(&self) -> (r: Request)
        ensures
            same_work(r, self.awaits()),
    {
        match self {
            ResolveMany::Loading { ids } => {
                let c = clone_ids(ids, ids.len());
                assert(ids@.take(ids@.len() as int) =~= ids@);
                Request::LoadMany(c)
            },
            ResolveMany::Fetching { missing, .. } => {
                let c = clone_ids(missing, missing.len());
                assert(missing@.take(missing@.len() as int) =~= missing@);
                Request::FetchEach(c)
            },
        }
    }

    /// Whether `reply` is the kind of answer the pending work gets.
    pub fn accepts(&self, reply: &Reply) -> (b: bool)
        ensures
            b == self.takes(*reply),
    {
        match self {
            ResolveMany::Loading { .. } => matches!(reply, Reply::LoadedMany(_)),
            ResolveMany::Fetching { .. } => matches!(reply, Reply::FetchedEach(_)),
        }
    }

    /// Starts resolving `ids`: reads the batch of the first `MAX_BATCH`.
    pub fn start(ids: &Vec<String>) -> (r: (ResolveMany, Request))
        ensures
            r.0 matches ResolveMany::Loading { ids: b } && b@ == batch_of(ids@),
            same_work(r.1, r.0.awaits()),
    {
        let n = if ids.len() > MAX_BATCH {
            MAX_BATCH
        } else {
            ids.len()
        };
        let batch = clone_ids(ids, n);
        assert(ids.len() <= MAX_BATCH ==> ids@.take(n as int) =~= ids@);
        let m = ResolveMany::Loading { ids: batch };
        let req = m.pending();
        (m, req)
    }

    /// Takes the answer to the pending work. An answer of the wrong kind
    /// changes nothing.
    pub fn on_reply(self, reply: Reply) -> (n: Next<ResolveMany, Vec<Track>>)
        ensures
            !self.takes(reply) ==> (n matches Next::Ask(s, req) && s == self && same_work(req, self.awaits())),
            self.takes(reply) ==> match (self, reply) {
                (ResolveMany::Loading { ids }, Reply::LoadedMany(r)) => match r {
                    Err(e) => n matches Next::Done(Err(TrackManagerError::DatabaseError(m))) && database_error(e, m),
                    Ok(found) => n matches Next::Ask(s, req) && (s matches ResolveMany::Fetching { found: f, missing }
                        && f == found && missing@ == missing_of(ids@, found@)) && same_work(req, s.awaits()),
                },
                (ResolveMany::Fetching { found, .. }, Reply::FetchedEach(arrivals)) => n matches Next::Done(Ok(v))
                    && v@ == found@ + fetched_tracks(arrivals@),
                _ => false,
            },
    {
        match (self, reply) {
            (ResolveMany::Loading { ids }, Reply::LoadedMany(r)) => match r {
                Err(e) => Next::Done(Err(db_error(e))),
                Ok(found) => {
                    let missing = missing_ids(&ids, &found);
                    let s = ResolveMany::Fetching { found, missing };
                    let req = s.pending();
                    Next::Ask(s, req)
                },
            },
            (ResolveMany::Fetching { found, .. }, Reply::FetchedEach(arrivals)) => {
                let ghost f0 = found@;
                let ghost a0 = arrivals@;
                let mut all = found;
                let mut arrivals = arrivals;
                let mut from_service: Vec<Track> = Vec::new();
                let mut i: usize = 0;
                let n = arrivals.len();
                while i < n
                    invariant
                        n == arrivals@.len(),
                        n == a0.len(),
                        i <= n,
                        forall|k: int| i <= k < n ==> #[trigger] arrivals@[k] == a0[k],
                        from_service@ == fetched_tracks(a0.take(i as int)),
                    decreases n - i,
                {
                    let mut slot: Option<Track> = None;
                    arrivals.set_and_swap(i, &mut slot);
                    assert(a0.take(i + 1).drop_last() =~= a0.take(i as int));
                    if let Some(t) = slot {
                        from_service.push(t);
                    }
                    i = i + 1;
                }
                assert(a0.take(n as int) =~= a0);
                all.append(&mut from_service);
                Next::Done(Ok(all))
            },
            (s, _) => {
                let req = s.pending();
                Next::Ask(s, req)
            },
        }
    }
}

// ── after a download ────────────────────────────────────────────────────────

/// The path that std's `Path::with_extension` gives for `path` and `ext`.
pub uninterp spec fn with_extension_of(path: Seq<char>, ext: Seq<char>) -> Seq<char>;

/// Whether `c` separates the parts of a path on some platform.
pub open spec fn is_path_separator(c: char) -> bool {
    c == '/' || c == '\\'
}

/// std `Path::with_extension`, on a path held as UTF-8 text. It panics on an
/// extension that holds a path separator, which the `requires` leaves out.
/// Claimed: the result is `with_extension_of(path@, ext@)`.
#[verifier::external_body]
fn path_with_extension(path: &str, ext: &str) -> (r: String)
    requires
        forall|i: int| 0 <= i < ext@.len() ==> !is_path_separator(#[trigger] ext@[i]),
    ensures
        r@ == with_extension_of(path@, ext@),
{
    std::path::Path::new(path).with_extension(ext).to_string_lossy().into_owned()
}

/// The analysis of a stored audio file (tempo and key), run in the
/// background once the track is saved.
pub struct AnalysisJob {
    pub track_id: String,
    pub path: String,
}

/// The lyrics lookup for a stored track, run in the background once it is
/// saved; the lyrics go next to the audio file, with extension `lrc`.
pub struct LyricsJob {
    pub track_id: String,
    pub title: String,
    pub artist: String,
    pub duration_seconds: i32,
    pub lrc_path: String,
}

/// The artist a lyrics lookup names: the first credited one, or `Desconocido`.
pub open spec fn primary_artist_of(t: TrackView) -> Seq<char> {
    if t.artists.len() > 0 {
        t.artists[0].name@
    } else {
        "Desconocido"@
    }
}

/// `jobs` is the background work after `saved` was stored with its audio at
/// `path`: analysis of that file, and lyrics for the title, the first
/// artist and the duration, written next to it with extension `lrc`.
pub open spec fn jobs_for(saved: Track, path: Seq<char>, jobs: (AnalysisJob, LyricsJob)) -> bool {
    &&& jobs.0.track_id == saved.id
    &&& jobs.0.path@ == path
    &&& jobs.1.track_id == saved.id
    &&& jobs.1.title == saved.title
    &&& jobs.1.artist@ == primary_artist_of(saved@)
    &&& jobs.1.duration_seconds == saved.duration_seconds
    &&& jobs.1.lrc_path@ == with_extension_of(path, "lrc"@)
}

/// The background work after `saved` was stored with its audio at `path`.
pub fn follow_up(saved: &Track, path: &str) -> (r: (AnalysisJob, LyricsJob))
    ensures
        jobs_for(*saved, path@, r),
{
    proof {
        reveal_strlit("lrc");
    }
    let artist = if saved.artists.len() > 0 {
        saved.artists[0].name.clone()
    } else {
        String::from_str("Desconocido")
    };
    (
        AnalysisJob { track_id: saved.id.clone(), path: String::from_str(path) },
        LyricsJob {
            track_id: saved.id.clone(),
            title: saved.title.clone(),
            artist,
            duration_seconds: saved.duration_seconds,
            lrc_path: path_with_extension(path, "lrc"),
        },
    )
}

/// The integer that serde_json's `Number::as_i64` gives for `n`, if any.
pub uninterp spec fn json_number_as_i64(n: serde_json::Number) -> Option<i64>;

/// serde_json `Number::as_i64`. Claimed: the result is `json_number_as_i64(*n)`.
#[verifier::external_body]
fn number_as_i64(n: &serde_json::Number) -> (r: Option<i64>)
    ensures
        r == json_number_as_i64(*n),
{
    n.as_i64()
}

/// The tempo and key an analysis reports: `bpm` when it is an integer
/// (cut to 32 bits), and `camelotKey` when it is a string.
pub open spec fn analysis_of(meta: JsonView) -> (Option<i32>, Option<Seq<char>>) {
    (
        match get(meta, "bpm"@) {
            JsonView::Number(n) => match json_number_as_i64(n) {
                Some(v) => Some(v as i32),
                None => None,
            },
            _ => None,
        },
        as_str(get(meta, "camelotKey"@)),
    )
}

/// The tempo and key to store from the answer of an analysis.
pub fn analysis_update(meta: &JsonValue) -> (r: (Option<i32>, Option<String>))
    ensures
        r.0 == analysis_of(meta.view()).0,
        r.1 matches Some(k) ==> analysis_of(meta.view()).1 == Some(k@),
        r.1 is None ==> analysis_of(meta.view()).1 is None,
{
    match meta {
        JsonValue::Object(es) => {
            proof {
                lemma_object_view(*es);
            }
            let bpm_key = String::from_str("bpm");
            let bpm = match find_key(es, &bpm_key) {
                Some(i) => match &es[i].1 {
                    JsonValue::Number(n) => match number_as_i64(n) {
                        Some(v) => Some(v as i32),
                        None => None,
                    },
                    _ => None,
                },
                None => None,
            };
            let key_key = String::from_str("camelotKey");
            (bpm, member_str(es, &key_key))
        },
        _ => (None, None),
    }
}

} // verus!
