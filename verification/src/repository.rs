//! The storage side of the catalogue: errors, how rows become tracks, what a
//! save writes and in which order, and how a track is purged.

use vstd::prelude::*;
use crate::model::{Album, Artist, Track, TrackView, clone_opt_string};

verus! {

broadcast use vstd::string::group_string_axioms;

/// sqlx's error type, carried through unchanged.
#[verifier::external_type_specification]
#[verifier::external_body]
pub struct ExSqlxError(sqlx::Error);

/// std's I/O error type, carried through unchanged.
#[verifier::external_type_specification]
#[verifier::external_body]
pub struct ExIoError(std::io::Error);

/// Why a storage operation failed.
#[derive(Debug)]
pub enum RepositoryError {
    Sqlx(sqlx::Error),
    Io(std::io::Error),
    Custom(String),
}

/// `t` is a text that the `Display` impl of `e` may produce.
pub open spec fn displays_as<T: core::fmt::Display>(e: &T, t: String) -> bool {
    vstd::string::to_string_from_display_ensures::<T>(e, t)
}

impl RepositoryError {
    /// The error's message: `Database error: `, `I/O error: ` or `Error: `,
    /// then the text of what failed.
    pub fn message(&self) -> (m: String)
        ensures
            match self {
                RepositoryError::Sqlx(e) => exists|t: String|
                    displays_as(e, t) && m@ == "Database error: "@ + t@,
                RepositoryError::Io(e) => exists|t: String|
                    displays_as(e, t) && m@ == "I/O error: "@ + t@,
                RepositoryError::Custom(msg) => m@ == "Error: "@ + msg@,
            },
    {
        match self {
            RepositoryError::Sqlx(e) => {
                let t = e.to_string();
                let mut m = String::from_str("Database error: ");
                m.append(t.as_str());
                assert(displays_as(e, t));
                m
            },
            RepositoryError::Io(e) => {
                let t = e.to_string();
                let mut m = String::from_str("I/O error: ");
                m.append(t.as_str());
                assert(displays_as(e, t));
                m
            },
            RepositoryError::Custom(msg) => {
                let mut m = String::from_str("Error: ");
                m.append(msg.as_str());
                m
            },
        }
    }
}

// ── rows ────────────────────────────────────────────────────────────────────

/// A row of `tracks` joined with its album (`added_at` in microseconds since
/// the Unix epoch).
pub struct TrackRow {
    pub uuid: String,
    pub title: String,
    pub duration_seconds: i32,
    pub thumbnail_small: Option<String>,
    pub thumbnail_large: Option<String>,
    pub bpm: Option<i32>,
    pub camelot_key: Option<String>,
    pub file_path: Option<String>,
    pub added_at: Option<i64>,
    pub album_id: Option<String>,
    pub album_name: Option<String>,
}

/// A row of `track_artists` joined with `artists`.
pub struct ArtistRow {
    pub track_uuid: String,
    pub id: String,
    pub name: String,
}

/// The album of a row: present when both its ID and its name are.
pub open spec fn album_of(id: Option<String>, name: Option<String>) -> Option<Album> {
    match (id, name) {
        (Some(i), Some(n)) => Some(Album { id: i, name: n }),
        _ => None,
    }
}

/// The track that a row and its artists describe.
pub open spec fn track_of_row(row: TrackRow, artists: Seq<Artist>) -> TrackView {
    TrackView {
        id: row.uuid,
        title: row.title,
        duration_seconds: row.duration_seconds,
        thumbnail_url: None,
        thumbnail_small: row.thumbnail_small,
        thumbnail_large: row.thumbnail_large,
        bpm: row.bpm,
        camelot_key: row.camelot_key,
        file_path: row.file_path,
        added_at: row.added_at,
        album: album_of(row.album_id, row.album_name),
        artists,
    }
}

/// The track that `row` and `artists` describe.
pub fn track_from_row(row: TrackRow, artists: Vec<Artist>) -> (t: Track)
    ensures
        t@ == track_of_row(row, artists@),
{
    let album = match (row.album_id, row.album_name) {
        (Some(id), Some(name)) => Some(Album { id, name }),
        _ => None,
    };
    Track {
        id: row.uuid,
        title: row.title,
        duration_seconds: row.duration_seconds,
        thumbnail_url: None,
        thumbnail_small: row.thumbnail_small,
        thumbnail_large: row.thumbnail_large,
        bpm: row.bpm,
        camelot_key: row.camelot_key,
        file_path: row.file_path,
        added_at: row.added_at,
        album,
        artists,
    }
}

fn copy_row(row: &TrackRow) -> (r: TrackRow)
    ensures
        r == *row,
{
    TrackRow {
        uuid: row.uuid.clone(),
        title: row.title.clone(),
        duration_seconds: row.duration_seconds,
        thumbnail_small: clone_opt_string(&row.thumbnail_small),
        thumbnail_large: clone_opt_string(&row.thumbnail_large),
        bpm: row.bpm,
        camelot_key: clone_opt_string(&row.camelot_key),
        file_path: clone_opt_string(&row.file_path),
        added_at: row.added_at,
        album_id: clone_opt_string(&row.album_id),
        album_name: clone_opt_string(&row.album_name),
    }
}

/// The artists of track `uuid` among `rows`, in row order.
pub open spec fn artists_of(rows: Seq<ArtistRow>, uuid: Seq<char>) -> Seq<Artist>
    decreases rows.len(),
{
    if rows.len() == 0 {
        Seq::empty()
    } else if rows.last().track_uuid@ == uuid {
        artists_of(rows.drop_last(), uuid).push(Artist { id: rows.last().id, name: rows.last().name })
    } else {
        artists_of(rows.drop_last(), uuid)
    }
}

/// The artists of track `uuid` among `rows`, in row order.
pub fn artists_for(rows: &Vec<ArtistRow>, uuid: &String) -> (r: Vec<Artist>)
    ensures
        r@ == artists_of(rows@, uuid@),
{
    let mut r: Vec<Artist> = Vec::new();
    let mut j: usize = 0;
    while j < rows.len()
        invariant
            j <= rows@.len(),
            r@ == artists_of(rows@.subrange(0, j as int), uuid@),
        decreases rows@.len() - j,
    {
        assert(rows@.subrange(0, j + 1).drop_last() =~= rows@.subrange(0, j as int));
        if rows[j].track_uuid == *uuid {
            r.push(Artist { id: rows[j].id.clone(), name: rows[j].name.clone() });
        }
        j = j + 1;
    }
    assert(rows@.subrange(0, rows@.len() as int) =~= rows@);
    r
}

/// The track of a single read: `row` with the artists credited to its UUID
/// among `artist_rows`, in row order.
pub fn track_with_artist_rows(row: TrackRow, artist_rows: &Vec<ArtistRow>) -> (t: Track)
    ensures
        t@ == track_of_row(row, artists_of(artist_rows@, row.uuid@)),
{
    let artists = artists_for(artist_rows, &row.uuid);
    track_from_row(row, artists)
}

/// An earlier row has the same UUID as row `i`.
pub open spec fn seen_before(rows: Seq<TrackRow>, i: int) -> bool {
    exists|j: int| 0 <= j < i && rows[j].uuid@ == rows[i].uuid@
}

/// The artists that row `i` gets when tracks are assembled: those of its
/// UUID, handed out once, to the first row with that UUID.
pub open spec fn grouped_artists(rows: Seq<TrackRow>, artist_rows: Seq<ArtistRow>, i: int) -> Seq<Artist> {
    if seen_before(rows, i) {
        Seq::empty()
    } else {
        artists_of(artist_rows, rows[i].uuid@)
    }
}

fn uuid_seen_before(rows: &Vec<TrackRow>, i: usize) -> (b: bool)
    requires
        i < rows@.len(),
    ensures
        b == seen_before(rows@, i as int),
{
    let mut j: usize = 0;
    while j < i
        invariant
            i < rows@.len(),
            j <= i,
            forall|k: int| 0 <= k < j ==> rows@[k].uuid@ != rows@[i as int].uuid@,
        decreases i - j,
    {
        if rows[j].uuid == rows[i].uuid {
            return true;
        }
        j = j + 1;
    }
    false
}

/// Tracks from a batch of rows and all their artist rows (two flat queries),
/// in row order.
pub fn assemble_tracks(rows: &Vec<TrackRow>, artist_rows: &Vec<ArtistRow>) -> (r: Vec<Track>)
    ensures
        r@.len() == rows@.len(),
        forall|i: int|
            0 <= i < rows@.len() ==> (#[trigger] r@[i])@ == track_of_row(
                rows@[i],
                grouped_artists(rows@, artist_rows@, i),
            ),
{
    let mut r: Vec<Track> = Vec::new();
    let mut i: usize = 0;
    while i < rows.len()
        invariant
            i <= rows@.len(),
            r@.len() == i,
            forall|k: int|
                0 <= k < i ==> (#[trigger] r@[k])@ == track_of_row(
                    rows@[k],
                    grouped_artists(rows@, artist_rows@, k),
                ),
        decreases rows@.len() - i,
    {
        let artists = if uuid_seen_before(rows, i) {
            Vec::new()
        } else {
            artists_for(artist_rows, &rows[i].uuid)
        };
        let t = track_from_row(copy_row(&rows[i]), artists);
        r.push(t);
        i = i + 1;
    }
    r
}

/// The UUIDs of a batch of rows, in order.
pub fn row_uuids(rows: &Vec<TrackRow>) -> (r: Vec<String>)
    ensures
        r@.len() == rows@.len(),
        forall|i: int| 0 <= i < rows@.len() ==> (#[trigger] r@[i])@ == rows@[i].uuid@,
{
    let mut r: Vec<String> = Vec::new();
    let mut i: usize = 0;
    while i < rows.len()
        invariant
            i <= rows@.len(),
            r@.len() == i,
            forall|k: int| 0 <= k < i ==> (#[trigger] r@[k])@ == rows@[k].uuid@,
        decreases rows@.len() - i,
    {
        r.push(rows[i].uuid.clone());
        i = i + 1;
    }
    r
}

/// The IDs that the batch read asks the database for: nothing is asked
/// when there are none, and the answer is then empty.
pub fn batch_track_query(ids: Vec<String>) -> (q: Option<Vec<String>>)
    ensures
        ids@.len() == 0 ==> q is None,
        ids@.len() > 0 ==> q == Some(ids),
{
    if ids.len() == 0 {
        None
    } else {
        Some(ids)
    }
}

/// The track UUIDs whose artists the batch read asks for: nothing is asked
/// when no track row was found, and the answer is then empty.
pub fn batch_artist_query(rows: &Vec<TrackRow>) -> (q: Option<Vec<String>>)
    ensures
        rows@.len() == 0 ==> q is None,
        rows@.len() > 0 ==> (q matches Some(u) && u@.len() == rows@.len() && forall|i: int|
            0 <= i < rows@.len() ==> (#[trigger] u@[i])@ == rows@[i].uuid@),
{
    if rows.len() == 0 {
        None
    } else {
        Some(row_uuids(rows))
    }
}

// ── saving ──────────────────────────────────────────────────────────────────

/// One statement of the save of a track.
pub enum InsertStep {
    /// Add the album unless it exists.
    Album { id: String, name: String },
    /// Add the artist unless it exists.
    Artist { id: String, name: String },
    /// Add the track; when it exists, only its file path is updated.
    Track {
        uuid: String,
        title: String,
        duration_seconds: i32,
        album_id: Option<String>,
        thumbnail_small: Option<String>,
        thumbnail_large: Option<String>,
        bpm: Option<i32>,
        camelot_key: Option<String>,
        file_path: Option<String>,
    },
    /// Credit the artist on the track unless already credited.
    Link { track_uuid: String, artist_id: String },
}

/// The album statement of a save: one when the track has an album.
pub open spec fn album_steps(album: Option<Album>) -> Seq<InsertStep> {
    match album {
        Some(a) => seq![InsertStep::Album { id: a.id, name: a.name }],
        None => Seq::empty(),
    }
}

/// The artist statements of a save, one per credited artist.
pub open spec fn artist_steps(artists: Seq<Artist>) -> Seq<InsertStep> {
    artists.map_values(|a: Artist| InsertStep::Artist { id: a.id, name: a.name })
}

/// The track statement of a save.
pub open spec fn track_step(t: TrackView) -> InsertStep {
    InsertStep::Track {
        uuid: t.id,
        title: t.title,
        duration_seconds: t.duration_seconds,
        album_id: match t.album {
            Some(a) => Some(a.id),
            None => None,
        },
        thumbnail_small: t.thumbnail_small,
        thumbnail_large: t.thumbnail_large,
        bpm: t.bpm,
        camelot_key: t.camelot_key,
        file_path: t.file_path,
    }
}

/// The credit statements of a save, one per credited artist.
pub open spec fn link_steps(track_uuid: String, artists: Seq<Artist>) -> Seq<InsertStep> {
    artists.map_values(|a: Artist| InsertStep::Link { track_uuid, artist_id: a.id })
}

/// The statements that save a track, in the order they run in one
/// transaction: album, artists, track, credits.
pub open spec fn insert_steps(t: TrackView) -> Seq<InsertStep> {
    album_steps(t.album) + artist_steps(t.artists) + seq![track_step(t)] + link_steps(t.id, t.artists)
}

/// The statements that save `track`, in order.
pub fn insert_plan(track: &Track) -> (steps: Vec<InsertStep>)
    ensures
        steps@ == insert_steps(track@),
{
    let mut steps: Vec<InsertStep> = Vec::new();
    if let Some(a) = &track.album {
        steps.push(InsertStep::Album { id: a.id.clone(), name: a.name.clone() });
    }
    let ghost head = steps@;
    assert(head =~= album_steps(track@.album));
    let n = track.artists.len();
    let mut i: usize = 0;
    while i < n
        invariant
            n == track.artists@.len(),
            i <= n,
            steps@ == head + artist_steps(track.artists@.subrange(0, i as int)),
        decreases n - i,
    {
        let a = &track.artists[i];
        steps.push(InsertStep::Artist { id: a.id.clone(), name: a.name.clone() });
        i = i + 1;
        assert(artist_steps(track.artists@.subrange(0, i as int)) =~= artist_steps(
            track.artists@.subrange(0, i - 1),
        ).push(InsertStep::Artist { id: a.id, name: a.name }));
        assert(steps@ =~= head + artist_steps(track.artists@.subrange(0, i as int)));
    }
    assert(track.artists@.subrange(0, n as int) =~= track.artists@);
    let album_id = match &track.album {
        Some(a) => Some(a.id.clone()),
        None => None,
    };
    steps.push(
        InsertStep::Track {
            uuid: track.id.clone(),
            title: track.title.clone(),
            duration_seconds: track.duration_seconds,
            album_id,
            thumbnail_small: clone_opt_string(&track.thumbnail_small),
            thumbnail_large: clone_opt_string(&track.thumbnail_large),
            bpm: track.bpm,
            camelot_key: clone_opt_string(&track.camelot_key),
            file_path: clone_opt_string(&track.file_path),
        },
    );
    let ghost mid = steps@;
    assert(mid =~= head + artist_steps(track@.artists) + seq![track_step(track@)]);
    let mut i: usize = 0;
    while i < n
        invariant
            n == track.artists@.len(),
            i <= n,
            steps@ == mid + link_steps(track.id, track.artists@.subrange(0, i as int)),
        decreases n - i,
    {
        let a = &track.artists[i];
        steps.push(InsertStep::Link { track_uuid: track.id.clone(), artist_id: a.id.clone() });
        i = i + 1;
        assert(link_steps(track.id, track.artists@.subrange(0, i as int)) =~= link_steps(
            track.id,
            track.artists@.subrange(0, i - 1),
        ).push(InsertStep::Link { track_uuid: track.id, artist_id: a.id }));
        assert(steps@ =~= mid + link_steps(track.id, track.artists@.subrange(0, i as int)));
    }
    assert(steps@ =~= insert_steps(track@));
    steps
}

// ── purging ─────────────────────────────────────────────────────────────────

/// What became of the removal of a track's audio file.
pub enum FileRemoval {
    Removed,
    AlreadyGone,
    Failed(std::io::Error),
}

/// The next thing a purge does.
pub enum DeleteStep {
    /// Remove the audio file at this path.
    RemoveFile(String),
    /// Delete the database record of the track with this UUID.
    DeleteRecord(String),
    /// The purge is over, with this outcome.
    Done(Result<(), RepositoryError>),
}

/// The message of a purge of a track that does not exist.
pub open spec fn not_found_message(uuid: Seq<char>) -> Seq<char> {
    "Track "@ + uuid + " no encontrado"@
}

/// After loading the track `uuid`: a missing track ends the purge with an
/// error, a stored file is removed first, otherwise the record goes.
pub fn delete_after_load(uuid: &str, loaded: Result<Option<Track>, RepositoryError>) -> (s: DeleteStep)
    ensures
        match loaded {
            Err(e) => s == DeleteStep::Done(Err(e)),
            Ok(None) => s matches DeleteStep::Done(Err(RepositoryError::Custom(m)))
                && m@ == not_found_message(uuid@),
            Ok(Some(t)) => match t.file_path {
                Some(p) => s == DeleteStep::RemoveFile(p),
                None => s matches DeleteStep::DeleteRecord(u) && u@ == uuid@,
            },
        },
{
    match loaded {
        Err(e) => DeleteStep::Done(Err(e)),
        Ok(None) => {
            let mut m = String::from_str("Track ");
            m.append(uuid);
            m.append(" no encontrado");
            DeleteStep::Done(Err(RepositoryError::Custom(m)))
        },
        Ok(Some(t)) => match t.file_path {
            Some(p) => DeleteStep::RemoveFile(p),
            None => DeleteStep::DeleteRecord(String::from_str(uuid)),
        },
    }
}

/// After removing the audio file of track `uuid`: a file that is gone either
/// way lets the record go; any other failure ends the purge.
pub fn delete_after_removal(uuid: &str, removal: FileRemoval) -> (s: DeleteStep)
    ensures
        match removal {
            FileRemoval::Failed(e) => s == DeleteStep::Done(Err(RepositoryError::Io(e))),
            _ => s matches DeleteStep::DeleteRecord(u) && u@ == uuid@,
        },
{
    match removal {
        FileRemoval::Failed(e) => DeleteStep::Done(Err(RepositoryError::Io(e))),
        _ => DeleteStep::DeleteRecord(String::from_str(uuid)),
    }
}

} // verus!
