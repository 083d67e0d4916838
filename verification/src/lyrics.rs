//! Lyrics from LRCLIB: which text of an answer is usable, which requests are
//! tried and in what order, and how each answer is read.

use vstd::prelude::*;
use crate::text::{is_blank, is_blank_str, push_signed_decimal, signed_decimal};

verus! {

broadcast use vstd::string::group_string_axioms;

/// Root of the LRCLIB API.
pub const BASE_URL: &'static str = "https://lrclib.net/api";

/// The user agent that requests to LRCLIB carry.
pub const USER_AGENT: &'static str = "lyra_track_manager/1.0 (+https://github.com/dei)";

/// An LRCLIB record (of `/api/get` or `/api/search`). The record's duration,
/// which nothing here reads, stays with the wire form.
#[derive(Debug)]
pub struct LrcLibResponse {
    pub id: Option<i64>,
    pub track_name: Option<String>,
    pub artist_name: Option<String>,
    pub album_name: Option<String>,
    pub instrumental: bool,
    pub plain_lyrics: Option<String>,
    pub synced_lyrics: Option<String>,
}

/// A lyrics text that holds more than white space.
pub open spec fn usable(text: Option<String>) -> bool {
    text matches Some(s) && !is_blank(s@)
}

/// The text worth saving from a record: none for an instrumental; else the
/// synced lyrics when usable, else the plain lyrics when usable.
pub open spec fn best_content_of(r: LrcLibResponse) -> Option<Seq<char>> {
    if r.instrumental {
        None
    } else if usable(r.synced_lyrics) {
        Some(r.synced_lyrics->0@)
    } else if usable(r.plain_lyrics) {
        Some(r.plain_lyrics->0@)
    } else {
        None
    }
}

fn usable_text(text: &Option<String>) -> (r: Option<&str>)
    ensures
        r matches Some(s) ==> usable(*text) && s@ == text->0@,
        r is None ==> !usable(*text),
{
    match text {
        Some(s) => if is_blank_str(s.as_str()) {
            None
        } else {
            Some(s.as_str())
        },
        None => None,
    }
}

impl LrcLibResponse {
    /// The synced lyrics when usable, else the plain ones when usable; none
    /// for an instrumental track.
    pub fn best_content(&self) -> (r: Option<&str>)
        ensures
            r matches Some(s) ==> best_content_of(*self) == Some(s@),
            r is None ==> best_content_of(*self) is None,
    {
        if self.instrumental {
            return None;
        }
        match usable_text(&self.synced_lyrics) {
            Some(s) => Some(s),
            None => usable_text(&self.plain_lyrics),
        }
    }
}

/// Why no lyrics came back.
#[derive(Debug)]
pub enum LyricsError {
    Network(String),
    NotFound,
}

impl LyricsError {
    /// The error's message.
    pub fn message(&self) -> (m: String)
        ensures
            match self {
                LyricsError::Network(e) => m@ == "Error de red hacia LRCLIB: "@ + e@,
                LyricsError::NotFound => m@ == "LRCLIB no encontró letras"@,
            },
    {
        match self {
            LyricsError::Network(e) => {
                let mut m = String::from_str("Error de red hacia LRCLIB: ");
                m.append(e.as_str());
                m
            },
            LyricsError::NotFound => String::from_str("LRCLIB no encontró letras"),
        }
    }
}

// ── requests ────────────────────────────────────────────────────────────────

/// A request to LRCLIB.
#[allow(inconsistent_fields)]
pub enum LyricsRequest {
    /// `/api/get`: exact match on title, artist and duration.
    Get { track_name: String, artist_name: String, duration_seconds: i32 },
    /// `/api/search`: loose text match on the title, and the artist if given.
    Search { track_name: String, artist_name: Option<String> },
}

/// The query parameters of a request, in order.
pub open spec fn query_of(r: LyricsRequest) -> Seq<(Seq<char>, Seq<char>)> {
    match r {
        LyricsRequest::Get { track_name, artist_name, duration_seconds } => seq![
            ("track_name"@, track_name@),
            ("artist_name"@, artist_name@),
            ("duration"@, signed_decimal(duration_seconds as int)),
        ],
        LyricsRequest::Search { track_name, artist_name } => match artist_name {
            Some(a) => seq![("track_name"@, track_name@), ("artist_name"@, a@)],
            None => seq![("track_name"@, track_name@)],
        },
    }
}

/// The view of a list of query parameters.
pub open spec fn pairs_view(v: Seq<(String, String)>) -> Seq<(Seq<char>, Seq<char>)> {
    v.map_values(|p: (String, String)| (p.0@, p.1@))
}

impl LyricsRequest {
    /// The URL the request goes to.
    pub fn url(&self) -> (u: String)
        ensures
            u@ == BASE_URL@ + (if self is Get { "/get"@ } else { "/search"@ }),
    {
        let mut u = String::from_str(BASE_URL);
        match self {
            LyricsRequest::Get { .. } => u.append("/get"),
            LyricsRequest::Search { .. } => u.append("/search"),
        }
        u
    }

    /// The query parameters of the request, in order.
    pub fn query(&self) -> (q: Vec<(String, String)>)
        ensures
            pairs_view(q@) == query_of(*self),
    {
        let mut q: Vec<(String, String)> = Vec::new();
        match self {
            LyricsRequest::Get { track_name, artist_name, duration_seconds } => {
                q.push((String::from_str("track_name"), track_name.clone()));
                q.push((String::from_str("artist_name"), artist_name.clone()));
                let mut d = String::new();
                push_signed_decimal(&mut d, *duration_seconds);
                assert(d@ =~= signed_decimal(*duration_seconds as int));
                q.push((String::from_str("duration"), d));
            },
            LyricsRequest::Search { track_name, artist_name } => {
                q.push((String::from_str("track_name"), track_name.clone()));
                if let Some(a) = artist_name {
                    q.push((String::from_str("artist_name"), a.clone()));
                }
            },
        }
        assert(pairs_view(q@) =~= query_of(*self));
        q
    }
}

/// How an HTTP status of LRCLIB is read.
pub enum StatusVerdict {
    /// `404` on `/api/get`: there is no such record.
    NotFound,
    /// Any other client or server error.
    Failed,
    /// Read the body.
    Proceed,
}

/// The status is a client or server error (`400`–`599`).
pub open spec fn is_error_status(status: u16) -> bool {
    400 <= status <= 599
}

/// How the status of an answer to `/api/get` is read.
pub fn get_status_verdict(status: u16) -> (v: StatusVerdict)
    ensures
        status == 404 ==> v is NotFound,
        status != 404 && is_error_status(status) ==> v is Failed,
        !is_error_status(status) ==> v is Proceed,
{
    if status == 404 {
        StatusVerdict::NotFound
    } else if 400 <= status && status <= 599 {
        StatusVerdict::Failed
    } else {
        StatusVerdict::Proceed
    }
}

/// How the status of an answer to `/api/search` is read.
pub fn search_status_verdict(status: u16) -> (v: StatusVerdict)
    ensures
        is_error_status(status) ==> v is Failed,
        !is_error_status(status) ==> v is Proceed,
{
    if 400 <= status && status <= 599 {
        StatusVerdict::Failed
    } else {
        StatusVerdict::Proceed
    }
}

/// The first record of a search, or `NotFound` when there is none.
pub fn first_search_result(results: Vec<LrcLibResponse>) -> (r: Result<LrcLibResponse, LyricsError>)
    ensures
        results@.len() == 0 ==> r matches Err(LyricsError::NotFound),
        results@.len() > 0 ==> r == Ok::<LrcLibResponse, LyricsError>(results@[0]),
{
    let mut results = results;
    if results.len() == 0 {
        Err(LyricsError::NotFound)
    } else {
        Ok(results.remove(0))
    }
}

// ── the three attempts ──────────────────────────────────────────────────────

/// The request of attempt `stage` (0, 1 or 2) for a track: `/api/get` with
/// title, artist and duration; then `/api/search` with title and artist;
/// then `/api/search` with the title alone.
pub open spec fn attempt_request(track_name: String, artist: String, duration: i32, stage: nat) -> LyricsRequest {
    if stage == 0 {
        LyricsRequest::Get { track_name, artist_name: artist, duration_seconds: duration }
    } else if stage == 1 {
        LyricsRequest::Search { track_name, artist_name: Some(artist) }
    } else {
        LyricsRequest::Search { track_name, artist_name: None }
    }
}

/// A search for the lyrics of one track, tried from the most precise request
/// to the loosest; the first answer with usable text wins.
pub struct LyricsSearch {
    track_name: String,
    artist: String,
    duration: i32,
    stage: usize,
}

/// What a lyrics search does next.
pub enum LyricsNext {
    /// Send this request, then hand its outcome to the search.
    Try(LyricsSearch, LyricsRequest),
    /// The search is over.
    Done(Result<LrcLibResponse, LyricsError>),
}

impl LyricsSearch {
    /// The title searched for.
    pub closed spec fn title(&self) -> String {
        self.track_name
    }

    /// The primary artist searched for.
    pub closed spec fn primary_artist(&self) -> String {
        self.artist
    }

    /// The duration searched for, in seconds.
    pub closed spec fn duration(&self) -> i32 {
        self.duration
    }

    /// How many attempts came before the pending one.
    pub closed spec fn stage(&self) -> nat {
        self.stage as nat
    }

    /// A search is always at one of its three attempts.
    pub closed spec fn wf(&self) -> bool {
        self.stage < 3
    }

    /// The first attempt for `track_name` by `primary_artist`, lasting
    /// `duration_seconds`.
    pub fn start(track_name: String, primary_artist: String, duration_seconds: i32) -> (r: (LyricsSearch, LyricsRequest))
        ensures
            r.0.wf(),
            r.0.stage() == 0,
            r.0.title() == track_name,
            r.0.primary_artist() == primary_artist,
            r.0.duration() == duration_seconds,
            r.1 == attempt_request(track_name, primary_artist, duration_seconds, 0),
    {
        let req = LyricsRequest::Get {
            track_name: track_name.clone(),
            artist_name: primary_artist.clone(),
            duration_seconds,
        };
        (LyricsSearch { track_name, artist: primary_artist, duration: duration_seconds, stage: 0 }, req)
    }

    /// Takes the outcome of the pending attempt: a record with usable text
    /// ends the search with it; otherwise the next attempt follows, and after
    /// the third the search ends with `NotFound`.
    pub fn on_outcome(self, outcome: Result<LrcLibResponse, LyricsError>) -> (n: LyricsNext)
        requires
            self.wf(),
        ensures
            match outcome {
                Ok(r) if best_content_of(r) is Some => n == LyricsNext::Done(Ok(r)),
                _ => if self.stage() < 2 {
                    n matches LyricsNext::Try(s, req) && s.wf() && s.stage() == self.stage() + 1
                        && s.title() == self.title() && s.primary_artist() == self.primary_artist()
                        && s.duration() == self.duration()
                        && req == attempt_request(self.title(), self.primary_artist(), self.duration(), s.stage())
                } else {
                    n matches LyricsNext::Done(Err(LyricsError::NotFound))
                },
            },
    {
        if let Ok(r) = outcome {
            if r.best_content().is_some() {
                return LyricsNext::Done(Ok(r));
            }
        }
        if self.stage == 0 {
            let req = LyricsRequest::Search {
                track_name: self.track_name.clone(),
                artist_name: Some(self.artist.clone()),
            };
            LyricsNext::Try(LyricsSearch { stage: 1, ..self }, req)
        } else if self.stage == 1 {
            let req = LyricsRequest::Search { track_name: self.track_name.clone(), artist_name: None };
            LyricsNext::Try(LyricsSearch { stage: 2, ..self }, req)
        } else {
            LyricsNext::Done(Err(LyricsError::NotFound))
        }
    }
}

} // verus!
