use trackhub::download::DownloadError;
use trackhub::json::JsonValue;
use trackhub::manager::{
    analysis_update, follow_up, local_track_id, local_track_outcome, played_outcome, DownloadTrack, Next, Reply,
    Request, ResolveList, ResolveMany, ResolveMetadata, SearchList, TrackManagerError, MAX_BATCH,
};
use trackhub::model::{Artist, Track, TrackResult};
use trackhub::repository::RepositoryError;
use trackhub::server::{
    default_radio_limit, deleted_ack, invalid_json_message, played_ack, request_text, unknown_action_message, Action,
};

fn track(id: &str, file: Option<&str>) -> Track {
    Track {
        id: id.to_string(),
        title: format!("title {id}"),
        duration_seconds: 200,
        thumbnail_url: None,
        thumbnail_small: None,
        thumbnail_large: None,
        bpm: None,
        camelot_key: None,
        file_path: file.map(|s| s.to_string()),
        added_at: None,
        album: None,
        artists: vec![],
    }
}

fn ask<M, T>(n: Next<M, T>) -> (M, Request) {
    match n {
        Next::Ask(m, r) => (m, r),
        Next::Done(_) => panic!("operation ended early"),
    }
}

fn done<M, T>(n: Next<M, T>) -> Result<T, TrackManagerError> {
    match n {
        Next::Done(r) => r,
        Next::Ask(..) => panic!("operation still running"),
    }
}

const ID: &str = "dQw4w9WgXcQ";

#[test]
fn local_lookup_id() {
    assert_eq!(local_track_id("https://youtu.be/dQw4w9WgXcQ"), ID);
    assert_eq!(local_track_id("  some id  "), "some id");
}

#[test]
fn local_lookup_needs_the_audio_file() {
    assert_eq!(local_track_outcome(Ok(Some(track(ID, Some("/m/x.opus"))))).unwrap().id, ID);
    assert!(matches!(local_track_outcome(Ok(Some(track(ID, None)))), Err(TrackManagerError::NoResults)));
    assert!(matches!(local_track_outcome(Ok(None)), Err(TrackManagerError::NoResults)));
    match local_track_outcome(Err(RepositoryError::Custom("x".to_string()))) {
        Err(TrackManagerError::DatabaseError(m)) => assert_eq!(m, "Error: x"),
        _ => panic!("expected a database error"),
    }
}

#[test]
fn played_outcomes() {
    assert!(played_outcome(Ok(())).is_ok());
    assert!(matches!(played_outcome(Err(RepositoryError::Custom("y".to_string()))),
        Err(TrackManagerError::DatabaseError(ref m)) if m == "Error: y"));
}

#[test]
fn manager_error_messages() {
    assert_eq!(TrackManagerError::MetadataError("m".to_string()).message(), "Metadata error: m");
    assert_eq!(TrackManagerError::NoResults.message(), "No results found");
    assert_eq!(TrackManagerError::DatabaseError("d".to_string()).message(), "Database error: d");
    assert_eq!(
        TrackManagerError::DownloadError(DownloadError::FileNotFound("z".to_string())).message(),
        "Download error: Archivo no encontrado: z"
    );
}

#[test]
fn resolving_a_named_video_prefers_the_database() {
    let (m, req) = ResolveMetadata::start(&format!("  https://www.youtube.com/watch?v={ID} "));
    assert!(matches!(req, Request::LoadTrack(ref id) if id == ID));
    let t = done(m.on_reply(Reply::Loaded(Ok(Some(track(ID, None)))))).unwrap();
    assert_eq!(t.id, ID);
}

#[test]
fn resolving_an_unknown_video_asks_the_service() {
    let (m, _) = ResolveMetadata::start(ID);
    let (m, req) = ask(m.on_reply(Reply::Loaded(Ok(None))));
    assert!(matches!(req, Request::FetchTrack(ref id) if id == ID));
    let t = done(m.on_reply(Reply::Fetched(Ok(track(ID, None))))).unwrap();
    assert_eq!(t.title, format!("title {ID}"));
}

#[test]
fn resolving_text_searches_and_takes_the_first_hit() {
    let (m, req) = ResolveMetadata::start("  bad bunny  ");
    assert!(matches!(req, Request::SearchTracks(ref q) if q == "bad bunny"));
    let (m, req) = ask(m.on_reply(Reply::Listed(Ok(vec![track("hit1", None), track("hit2", None)]))));
    assert!(matches!(req, Request::LoadTrack(ref id) if id == "hit1"));
    let (m, req) = ask(m.on_reply(Reply::Loaded(Ok(None))));
    assert!(matches!(req, Request::FetchTrack(ref id) if id == "hit1"));
    match done(m.on_reply(Reply::Fetched(Err("offline".to_string())))) {
        Err(TrackManagerError::MetadataError(e)) => assert_eq!(e, "offline"),
        _ => panic!("expected a metadata error"),
    }
}

#[test]
fn resolving_text_without_hits_is_no_results() {
    let (m, _) = ResolveMetadata::start("nothing");
    assert!(matches!(done(m.on_reply(Reply::Listed(Ok(vec![])))), Err(TrackManagerError::NoResults)));
}

#[test]
fn a_reply_of_the_wrong_kind_changes_nothing() {
    let (m, _) = ResolveMetadata::start(ID);
    let (m, req) = ask(m.on_reply(Reply::Saved(Ok(()))));
    assert!(matches!(req, Request::LoadTrack(ref id) if id == ID));
    assert!(m.accepts(&Reply::Loaded(Ok(None))));
}

#[test]
fn download_of_a_stored_track_downloads_nothing() {
    let (m, _) = DownloadTrack::start(ID);
    let d = done(m.on_reply(Reply::Loaded(Ok(Some(track(ID, Some("/m/a.opus"))))))).unwrap();
    assert_eq!(d.track.file_path.as_deref(), Some("/m/a.opus"));
    assert!(d.follow_up.is_none());
}

#[test]
fn download_fetches_saves_and_returns_the_stored_track() {
    let (m, _) = DownloadTrack::start(ID);
    let (m, req) = ask(m.on_reply(Reply::Loaded(Ok(Some(track(ID, None))))));
    assert!(matches!(req, Request::Download { ref id, .. } if id == ID));
    let (m, req) = ask(m.on_reply(Reply::Downloaded(Ok("/m/x.opus".to_string()))));
    match req {
        Request::Save(t) => assert_eq!(t.file_path.as_deref(), Some("/m/x.opus")),
        _ => panic!("expected a save"),
    }
    let d = done(m.on_reply(Reply::Saved(Ok(())))).unwrap();
    assert_eq!(d.track.file_path.as_deref(), Some("/m/x.opus"));
    assert_eq!(d.track.id, ID);
    let (analysis, lyrics) = d.follow_up.expect("background work");
    assert_eq!(analysis.path, "/m/x.opus");
    assert_eq!(analysis.track_id, ID);
    assert_eq!(lyrics.lrc_path, "/m/x.lrc");
    assert_eq!(lyrics.title, format!("title {ID}"));
}

#[test]
fn download_failures() {
    let (m, _) = DownloadTrack::start(ID);
    let (m, _) = ask(m.on_reply(Reply::Loaded(Ok(Some(track(ID, None))))));
    let r = done(m.on_reply(Reply::Downloaded(Err(DownloadError::YtDlpFailed("ERROR: x".to_string())))));
    assert!(matches!(r, Err(TrackManagerError::DownloadError(DownloadError::YtDlpFailed(_)))));
    let (m, _) = DownloadTrack::start(ID);
    let (m, _) = ask(m.on_reply(Reply::Loaded(Ok(Some(track(ID, None))))));
    let (m, _) = ask(m.on_reply(Reply::Downloaded(Ok("/m/x.opus".to_string()))));
    let r = done(m.on_reply(Reply::Saved(Err(RepositoryError::Custom("dup".to_string())))));
    assert!(matches!(r, Err(TrackManagerError::DatabaseError(ref m)) if m == "Error: dup"));
}

#[test]
fn background_work_after_a_download() {
    let mut t = track(ID, Some("/music/x.opus"));
    let (a, l) = follow_up(&t, "/music/x.opus");
    assert_eq!(a.path, "/music/x.opus");
    assert_eq!(l.artist, "Desconocido");
    assert_eq!(l.lrc_path, "/music/x.lrc");
    assert_eq!(l.duration_seconds, 200);
    t.artists = vec![Artist { id: "a".to_string(), name: "First".to_string() }, Artist { id: "b".to_string(), name: "Second".to_string() }];
    let (_, l) = follow_up(&t, "/music/x.opus");
    assert_eq!(l.artist, "First");
    assert_eq!(l.track_id, ID);
}

#[test]
fn analysis_answer_values() {
    let meta = JsonValue::Object(vec![
        ("bpm".to_string(), JsonValue::Number(128u64.into())),
        ("camelotKey".to_string(), JsonValue::Str("8A".to_string())),
    ]);
    assert_eq!(analysis_update(&meta), (Some(128), Some("8A".to_string())));
    let big = JsonValue::Object(vec![("bpm".to_string(), JsonValue::Number(4_294_967_424u64.into()))]);
    assert_eq!(analysis_update(&big), (Some(128), None));
    let float = JsonValue::Object(vec![("bpm".to_string(), JsonValue::Number(serde_json::Number::from_f64(120.5).unwrap()))]);
    assert_eq!(analysis_update(&float), (None, None));
    assert_eq!(analysis_update(&JsonValue::Null), (None, None));
}

#[test]
fn radio_marks_entries_and_keeps_the_limit() {
    let (m, req) = ResolveList::radio("seed", 2);
    assert!(matches!(req, Request::Radio(ref s) if s == "seed"));
    let (m, req) = ask(m.on_reply(Reply::Listed(Ok(vec![track("a", None), track("b", None), track("c", None)]))));
    assert!(matches!(req, Request::LoadTrack(ref id) if id == "a"));
    let (m, req) = ask(m.on_reply(Reply::Loaded(Ok(Some(track("a", Some("/m/a.opus")))))));
    assert!(matches!(req, Request::LoadTrack(ref id) if id == "b"));
    let (m, req) = ask(m.on_reply(Reply::Loaded(Ok(None))));
    assert!(matches!(req, Request::LoadTrack(ref id) if id == "c"));
    let list = done(m.on_reply(Reply::Loaded(Ok(None)))).unwrap();
    assert_eq!(list.len(), 2);
    assert!(matches!(list[0], TrackResult::Cached(_)));
    assert!(matches!(list[1], TrackResult::Partial { ref id, .. } if id == "b"));
}

#[test]
fn album_keeps_every_entry_and_stops_on_a_failed_read() {
    let (m, req) = ResolveList::album("al");
    assert!(matches!(req, Request::AlbumTracks(ref s) if s == "al"));
    let (m, _) = ask(m.on_reply(Reply::Listed(Ok(vec![track("a", None)]))));
    assert_eq!(done(m.on_reply(Reply::Loaded(Ok(None)))).unwrap().len(), 1);
    let (m, _) = ResolveList::album("al");
    let (m, _) = ask(m.on_reply(Reply::Listed(Ok(vec![track("a", None), track("b", None)]))));
    assert!(matches!(done(m.on_reply(Reply::Loaded(Err(RepositoryError::Custom("x".to_string()))))),
        Err(TrackManagerError::DatabaseError(_))));
    let (m, _) = ResolveList::album("al");
    assert!(done(m.on_reply(Reply::Listed(Ok(vec![])))).unwrap().is_empty());
    let (m, _) = ResolveList::album("al");
    assert!(matches!(done(m.on_reply(Reply::Listed(Err("down".to_string())))),
        Err(TrackManagerError::MetadataError(ref e)) if e == "down"));
}

#[test]
fn search_replaces_locally_stored_hits() {
    let (m, req) = SearchList::start("q", 5);
    assert!(matches!(req, Request::SearchPage { ref query, limit: 5 } if query == "q"));
    let (m, req) = ask(m.on_reply(Reply::Listed(Ok(vec![track(ID, None), track("other", None)]))));
    assert!(matches!(req, Request::LoadTrack(ref id) if id == ID));
    let (m, req) = ask(m.on_reply(Reply::Loaded(Ok(Some(track(ID, Some("/m/d.opus")))))));
    assert!(matches!(req, Request::LoadTrack(ref id) if id == "other"));
    let hits = done(m.on_reply(Reply::Loaded(Err(RepositoryError::Custom("x".to_string()))))).unwrap();
    assert_eq!(hits[0].file_path.as_deref(), Some("/m/d.opus"));
    assert_eq!(hits[1].id, "other");
    assert!(hits[1].file_path.is_none());
}

#[test]
fn resolve_many_reads_a_capped_batch_then_fetches_what_is_missing() {
    let ids: Vec<String> = (0..300).map(|i| format!("id{i}")).collect();
    let (m, req) = ResolveMany::start(&ids);
    match req {
        Request::LoadMany(batch) => {
            assert_eq!(batch.len(), MAX_BATCH);
            assert_eq!(batch[249], "id249");
        },
        _ => panic!("expected a batch read"),
    }
    let found = vec![track("id1", None), track("id3", None)];
    let (m, req) = ask(m.on_reply(Reply::LoadedMany(Ok(found))));
    match req {
        Request::FetchEach(missing) => {
            assert_eq!(missing.len(), 248);
            assert_eq!(missing[0], "id0");
            assert_eq!(missing[1], "id2");
            assert!(!missing.contains(&"id1".to_string()));
        },
        _ => panic!("expected fetches"),
    }
    let all = done(m.on_reply(Reply::FetchedEach(vec![Some(track("id7", None)), None, Some(track("id0", None))]))).unwrap();
    let ids: Vec<&str> = all.iter().map(|t| t.id.as_str()).collect();
    assert_eq!(ids, vec!["id1", "id3", "id7", "id0"]);
}

#[test]
fn resolve_many_of_few_ids_and_failed_batch() {
    let ids = vec!["a".to_string(), "a".to_string()];
    let (m, _) = ResolveMany::start(&ids);
    let (m, req) = ask(m.on_reply(Reply::LoadedMany(Ok(vec![]))));
    assert!(matches!(req, Request::FetchEach(ref v) if v.len() == 2));
    assert!(done(m.on_reply(Reply::FetchedEach(vec![]))).unwrap().is_empty());
    let (m, _) = ResolveMany::start(&ids);
    assert!(matches!(done(m.on_reply(Reply::LoadedMany(Err(RepositoryError::Custom("x".to_string()))))),
        Err(TrackManagerError::DatabaseError(_))));
}

#[test]
fn protocol_actions_and_texts() {
    assert_eq!(default_radio_limit(), 15);
    for (name, action) in [
        ("resolve", Action::Resolve),
        ("search", Action::Search),
        ("download", Action::Download),
        ("remove", Action::Remove),
        ("radio", Action::Radio),
        ("album", Action::Album),
        ("get_all_ids", Action::GetAllIds),
        ("played", Action::Played),
        ("Resolve", Action::Unknown),
        ("", Action::Unknown),
    ] {
        assert_eq!(Action::parse(&name.to_string()), action);
    }
    assert_eq!(request_text("  {\"action\":\"x\"} \r"), Some("{\"action\":\"x\"}".to_string()));
    assert_eq!(request_text(" \t "), None);
    assert_eq!(unknown_action_message("fly"), "Acción desconocida: fly");
    assert_eq!(invalid_json_message("EOF"), "JSON inválido: EOF");
    assert_eq!(deleted_ack(), "deleted");
    assert_eq!(played_ack(), "ok");
}

#[test]
fn search_keeps_at_most_limit_hits() {
    let (m, _) = SearchList::start("q", 1);
    let (m, req) = ask(m.on_reply(Reply::Listed(Ok(vec![track("first", None), track("second", None)]))));
    assert!(matches!(req, Request::LoadTrack(ref id) if id == "first"));
    let hits = done(m.on_reply(Reply::Loaded(Ok(None)))).unwrap();
    assert_eq!(hits.len(), 1);
    assert_eq!(hits[0].id, "first");
    let (m, _) = SearchList::start("q", 0);
    assert!(done(m.on_reply(Reply::Listed(Ok(vec![track("first", None)])))).unwrap().is_empty());
}
