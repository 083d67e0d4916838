use trackhub::model::{Album, Artist, Track, TrackResult};
use trackhub::repository::{
    assemble_tracks, batch_artist_query, batch_track_query, delete_after_load, delete_after_removal, insert_plan, row_uuids, track_from_row,
    track_with_artist_rows, ArtistRow,
    DeleteStep, FileRemoval, InsertStep, RepositoryError, TrackRow,
};

fn row(uuid: &str, album: (Option<&str>, Option<&str>)) -> TrackRow {
    TrackRow {
        uuid: uuid.to_string(),
        title: format!("title {uuid}"),
        duration_seconds: 180,
        thumbnail_small: Some("s".to_string()),
        thumbnail_large: None,
        bpm: Some(120),
        camelot_key: Some("8A".to_string()),
        file_path: None,
        added_at: Some(1_700_000_000_000_000),
        album_id: album.0.map(|s| s.to_string()),
        album_name: album.1.map(|s| s.to_string()),
    }
}

fn arow(track: &str, id: &str) -> ArtistRow {
    ArtistRow { track_uuid: track.to_string(), id: id.to_string(), name: format!("name {id}") }
}

fn track(id: &str, file: Option<&str>) -> Track {
    Track {
        id: id.to_string(),
        title: "T".to_string(),
        duration_seconds: 200,
        thumbnail_url: None,
        thumbnail_small: None,
        thumbnail_large: None,
        bpm: None,
        camelot_key: None,
        file_path: file.map(|s| s.to_string()),
        added_at: None,
        album: None,
        artists: vec![],
    }
}

#[test]
fn row_becomes_track_with_album_only_when_complete() {
    let t = track_from_row(row("u1", (Some("al"), Some("Album"))), vec![]);
    assert_eq!(t.id, "u1");
    assert_eq!(t.title, "title u1");
    assert_eq!(t.bpm, Some(120));
    assert_eq!(t.added_at, Some(1_700_000_000_000_000));
    assert!(t.thumbnail_url.is_none());
    let al = t.album.unwrap();
    assert_eq!((al.id.as_str(), al.name.as_str()), ("al", "Album"));
    assert!(track_from_row(row("u2", (Some("al"), None)), vec![]).album.is_none());
    assert!(track_from_row(row("u3", (None, Some("Album"))), vec![]).album.is_none());
}

#[test]
fn batch_assembly_groups_artists_by_track_in_row_order() {
    let rows = vec![row("a", (None, None)), row("b", (None, None)), row("c", (None, None))];
    let artists = vec![arow("b", "x"), arow("a", "y"), arow("b", "z")];
    let tracks = assemble_tracks(&rows, &artists);
    assert_eq!(tracks.len(), 3);
    let ids = |t: &Track| t.artists.iter().map(|a| a.id.clone()).collect::<Vec<_>>();
    assert_eq!(ids(&tracks[0]), vec!["y"]);
    assert_eq!(ids(&tracks[1]), vec!["x", "z"]);
    assert!(tracks[2].artists.is_empty());
    assert_eq!(tracks[1].artists[0].name, "name x");
}

#[test]
fn a_repeated_row_gets_no_artists_the_second_time() {
    let rows = vec![row("a", (None, None)), row("a", (None, None))];
    let tracks = assemble_tracks(&rows, &vec![arow("a", "y")]);
    assert_eq!(tracks[0].artists.len(), 1);
    assert!(tracks[1].artists.is_empty());
}

#[test]
fn row_uuids_in_order() {
    let rows = vec![row("a", (None, None)), row("b", (None, None))];
    assert_eq!(row_uuids(&rows), vec!["a", "b"]);
    assert!(row_uuids(&vec![]).is_empty());
}

#[test]
fn save_runs_album_artists_track_then_credits() {
    let mut t = track("id1", Some("/m/id1.opus"));
    t.album = Some(Album { id: "al".to_string(), name: "Album".to_string() });
    t.artists = vec![
        Artist { id: "a1".to_string(), name: "One".to_string() },
        Artist { id: "a2".to_string(), name: "Two".to_string() },
    ];
    let steps = insert_plan(&t);
    assert_eq!(steps.len(), 6);
    assert!(matches!(&steps[0], InsertStep::Album { id, name } if id == "al" && name == "Album"));
    assert!(matches!(&steps[1], InsertStep::Artist { id, .. } if id == "a1"));
    assert!(matches!(&steps[2], InsertStep::Artist { id, .. } if id == "a2"));
    assert!(matches!(&steps[3], InsertStep::Track { uuid, album_id, file_path, .. }
        if uuid == "id1" && album_id.as_deref() == Some("al") && file_path.as_deref() == Some("/m/id1.opus")));
    assert!(matches!(&steps[4], InsertStep::Link { track_uuid, artist_id } if track_uuid == "id1" && artist_id == "a1"));
    assert!(matches!(&steps[5], InsertStep::Link { artist_id, .. } if artist_id == "a2"));
}

#[test]
fn save_of_a_bare_track_is_one_statement() {
    let steps = insert_plan(&track("x", None));
    assert_eq!(steps.len(), 1);
    assert!(matches!(&steps[0], InsertStep::Track { album_id: None, .. }));
}

#[test]
fn purge_of_a_missing_track_is_an_error() {
    match delete_after_load("abc", Ok(None)) {
        DeleteStep::Done(Err(RepositoryError::Custom(m))) => assert_eq!(m, "Track abc no encontrado"),
        _ => panic!("expected an error"),
    }
}

#[test]
fn purge_removes_the_file_before_the_record() {
    match delete_after_load("abc", Ok(Some(track("abc", Some("/m/abc.opus"))))) {
        DeleteStep::RemoveFile(p) => assert_eq!(p, "/m/abc.opus"),
        _ => panic!("expected file removal"),
    }
    match delete_after_load("abc", Ok(Some(track("abc", None)))) {
        DeleteStep::DeleteRecord(u) => assert_eq!(u, "abc"),
        _ => panic!("expected record deletion"),
    }
}

#[test]
fn purge_goes_on_when_the_file_is_already_gone() {
    assert!(matches!(delete_after_removal("abc", FileRemoval::Removed), DeleteStep::DeleteRecord(ref u) if u == "abc"));
    assert!(matches!(delete_after_removal("abc", FileRemoval::AlreadyGone), DeleteStep::DeleteRecord(_)));
    let e = std::io::Error::new(std::io::ErrorKind::PermissionDenied, "denied");
    match delete_after_removal("abc", FileRemoval::Failed(e)) {
        DeleteStep::Done(Err(RepositoryError::Io(e))) => assert_eq!(e.kind(), std::io::ErrorKind::PermissionDenied),
        _ => panic!("expected an I/O error"),
    }
}

#[test]
fn purge_passes_on_a_failed_read() {
    let r = delete_after_load("abc", Err(RepositoryError::Custom("boom".to_string())));
    assert!(matches!(r, DeleteStep::Done(Err(RepositoryError::Custom(ref m))) if m == "boom"));
}

#[test]
fn repository_error_messages() {
    assert_eq!(RepositoryError::Custom("x".to_string()).message(), "Error: x");
    let io = std::io::Error::new(std::io::ErrorKind::Other, "gone");
    assert_eq!(RepositoryError::Io(io).message(), "I/O error: gone");
    assert_eq!(RepositoryError::Sqlx(sqlx::Error::RowNotFound).message(),
        format!("Database error: {}", sqlx::Error::RowNotFound));
}

#[test]
fn listing_entry_is_cached_only_with_local_audio() {
    let r = TrackResult::from_track_and_db(track("a", None), Some(track("a", Some("/m/a.opus"))));
    assert!(matches!(r, TrackResult::Cached(ref t) if t.file_path.as_deref() == Some("/m/a.opus")));
    let r = TrackResult::from_track_and_db(track("a", None), Some(track("a", None)));
    assert!(matches!(r, TrackResult::Partial { ref id, duration_seconds: 200, .. } if id == "a"));
    let r = TrackResult::from_track_and_db(track("b", None), None);
    assert!(matches!(r, TrackResult::Partial { ref id, .. } if id == "b"));
}

#[test]
fn batch_read_and_single_read_build_the_same_track() {
    let rows = vec![row("a", (Some("al"), Some("Album"))), row("b", (None, None))];
    let batch_artists = vec![arow("b", "x"), arow("a", "y"), arow("b", "z")];
    let batch = assemble_tracks(&rows, &batch_artists);
    let single = track_with_artist_rows(row("b", (None, None)), &vec![arow("b", "z"), arow("b", "x")]);
    let b = &batch[1];
    assert_eq!(b.id, single.id);
    assert_eq!(b.title, single.title);
    assert_eq!(b.duration_seconds, single.duration_seconds);
    assert_eq!(b.bpm, single.bpm);
    assert_eq!(b.camelot_key, single.camelot_key);
    assert_eq!(b.added_at, single.added_at);
    assert_eq!(b.album.is_none(), single.album.is_none());
    let mut ba: Vec<String> = b.artists.iter().map(|a| a.id.clone()).collect();
    let mut sa: Vec<String> = single.artists.iter().map(|a| a.id.clone()).collect();
    assert_eq!(sa, vec!["z", "x"]);
    ba.sort();
    sa.sort();
    assert_eq!(ba, sa);
    let single_a = track_with_artist_rows(row("a", (Some("al"), Some("Album"))), &vec![arow("a", "y"), arow("b", "x")]);
    assert_eq!(single_a.artists.len(), 1);
    assert_eq!(single_a.album.unwrap().name, batch[0].album.clone().unwrap().name);
}

#[test]
fn batch_read_skips_queries_with_nothing_to_ask() {
    assert!(batch_track_query(vec![]).is_none());
    assert_eq!(batch_track_query(vec!["a".to_string()]), Some(vec!["a".to_string()]));
    assert!(batch_artist_query(&vec![]).is_none());
    let rows = vec![row("a", (None, None)), row("b", (None, None))];
    assert_eq!(batch_artist_query(&rows), Some(vec!["a".to_string(), "b".to_string()]));
}
