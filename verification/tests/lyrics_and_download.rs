use trackhub::download::{
    exit_failure, failure_message, failure_report, located_file, opus_file_name, opus_path, output_template_path, video_url, ytdlp_args,
    DownloadError, OUTPUT_TEMPLATE,
};
use trackhub::lyrics::{
    first_search_result, get_status_verdict, search_status_verdict, LrcLibResponse, LyricsError, LyricsNext,
    LyricsRequest, LyricsSearch, StatusVerdict, BASE_URL,
};

fn record(instrumental: bool, synced: Option<&str>, plain: Option<&str>) -> LrcLibResponse {
    LrcLibResponse {
        id: Some(1),
        track_name: Some("Song".to_string()),
        artist_name: Some("Artist".to_string()),
        album_name: None,
        instrumental,
        plain_lyrics: plain.map(|s| s.to_string()),
        synced_lyrics: synced.map(|s| s.to_string()),
    }
}

#[test]
fn synced_lyrics_come_first() {
    let r = record(false, Some("[00:01.00] hi"), Some("hi"));
    assert_eq!(r.best_content(), Some("[00:01.00] hi"));
}

#[test]
fn blank_synced_lyrics_fall_back_to_plain() {
    let r = record(false, Some("  \n "), Some("hi"));
    assert_eq!(r.best_content(), Some("hi"));
    let r = record(false, None, Some("plain"));
    assert_eq!(r.best_content(), Some("plain"));
}

#[test]
fn instrumental_or_blank_has_no_content() {
    assert_eq!(record(true, Some("x"), Some("y")).best_content(), None);
    assert_eq!(record(false, Some(" "), Some("\t")).best_content(), None);
    assert_eq!(record(false, None, None).best_content(), None);
}

#[test]
fn lyrics_error_messages() {
    assert_eq!(LyricsError::NotFound.message(), "LRCLIB no encontró letras");
    assert_eq!(LyricsError::Network("timeout".to_string()).message(), "Error de red hacia LRCLIB: timeout");
}

#[test]
fn request_urls_and_queries() {
    let get = LyricsRequest::Get { track_name: "Song".to_string(), artist_name: "A".to_string(), duration_seconds: 215 };
    assert_eq!(get.url(), format!("{BASE_URL}/get"));
    assert_eq!(
        get.query(),
        vec![
            ("track_name".to_string(), "Song".to_string()),
            ("artist_name".to_string(), "A".to_string()),
            ("duration".to_string(), "215".to_string()),
        ]
    );
    let neg = LyricsRequest::Get { track_name: "S".to_string(), artist_name: "A".to_string(), duration_seconds: -3 };
    assert_eq!(neg.query()[2].1, "-3");
    let search = LyricsRequest::Search { track_name: "Song".to_string(), artist_name: None };
    assert_eq!(search.url(), "https://lrclib.net/api/search");
    assert_eq!(search.query(), vec![("track_name".to_string(), "Song".to_string())]);
    let search = LyricsRequest::Search { track_name: "Song".to_string(), artist_name: Some("A".to_string()) };
    assert_eq!(search.query().len(), 2);
}

#[test]
fn status_verdicts() {
    assert!(matches!(get_status_verdict(404), StatusVerdict::NotFound));
    assert!(matches!(get_status_verdict(500), StatusVerdict::Failed));
    assert!(matches!(get_status_verdict(400), StatusVerdict::Failed));
    assert!(matches!(get_status_verdict(200), StatusVerdict::Proceed));
    assert!(matches!(get_status_verdict(302), StatusVerdict::Proceed));
    assert!(matches!(search_status_verdict(404), StatusVerdict::Failed));
    assert!(matches!(search_status_verdict(599), StatusVerdict::Failed));
    assert!(matches!(search_status_verdict(600), StatusVerdict::Proceed));
}

#[test]
fn first_search_result_or_not_found() {
    assert!(matches!(first_search_result(vec![]), Err(LyricsError::NotFound)));
    let r = first_search_result(vec![record(false, None, Some("a")), record(false, None, Some("b"))]).unwrap();
    assert_eq!(r.plain_lyrics.as_deref(), Some("a"));
}

fn expect_try(n: LyricsNext) -> (LyricsSearch, LyricsRequest) {
    match n {
        LyricsNext::Try(s, r) => (s, r),
        LyricsNext::Done(_) => panic!("search ended early"),
    }
}

#[test]
fn lyrics_search_tries_three_requests_in_order() {
    let (s, req) = LyricsSearch::start("Song".to_string(), "Artist".to_string(), 200);
    assert!(matches!(req, LyricsRequest::Get { ref track_name, ref artist_name, duration_seconds: 200 }
        if track_name == "Song" && artist_name == "Artist"));
    let (s, req) = expect_try(s.on_outcome(Err(LyricsError::NotFound)));
    assert!(matches!(req, LyricsRequest::Search { ref artist_name, .. } if artist_name.as_deref() == Some("Artist")));
    // a record without usable text does not end the search
    let (s, req) = expect_try(s.on_outcome(Ok(record(true, Some("x"), None))));
    assert!(matches!(req, LyricsRequest::Search { artist_name: None, ref track_name } if track_name == "Song"));
    match s.on_outcome(Err(LyricsError::Network("x".to_string()))) {
        LyricsNext::Done(Err(LyricsError::NotFound)) => {},
        _ => panic!("expected NotFound after three attempts"),
    }
}

#[test]
fn lyrics_search_stops_at_first_usable_record() {
    let (s, _) = LyricsSearch::start("Song".to_string(), "Artist".to_string(), 200);
    let (s, _) = expect_try(s.on_outcome(Err(LyricsError::NotFound)));
    match s.on_outcome(Ok(record(false, None, Some("words")))) {
        LyricsNext::Done(Ok(r)) => assert_eq!(r.best_content(), Some("words")),
        _ => panic!("expected the record"),
    }
}

#[test]
fn download_command_line() {
    assert_eq!(video_url("dQw4w9WgXcQ"), "https://www.youtube.com/watch?v=dQw4w9WgXcQ");
    assert_eq!(opus_file_name("abc"), "abc.opus");
    assert_eq!(OUTPUT_TEMPLATE, "%(id)s.%(ext)s");
    let args = ytdlp_args("/music/%(id)s.%(ext)s", "URL");
    assert_eq!(
        args,
        vec![
            "-f", "ba[ext=webm]/ba[ext=opus]/ba", "-x", "--audio-format", "opus", "-r", "3M", "-o",
            "/music/%(id)s.%(ext)s", "--newline", "--progress-template", "download:%(progress)j", "URL",
        ]
    );
}

#[test]
fn failure_report_is_first_error_line() {
    assert_eq!(failure_message("[youtube] x\nERROR: [youtube] unavailable\r\nERROR: second\n"), "ERROR: [youtube] unavailable");
    assert_eq!(failure_message("WARNING: slow\n"), "Error desconocido de yt-dlp");
    assert_eq!(failure_message(""), "Error desconocido de yt-dlp");
    // a final line without a newline keeps a lone carriage return
    assert_eq!(failure_message("ok\nERROR: last\r"), "ERROR: last\r");
    assert_eq!(failure_message("a\r\n\r\nERROR:x"), "ERROR:x");
}

#[test]
fn failure_report_matches_std_lines() {
    let inputs = ["x\nERROR: a\n", "ERROR: b\r\n", "\n\nzz ERROR: c", "none", "ERROR:\r\r\n"];
    for s in inputs {
        let expected = s.lines().find(|l| l.contains("ERROR:")).unwrap_or("Error desconocido de yt-dlp");
        assert_eq!(failure_message(s), expected);
    }
}

#[test]
fn located_file_or_not_found() {
    assert_eq!(located_file(true, "/m/a.opus".to_string(), "a").unwrap(), "/m/a.opus");
    match located_file(false, "/m/a.opus".to_string(), "a") {
        Err(DownloadError::FileNotFound(id)) => assert_eq!(id, "a"),
        _ => panic!("expected FileNotFound"),
    }
}

#[test]
fn download_error_messages() {
    assert_eq!(DownloadError::YtDlpFailed("ERROR: x".to_string()).message(), "yt-dlp failed: ERROR: x");
    assert_eq!(DownloadError::FileNotFound("abc".to_string()).message(), "Archivo no encontrado: abc");
    let io = std::io::Error::new(std::io::ErrorKind::Other, "disk full");
    assert_eq!(DownloadError::IoError(io).message(), "IO error: disk full");
}

#[test]
fn download_paths_lie_in_the_cache_directory() {
    let dir = std::path::PathBuf::from("/cache/music");
    assert_eq!(output_template_path(&dir), std::path::PathBuf::from("/cache/music/%(id)s.%(ext)s"));
    assert_eq!(opus_path(&dir, "abc"), std::path::PathBuf::from("/cache/music/abc.opus"));
}

#[test]
fn exit_status_and_report_of_a_download() {
    assert!(exit_failure(true, "ERROR: ignored").is_none());
    match exit_failure(false, "warn\nERROR: Video unavailable\n") {
        Some(DownloadError::YtDlpFailed(m)) => assert_eq!(m, failure_message("warn\nERROR: Video unavailable\n")),
        _ => panic!("expected a yt-dlp failure"),
    }
    assert!(failure_report(&Ok("/m/a.opus".to_string())).is_none());
    let e: Result<String, DownloadError> = Err(DownloadError::FileNotFound("abc".to_string()));
    assert_eq!(failure_report(&e).as_deref(), Some("Archivo no encontrado: abc"));
}
