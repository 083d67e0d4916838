//! Fetching audio with yt-dlp: the command line, how a failure is reported,
//! and where the file lands.

use vstd::prelude::*;
use crate::python_service::{join_path, joined_path};
use crate::repository::displays_as;
use crate::text::{chars_of, contains_seq, find_chars, position_of, string_from_range, take_until};

verus! {

broadcast use vstd::string::group_string_axioms;

/// Why a download failed.
#[derive(Debug)]
pub enum DownloadError {
    IoError(std::io::Error),
    YtDlpFailed(String),
    FileNotFound(String),
}

impl DownloadError {
    /// Whether `m` is the message of this error.
    pub open spec fn is_message(&self, m: Seq<char>) -> bool {
        match self {
            DownloadError::IoError(e) => exists|t: String| displays_as(e, t) && m == "IO error: "@ + t@,
            DownloadError::YtDlpFailed(e) => m == "yt-dlp failed: "@ + e@,
            DownloadError::FileNotFound(id) => m == "Archivo no encontrado: "@ + id@,
        }
    }

    /// The error's message.
    pub fn message(&self) -> (m: String)
        ensures
            self.is_message(m@),
    {
        match self {
            DownloadError::IoError(e) => {
                let t = e.to_string();
                let mut m = String::from_str("IO error: ");
                m.append(t.as_str());
                assert(displays_as(e, t));
                m
            },
            DownloadError::YtDlpFailed(e) => {
                let mut m = String::from_str("yt-dlp failed: ");
                m.append(e.as_str());
                m
            },
            DownloadError::FileNotFound(id) => {
                let mut m = String::from_str("Archivo no encontrado: ");
                m.append(id.as_str());
                m
            },
        }
    }
}

/// File-name template of yt-dlp's output, inside the cache directory.
pub const OUTPUT_TEMPLATE: &'static str = "%(id)s.%(ext)s";

/// The watch URL of video `id`.
pub fn video_url(id: &str) -> (u: String)
    ensures
        u@ == "https://www.youtube.com/watch?v="@ + id@,
{
    let mut u = String::from_str("https://www.youtube.com/watch?v=");
    u.append(id);
    u
}

/// The name of the audio file of video `id` (always Opus).
pub fn opus_file_name(id: &str) -> (n: String)
    ensures
        n@ == id@ + ".opus"@,
{
    let mut n = String::from_str(id);
    n.append(".opus");
    n
}

/// Where yt-dlp is told to write: the output template inside `cache_dir`.
pub fn output_template_path(cache_dir: &std::path::PathBuf) -> (p: std::path::PathBuf)
    ensures
        p == joined_path(*cache_dir, OUTPUT_TEMPLATE@),
{
    join_path(cache_dir, OUTPUT_TEMPLATE)
}

/// Where the audio of video `id` lands inside `cache_dir`.
pub fn opus_path(cache_dir: &std::path::PathBuf, id: &str) -> (p: std::path::PathBuf)
    ensures
        p == joined_path(*cache_dir, id@ + ".opus"@),
{
    let name = opus_file_name(id);
    join_path(cache_dir, name.as_str())
}

/// The arguments of yt-dlp: best audio (WebM, then Opus, then any),
/// extracted to Opus, rate-limited to 3M, written after `output_template`,
/// with one JSON progress line per tick.
pub open spec fn ytdlp_args_of(output_template: Seq<char>, url: Seq<char>) -> Seq<Seq<char>> {
    seq![
        "-f"@,
        "ba[ext=webm]/ba[ext=opus]/ba"@,
        "-x"@,
        "--audio-format"@,
        "opus"@,
        "-r"@,
        "3M"@,
        "-o"@,
        output_template,
        "--newline"@,
        "--progress-template"@,
        "download:%(progress)j"@,
        url,
    ]
}

/// The arguments that yt-dlp runs with.
pub fn ytdlp_args(output_template: &str, url: &str) -> (a: Vec<String>)
    ensures
        a@.map_values(|s: String| s@) == ytdlp_args_of(output_template@, url@),
{
    let mut a: Vec<String> = Vec::new();
    a.push(String::from_str("-f"));
    a.push(String::from_str("ba[ext=webm]/ba[ext=opus]/ba"));
    a.push(String::from_str("-x"));
    a.push(String::from_str("--audio-format"));
    a.push(String::from_str("opus"));
    a.push(String::from_str("-r"));
    a.push(String::from_str("3M"));
    a.push(String::from_str("-o"));
    a.push(String::from_str(output_template));
    a.push(String::from_str("--newline"));
    a.push(String::from_str("--progress-template"));
    a.push(String::from_str("download:%(progress)j"));
    a.push(String::from_str(url));
    assert(a@.map_values(|s: String| s@) =~= ytdlp_args_of(output_template@, url@));
    a
}

// ── failure report ──────────────────────────────────────────────────────────

/// A line without the carriage return of a CRLF ending.
pub open spec fn strip_cr(line: Seq<char>) -> Seq<char> {
    if line.len() > 0 && line.last() == '\r' {
        line.drop_last()
    } else {
        line
    }
}

/// `take_until` never gives more than it is given.
pub proof fn lemma_take_until_len(s: Seq<char>, c: char)
    ensures
        take_until(s, c).len() <= s.len(),
        take_until(s, c).len() < s.len() ==> s[take_until(s, c).len() as int] == c,
        forall|j: int| 0 <= j < take_until(s, c).len() ==> s[j] != c,
    decreases s.len(),
{
    if s.len() > 0 && s[0] != c {
        lemma_take_until_len(s.drop_first(), c);
        assert forall|j: int| 0 <= j < take_until(s, c).len() implies s[j] != c by {
            if j > 0 {
                assert(s[j] == s.drop_first()[j - 1]);
            }
        }
    }
}

/// The lines of `s` as std's `str::lines` gives them: split after each
/// `\n`, each line without its `\n` or `\r\n`, no empty line after a final
/// `\n`.
pub open spec fn lines_of(s: Seq<char>) -> Seq<Seq<char>>
    decreases s.len(),
{
    if s.len() == 0 {
        Seq::empty()
    } else {
        let l = take_until(s, '\n');
        proof {
            lemma_take_until_len(s, '\n');
        }
        if l.len() >= s.len() {
            seq![s]
        } else {
            seq![strip_cr(l)] + lines_of(s.subrange(l.len() + 1int, s.len() as int))
        }
    }
}

/// The first line that mentions `ERROR:`.
pub open spec fn first_error_line(lines: Seq<Seq<char>>) -> Option<Seq<char>>
    decreases lines.len(),
{
    if lines.len() == 0 {
        None
    } else if contains_seq(lines[0], "ERROR:"@) {
        Some(lines[0])
    } else {
        first_error_line(lines.drop_first())
    }
}

/// What a failed run of yt-dlp reports: the first line of its error output
/// that mentions `ERROR:`, or a generic text.
pub open spec fn failure_text(stderr: Seq<char>) -> Seq<char> {
    match first_error_line(lines_of(stderr)) {
        Some(l) => l,
        None => "Error desconocido de yt-dlp"@,
    }
}

proof fn lemma_first_error_line_concat(a: Seq<char>, rest: Seq<Seq<char>>)
    ensures
        first_error_line(seq![a] + rest) == if contains_seq(a, "ERROR:"@) {
            Some(a)
        } else {
            first_error_line(rest)
        },
{
    assert((seq![a] + rest).drop_first() =~= rest);
}

/// The report of a failed run of yt-dlp, from its error output.
pub fn failure_message(stderr: &str) -> (m: String)
    ensures
        m@ == failure_text(stderr@),
{
    let cs = chars_of(stderr);
    proof {
        reveal_strlit("ERROR:");
    }
    let marker = chars_of("ERROR:");
    let n = cs.len();
    assert(cs@.subrange(0, n as int) =~= cs@);
    let mut i: usize = 0;
    while i < n
        invariant
            n == cs@.len(),
            cs@ == stderr@,
            i <= n,
            marker@ == "ERROR:"@,
            first_error_line(lines_of(cs@)) == first_error_line(lines_of(cs@.subrange(i as int, n as int))),
        decreases n - i,
    {
        let ghost t = cs@.subrange(i as int, n as int);
        let k = position_of(&cs, i, '\n');
        proof {
            lemma_take_until_len(t, '\n');
        }
        let mut end = k;
        if k < n && k > i && cs[k - 1] == '\r' {
            end = k - 1;
        }
        let line = string_from_range(&cs, i, end);
        let lv = chars_of(line.as_str());
        let found = find_chars(&lv, &marker).is_some();
        assert(found == contains_seq(line@, "ERROR:"@));
        if k == n {
            proof {
                assert(take_until(t, '\n').len() == t.len());
                assert(lines_of(t) == seq![t]);
                assert(line@ =~= t);
                lemma_first_error_line_concat(t, Seq::empty());
            }
            if found {
                return line;
            }
            proof {
                assert(first_error_line(Seq::<Seq<char>>::empty()) is None);
            }
            return String::from_str("Error desconocido de yt-dlp");
        }
        proof {
            let l = take_until(t, '\n');
            assert(l =~= cs@.subrange(i as int, k as int));
            assert(line@ =~= strip_cr(l));
            assert(t.subrange(l.len() + 1int, t.len() as int) =~= cs@.subrange(k + 1, n as int));
            lemma_first_error_line_concat(strip_cr(l), lines_of(cs@.subrange(k + 1, n as int)));
            assert(lines_of(t) == seq![strip_cr(l)] + lines_of(cs@.subrange(k + 1, n as int)));
        }
        if found {
            return line;
        }
        i = k + 1;
    }
    proof {
        assert(cs@.subrange(n as int, n as int) =~= Seq::<char>::empty());
    }
    String::from_str("Error desconocido de yt-dlp")
}

/// What the end of yt-dlp means: after a successful exit the file is
/// looked for; after a failed one the download failed with the report of
/// its error output.
pub fn exit_failure(success: bool, stderr: &str) -> (r: Option<DownloadError>)
    ensures
        success ==> r is None,
        !success ==> (r matches Some(DownloadError::YtDlpFailed(m)) && m@ == failure_text(stderr@)),
{
    if success {
        None
    } else {
        Some(DownloadError::YtDlpFailed(failure_message(stderr)))
    }
}

/// What a finished download reports: nothing on success, the error's
/// message on failure.
pub fn failure_report(outcome: &Result<String, DownloadError>) -> (r: Option<String>)
    ensures
        match outcome {
            Ok(_) => r is None,
            Err(e) => r matches Some(m) && e.is_message(m@),
        },
{
    match outcome {
        Ok(_) => None,
        Err(e) => Some(e.message()),
    }
}

/// Where a download stands once yt-dlp is done: the Opus file at `path` of
/// video `id` is there or it is not.
pub fn located_file(exists: bool, path: String, id: &str) -> (r: Result<String, DownloadError>)
    ensures
        exists ==> r == Ok::<String, DownloadError>(path),
        !exists ==> (r matches Err(DownloadError::FileNotFound(i)) && i@ == id@),
{
    if exists {
        Ok(path)
    } else {
        Err(DownloadError::FileNotFound(String::from_str(id)))
    }
}

} // verus!
