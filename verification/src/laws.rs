//! Properties of the library that span several functions or every input.

use vstd::prelude::*;
use crate::download::{failure_text, first_error_line, lines_of};
use crate::hash::fallback_id;
use crate::json::{
    JsonView, as_str, get, key_index, key_index_from, lemma_key_index_from, member, sanitized,
    sanitized_artist, sanitized_track, with_artist_ids, with_member, with_thumbnail_url, without_member,
    without_thumbnail,
};
use crate::lyrics::{LyricsRequest, query_of};
use crate::manager::{
    DownloadTrack, Downloaded, MAX_BATCH, Next, Reply, Request, ResolveMetadata, after_resolve, batch_of, is_found,
    missing_of, resolve_step, truncated,
};
use crate::model::{Artist, Track, TrackResult, TrackView, track_result_of};
use crate::repository::{
    ArtistRow, InsertStep, TrackRow, album_steps, artist_steps, artists_of, grouped_artists, insert_steps,
    link_steps, seen_before, track_of_row,
};
use crate::text::signed_decimal;
use crate::model::fallback_prefix;
use crate::text::{contains_seq, has_prefix, trim, trim_end, trim_start, unicode_white_space};

verus! {

/// Every ID that `generate_fallback_id` makes with the prefix `yt_gen` (as
/// the clean-up of service payloads does) is recognised as synthetic by
/// `Artist::is_fallback_id`, whatever name it was made from.
pub proof fn law_generated_ids_are_fallback(name: Seq<char>)
    ensures
        has_prefix(fallback_id("yt_gen"@, name), fallback_prefix()),
{
    reveal_strlit("yt_gen");
    assert(fallback_id("yt_gen"@, name).subrange(0, 7) =~= fallback_prefix());
}

proof fn lemma_trim_start_idem(s: Seq<char>)
    ensures
        trim_start(trim_start(s)) == trim_start(s),
        trim_start(s).len() > 0 ==> !unicode_white_space(trim_start(s)[0]),
    decreases s.len(),
{
    if s.len() > 0 && unicode_white_space(s[0]) {
        lemma_trim_start_idem(s.drop_first());
    }
}

proof fn lemma_trim_end_keeps_start(s: Seq<char>)
    requires
        s.len() > 0 ==> !unicode_white_space(s[0]),
    ensures
        trim_end(s).len() > 0 ==> !unicode_white_space(trim_end(s)[0]),
        trim_end(s).len() > 0 ==> !unicode_white_space(trim_end(s).last()),
        trim_end(s).len() <= s.len(),
        forall|i: int| 0 <= i < trim_end(s).len() ==> trim_end(s)[i] == s[i],
    decreases s.len(),
{
    if s.len() > 0 && unicode_white_space(s.last()) {
        lemma_trim_end_keeps_start(s.drop_last());
        assert forall|i: int| 0 <= i < trim_end(s).len() implies trim_end(s)[i] == s[i] by {
            assert(s.drop_last()[i] == s[i]);
        }
    }
}

/// Trimming is idempotent: a trimmed text has nothing left to trim.
pub proof fn law_trim_idempotent(s: Seq<char>)
    ensures
        trim(trim(s)) == trim(s),
{
    lemma_trim_start_idem(s);
    let a = trim_start(s);
    lemma_trim_end_keeps_start(a);
    let b = trim_end(a);
    // b starts and ends with non-white space, so neither trim changes it
    assert(trim_start(b) == b);
    assert(trim_end(b) == b);
}

/// A batch of `resolve_many` holds at most `MAX_BATCH` IDs, the first ones.
pub proof fn law_batch_is_capped_prefix(ids: Seq<String>)
    ensures
        batch_of(ids).len() <= MAX_BATCH,
        batch_of(ids).len() == if ids.len() > MAX_BATCH { MAX_BATCH as nat } else { ids.len() },
        forall|i: int| 0 <= i < batch_of(ids).len() ==> batch_of(ids)[i] == ids[i],
{
}

/// An ID goes to the metadata service exactly when it is in the batch and
/// the database returned no track with that ID.
pub proof fn law_fetched_iff_missing(ids: Seq<String>, found: Seq<crate::model::Track>, x: Seq<char>)
    ensures
        (exists|k: int| 0 <= k < missing_of(ids, found).len() && #[trigger] missing_of(ids, found)[k]@ == x)
            <==> ((exists|k: int| 0 <= k < ids.len() && #[trigger] ids[k]@ == x) && !is_found(found, x)),
    decreases ids.len(),
{
    if ids.len() > 0 {
        let init = ids.drop_last();
        law_fetched_iff_missing(init, found, x);
        let m0 = missing_of(init, found);
        let m = missing_of(ids, found);
        if (exists|k: int| 0 <= k < m.len() && #[trigger] m[k]@ == x) {
            let k = choose|k: int| 0 <= k < m.len() && #[trigger] m[k]@ == x;
            if k < m0.len() {
                assert(m0[k] == m[k]);
                let j = choose|j: int| 0 <= j < init.len() && #[trigger] init[j]@ == x;
                assert(ids[j] == init[j]);
            } else {
                assert(ids[ids.len() - 1]@ == x);
            }
        }
        if (exists|k: int| 0 <= k < ids.len() && #[trigger] ids[k]@ == x) && !is_found(found, x) {
            let k = choose|k: int| 0 <= k < ids.len() && #[trigger] ids[k]@ == x;
            if k < ids.len() - 1 {
                assert(init[k] == ids[k]);
                let j = choose|j: int| 0 <= j < m0.len() && #[trigger] m0[j]@ == x;
                assert(m[j] == m0[j]);
            } else {
                assert(m[m.len() - 1] == ids.last());
            }
        }
    }
}

/// A listing with a limit keeps exactly as many entries as the limit allows
/// (all of them when there are no more than the limit), and they are its
/// first ones; without a limit it keeps every entry.
pub proof fn law_limit_keeps_first_entries<T>(s: Seq<T>, limit: usize)
    ensures
        truncated(s, Some(limit)).len() == (if limit < s.len() { limit as nat } else { s.len() }),
        truncated(s, None) == s,
        truncated(s, Some(limit)).len() <= limit,
        truncated(s, Some(limit)).len() <= s.len(),
        forall|i: int| 0 <= i < truncated(s, Some(limit)).len() ==> truncated(s, Some(limit))[i] == s[i],
{
}

proof fn lemma_first_error_line_mentions(lines: Seq<Seq<char>>)
    ensures
        first_error_line(lines) matches Some(l) ==> contains_seq(l, "ERROR:"@),
    decreases lines.len(),
{
    if lines.len() > 0 && !contains_seq(lines[0], "ERROR:"@) {
        lemma_first_error_line_mentions(lines.drop_first());
    }
}

/// The report of a failed download is a line that mentions `ERROR:`, or the
/// generic text.
pub proof fn law_failure_report_mentions_error(stderr: Seq<char>)
    ensures
        contains_seq(failure_text(stderr), "ERROR:"@) || failure_text(stderr) == "Error desconocido de yt-dlp"@,
{
    lemma_first_error_line_mentions(lines_of(stderr));
}

// ── clean-up of service payloads ────────────────────────────────────────────

/// Key `k` names at most one of the members.
pub open spec fn at_most_once(es: Seq<(Seq<char>, JsonView)>, k: Seq<char>) -> bool {
    forall|i: int, j: int| 0 <= i < j < es.len() && es[i].0 == k ==> es[j].0 != k
}

/// The objects a clean-up treats as tracks hold at most one `thumbnail`
/// member (as in any parsed document, where no key repeats).
pub open spec fn tracks_well_keyed(d: JsonView) -> bool {
    match d {
        JsonView::Object(es) => at_most_once(es, "thumbnail"@),
        JsonView::Array(items) => forall|i: int|
            0 <= i < items.len() ==> (#[trigger] items[i] matches JsonView::Object(es) ==> at_most_once(
                es,
                "thumbnail"@,
            )),
        _ => true,
    }
}

/// The keys of a list of members.
pub open spec fn keys(es: Seq<(Seq<char>, JsonView)>) -> Seq<Seq<char>> {
    es.map_values(|e: (Seq<char>, JsonView)| e.0)
}

proof fn lemma_key_index_by_keys(a: Seq<(Seq<char>, JsonView)>, b: Seq<(Seq<char>, JsonView)>, k: Seq<char>, i: int)
    requires
        keys(a) == keys(b),
        0 <= i,
    ensures
        key_index_from(a, k, i) == key_index_from(b, k, i),
    decreases a.len() - i,
{
    assert(a.len() == keys(a).len());
    assert(b.len() == keys(b).len());
    if i < a.len() {
        assert(keys(a)[i] == a[i].0);
        assert(keys(b)[i] == b[i].0);
        lemma_key_index_by_keys(a, b, k, i + 1);
    }
}

proof fn lemma_artist_idempotent(a: JsonView)
    ensures
        sanitized_artist(sanitized_artist(a)) == sanitized_artist(a),
{
    if let JsonView::Object(es) = a {
        if let Some(name) = as_str(member(es, "name"@)) {
            if member(es, "id"@) is Null {
                let v = JsonView::Str(fallback_id("yt_gen"@, name));
                let es2 = with_member(es, "id"@, v);
                lemma_key_index_from(es, "id"@, 0);
                lemma_key_index_from(es2, "id"@, 0);
                match key_index(es, "id"@) {
                    Some(i) => {
                        assert(es2[i].0 == "id"@);
                        assert forall|j: int| 0 <= j < i implies es2[j].0 != "id"@ by {
                            assert(es2[j] == es[j]);
                        }
                        assert(key_index(es2, "id"@) == Some(i)) by {
                            lemma_key_index_from(es2, "id"@, 0);
                        }
                    },
                    None => {
                        assert(es2[es.len() as int].0 == "id"@);
                        assert forall|j: int| 0 <= j < es.len() implies es2[j].0 != "id"@ by {
                            assert(es2[j] == es[j]);
                        }
                        assert(key_index(es2, "id"@) == Some(es.len() as int)) by {
                            lemma_key_index_from(es2, "id"@, 0);
                        }
                    },
                }
                assert(member(es2, "id"@) == v);
            }
        }
    }
}

proof fn lemma_artists_idempotent(items: Seq<JsonView>)
    ensures
        items.map_values(|a: JsonView| sanitized_artist(a)).map_values(|a: JsonView| sanitized_artist(a))
            == items.map_values(|a: JsonView| sanitized_artist(a)),
{
    let once = items.map_values(|a: JsonView| sanitized_artist(a));
    let twice = once.map_values(|a: JsonView| sanitized_artist(a));
    assert forall|i: int| 0 <= i < once.len() implies twice[i] == once[i] by {
        lemma_artist_idempotent(items[i]);
    }
    assert(twice =~= once);
}

/// Setting a member keeps the keys, or adds the key last.
proof fn lemma_with_member_keys(es: Seq<(Seq<char>, JsonView)>, k: Seq<char>, v: JsonView, other: Seq<char>)
    ensures
        key_index(es, k) is Some ==> keys(with_member(es, k, v)) == keys(es),
        key_index(es, k) is None ==> keys(with_member(es, k, v)) == keys(es).push(k),
        other != k && at_most_once(es, other) ==> at_most_once(with_member(es, k, v), other),
{
    lemma_key_index_from(es, k, 0);
    let r = with_member(es, k, v);
    match key_index(es, k) {
        Some(i) => {
            assert(keys(r) =~= keys(es));
        },
        None => {
            assert(keys(r) =~= keys(es).push(k));
        },
    }
    if other != k && at_most_once(es, other) {
        assert forall|i: int, j: int| 0 <= i < j < r.len() && r[i].0 == other implies r[j].0 != other by {
            match key_index(es, k) {
                Some(x) => {
                    assert(r[i].0 == es[i].0);
                    assert(r[j].0 == es[j].0);
                },
                None => {
                    assert(r[i] == es[i]);
                },
            }
        }
    }
}

/// Removing a key that stands at most once leaves no member with that key.
proof fn lemma_without_member(es: Seq<(Seq<char>, JsonView)>, k: Seq<char>)
    requires
        at_most_once(es, k),
    ensures
        key_index(without_member(es, k), k) is None,
{
    lemma_key_index_from(es, k, 0);
    let r = without_member(es, k);
    match key_index(es, k) {
        Some(x) => {
            assert forall|j: int| 0 <= j < r.len() implies r[j].0 != k by {
                if j < x {
                    assert(r[j] == es[j]);
                } else {
                    assert(r[j] == es[j + 1]);
                }
            }
        },
        None => {},
    }
    lemma_key_index_from(r, k, 0);
}

proof fn lemma_track_idempotent(t: JsonView)
    requires
        t matches JsonView::Object(es) ==> at_most_once(es, "thumbnail"@),
    ensures
        sanitized_track(sanitized_track(t)) == sanitized_track(t),
{
    if let JsonView::Object(es0) = t {
        let t1 = with_thumbnail_url(t);
        let es1 = t1->Object_0;
        match as_str(get(member(es0, "thumbnail"@), "url"@)) {
            Some(url) => {
                if member(es0, "thumbnail_url"@) is Null {
                    reveal_strlit("thumbnail");
                    reveal_strlit("thumbnail_url");
                    assert("thumbnail"@.len() != "thumbnail_url"@.len());
                    lemma_with_member_keys(es0, "thumbnail_url"@, JsonView::Str(url), "thumbnail"@);
                }
            },
            None => {},
        }
        assert(at_most_once(es1, "thumbnail"@));
        let t2 = without_thumbnail(t1);
        let es2 = t2->Object_0;
        lemma_without_member(es1, "thumbnail"@);
        let t3 = with_artist_ids(t2);
        let es3 = t3->Object_0;
        assert(keys(es3) == keys(es2)) by {
            match key_index(es2, "artists"@) {
                Some(i) => {
                    lemma_key_index_from(es2, "artists"@, 0);
                    assert(keys(es3) =~= keys(es2));
                },
                None => {},
            }
        }
        lemma_key_index_by_keys(es3, es2, "thumbnail"@, 0);
        lemma_key_index_by_keys(es3, es2, "artists"@, 0);
        // second pass: no thumbnail to take a URL from or to drop
        assert(member(es3, "thumbnail"@) == JsonView::Null);
        assert(with_thumbnail_url(t3) == t3);
        assert(without_member(es3, "thumbnail"@) == es3);
        assert(without_thumbnail(t3) == t3);
        // artists are already cleaned up
        match key_index(es2, "artists"@) {
            Some(i) => {
                lemma_key_index_from(es2, "artists"@, 0);
                match es2[i].1 {
                    JsonView::Array(items) => {
                        lemma_artists_idempotent(items);
                        let once = items.map_values(|a: JsonView| sanitized_artist(a));
                        assert(es3[i].1 == JsonView::Array(once));
                        assert(es3.update(i, (es3[i].0, JsonView::Array(
                            once.map_values(|a: JsonView| sanitized_artist(a)),
                        ))) =~= es3);
                    },
                    _ => {},
                }
            },
            None => {},
        }
        assert(with_artist_ids(t3) == t3);
    }
}

/// Cleaning up a service payload twice gives what cleaning it up once gives,
/// for every payload whose track objects hold at most one `thumbnail`
/// member: a cleaned track has no `thumbnail` left and every artist that
/// could get an ID has one.
pub proof fn law_sanitize_idempotent(d: JsonView)
    requires
        tracks_well_keyed(d),
    ensures
        sanitized(sanitized(d)) == sanitized(d),
{
    match d {
        JsonView::Array(items) => {
            let once = items.map_values(|t: JsonView| sanitized_track(t));
            let twice = once.map_values(|t: JsonView| sanitized_track(t));
            assert forall|i: int| 0 <= i < once.len() implies twice[i] == once[i] by {
                assert(items[i] matches JsonView::Object(es) ==> at_most_once(es, "thumbnail"@));
                lemma_track_idempotent(items[i]);
            }
            assert(twice =~= once);
        },
        JsonView::Object(_) => {
            lemma_track_idempotent(d);
            let r = sanitized(d);
            if !(r is Object) {
                assert(false);
            }
        },
        _ => {},
    }
}

/// An artist that the clean-up gives an ID (one without an ID but with a
/// name) gets a synthetic one, which `Artist::is_fallback_id` recognises and
/// clients never see.
pub proof fn law_sanitized_ids_are_fallback(a: JsonView)
    requires
        a is Object,
        get(a, "id"@) is Null,
        as_str(get(a, "name"@)) is Some,
    ensures
        as_str(get(sanitized_artist(a), "id"@)) matches Some(id) && has_prefix(id, fallback_prefix()),
{
    let es = a->Object_0;
    let name = as_str(member(es, "name"@))->0;
    let id = fallback_id("yt_gen"@, name);
    let es2 = with_member(es, "id"@, JsonView::Str(id));
    lemma_key_index_from(es, "id"@, 0);
    match key_index(es, "id"@) {
        Some(i) => {
            assert(es2[i].0 == "id"@);
            assert forall|j: int| 0 <= j < i implies es2[j].0 != "id"@ by {
                assert(es2[j] == es[j]);
            }
            assert(key_index(es2, "id"@) == Some(i)) by {
                lemma_key_index_from(es2, "id"@, 0);
            }
        },
        None => {
            assert(es2[es.len() as int].0 == "id"@);
            assert forall|j: int| 0 <= j < es.len() implies es2[j].0 != "id"@ by {
                assert(es2[j] == es[j]);
            }
            assert(key_index(es2, "id"@) == Some(es.len() as int)) by {
                lemma_key_index_from(es2, "id"@, 0);
            }
        },
    }
    law_generated_ids_are_fallback(name);
}

/// Setting member `key` leaves every other member as it was.
proof fn lemma_with_member_other(es: Seq<(Seq<char>, JsonView)>, key: Seq<char>, v: JsonView, k: Seq<char>)
    requires
        k != key,
    ensures
        member(with_member(es, key, v), k) == member(es, k),
{
    let r = with_member(es, key, v);
    lemma_key_index_from(es, key, 0);
    lemma_key_index_from(es, k, 0);
    lemma_key_index_from(r, k, 0);
    assert(r.len() >= es.len());
    assert forall|m: int| 0 <= m < es.len() implies r[m].0 == es[m].0 && (r[m].0 == k ==> r[m] == es[m]) by {}
    assert forall|m: int| es.len() <= m < r.len() implies r[m].0 != k by {}
}

/// Dropping member `key` leaves every other member as it was.
proof fn lemma_without_member_other(es: Seq<(Seq<char>, JsonView)>, key: Seq<char>, k: Seq<char>)
    requires
        k != key,
    ensures
        member(without_member(es, key), k) == member(es, k),
{
    let r = without_member(es, key);
    lemma_key_index_from(es, key, 0);
    lemma_key_index_from(es, k, 0);
    lemma_key_index_from(r, k, 0);
    match key_index(es, key) {
        Some(x) => {
            assert forall|m: int| 0 <= m < r.len() implies r[m] == (if m < x { es[m] } else { es[m + 1] }) by {}
            match key_index(es, k) {
                Some(j) => {
                    if j < x {
                        assert(r[j] == es[j]);
                    } else {
                        assert(r[j - 1] == es[j]);
                    }
                },
                None => {},
            }
        },
        None => {},
    }
}

/// The clean-up fills in artist IDs whatever it does to the thumbnail: when
/// a track object has an `artists` array, the cleaned track's `artists` is
/// that array with each artist cleaned up, in the same order; an artist
/// that already has an ID is kept as it was (real IDs are never replaced),
/// and one without an ID but with a name gets its synthetic ID.
pub proof fn law_sanitize_fills_artist_ids(t: JsonView, items: Seq<JsonView>)
    requires
        t is Object,
        get(t, "artists"@) == JsonView::Array(items),
    ensures
        get(sanitized_track(t), "artists"@) == JsonView::Array(items.map_values(|a: JsonView| sanitized_artist(a))),
        forall|i: int|
            0 <= i < items.len() && !(get(items[i], "id"@) is Null) ==> sanitized_artist(#[trigger] items[i])
                == items[i],
{
    reveal_strlit("artists");
    reveal_strlit("thumbnail");
    reveal_strlit("thumbnail_url");
    let t1 = with_thumbnail_url(t);
    if let JsonView::Object(es) = t {
        if let Some(url) = as_str(get(member(es, "thumbnail"@), "url"@)) {
            if member(es, "thumbnail_url"@) is Null {
                lemma_with_member_other(es, "thumbnail_url"@, JsonView::Str(url), "artists"@);
            }
        }
    }
    let es1 = t1->Object_0;
    assert(member(es1, "artists"@) == JsonView::Array(items));
    assert("artists"@.len() != "thumbnail"@.len());
    lemma_without_member_other(es1, "thumbnail"@, "artists"@);
    let es2 = without_member(es1, "thumbnail"@);
    assert(member(es2, "artists"@) == JsonView::Array(items));
    lemma_key_index_from(es2, "artists"@, 0);
    let i = key_index(es2, "artists"@)->0;
    let es3 = es2.update(i, (es2[i].0, JsonView::Array(items.map_values(|a: JsonView| sanitized_artist(a)))));
    assert(keys(es3) =~= keys(es2));
    lemma_key_index_by_keys(es3, es2, "artists"@, 0);
    assert(sanitized_track(t) == JsonView::Object(es3));
}

/// A download never downloads the audio of a track that is already stored:
/// when metadata resolution ends with a track whose file is local, the
/// download ends with that track, asks for nothing more and starts no
/// background work.
pub proof fn law_stored_track_is_not_downloaded(
    inner: Next<ResolveMetadata, Track>,
    n: Next<DownloadTrack, Downloaded>,
    t: Track,
)
    requires
        inner == Next::<ResolveMetadata, Track>::Done(Ok(t)),
        t.file_path is Some,
        after_resolve(inner, n),
    ensures
        n matches Next::Done(Ok(d)) && d.track == t && d.follow_up is None,
{
}

// ── reading tracks ──────────────────────────────────────────────────────────

/// The artist rows among `rows` that credit track `uuid`.
pub open spec fn rows_of_track(rows: Seq<ArtistRow>, uuid: Seq<char>) -> Seq<ArtistRow> {
    rows.filter(|r: ArtistRow| r.track_uuid@ == uuid)
}

/// Two tracks agree field by field, their artists compared as multisets.
pub open spec fn same_up_to_artist_order(a: TrackView, b: TrackView) -> bool {
    &&& a.id == b.id
    &&& a.title == b.title
    &&& a.duration_seconds == b.duration_seconds
    &&& a.thumbnail_url == b.thumbnail_url
    &&& a.thumbnail_small == b.thumbnail_small
    &&& a.thumbnail_large == b.thumbnail_large
    &&& a.bpm == b.bpm
    &&& a.camelot_key == b.camelot_key
    &&& a.file_path == b.file_path
    &&& a.added_at == b.added_at
    &&& a.album == b.album
    &&& a.artists.to_multiset() == b.artists.to_multiset()
}

/// What one artist row adds to the artists of track `u`.
spec fn credited(r: ArtistRow, u: Seq<char>) -> vstd::multiset::Multiset<Artist> {
    if r.track_uuid@ == u {
        vstd::multiset::Multiset::singleton(Artist { id: r.id, name: r.name })
    } else {
        vstd::multiset::Multiset::empty()
    }
}

proof fn lemma_artists_of_filtered(rows: Seq<ArtistRow>, u: Seq<char>)
    ensures
        artists_of(rows_of_track(rows, u), u) == artists_of(rows, u),
    decreases rows.len(),
{
    reveal(Seq::filter);
    if rows.len() > 0 {
        lemma_artists_of_filtered(rows.drop_last(), u);
        let sub = rows_of_track(rows.drop_last(), u);
        if rows.last().track_uuid@ == u {
            assert(rows_of_track(rows, u) == sub.push(rows.last()));
            assert(rows_of_track(rows, u).drop_last() =~= sub);
        } else {
            assert(rows_of_track(rows, u) == sub);
        }
    }
}

proof fn lemma_artists_of_remove(rows: Seq<ArtistRow>, k: int, u: Seq<char>)
    requires
        0 <= k < rows.len(),
    ensures
        artists_of(rows, u).to_multiset() =~= artists_of(rows.remove(k), u).to_multiset().add(credited(rows[k], u)),
    decreases rows.len(),
{
    broadcast use vstd::seq_lib::group_to_multiset_ensures, vstd::multiset::group_multiset_axioms;

    if k == rows.len() - 1 {
        assert(rows.remove(k) =~= rows.drop_last());
    } else {
        lemma_artists_of_remove(rows.drop_last(), k, u);
        assert(rows.remove(k).drop_last() =~= rows.drop_last().remove(k));
        assert(rows.remove(k).last() == rows.last());
    }
}

proof fn lemma_artists_of_permutation(a: Seq<ArtistRow>, b: Seq<ArtistRow>, u: Seq<char>)
    requires
        a.to_multiset() == b.to_multiset(),
    ensures
        artists_of(a, u).to_multiset() =~= artists_of(b, u).to_multiset(),
    decreases a.len(),
{
    broadcast use vstd::seq_lib::group_to_multiset_ensures, vstd::multiset::group_multiset_axioms;

    if a.len() == 0 {
        assert(b.len() == b.to_multiset().len());
        assert(a.len() == a.to_multiset().len());
        assert(b =~= a);
    } else {
        let x = a.last();
        assert(a.contains(x)) by {
            assert(a[a.len() - 1] == x);
        }
        assert(b.to_multiset().count(x) > 0);
        assert(b.contains(x));
        let k = choose|k: int| 0 <= k < b.len() && b[k] == x;
        assert(a =~= a.drop_last().push(x));
        assert(a.drop_last().to_multiset() =~= b.remove(k).to_multiset());
        lemma_artists_of_permutation(a.drop_last(), b.remove(k), u);
        lemma_artists_of_remove(b, k, u);
        lemma_artists_of_remove(a, a.len() - 1, u);
        assert(a.remove(a.len() - 1) =~= a.drop_last());
    }
}

/// The batch read and the single read of a stored track build the same
/// track: where the track rows come from one table (so no UUID repeats)
/// and both artist queries return the same credits of that track, in
/// whatever order the database gives them, the track that the batch read
/// assembles at position `i` and the one that the single read of its UUID
/// builds agree on every field, album resolution included, and on their
/// artists as a multiset.
pub proof fn law_batch_read_matches_single_read(
    rows: Seq<TrackRow>,
    artist_rows: Seq<ArtistRow>,
    i: int,
    own_rows: Seq<ArtistRow>,
)
    requires
        0 <= i < rows.len(),
        forall|j: int, k: int| 0 <= j < k < rows.len() ==> rows[j].uuid@ != rows[k].uuid@,
        rows_of_track(artist_rows, rows[i].uuid@).to_multiset() == rows_of_track(own_rows, rows[i].uuid@).to_multiset(),
    ensures
        same_up_to_artist_order(
            track_of_row(rows[i], grouped_artists(rows, artist_rows, i)),
            track_of_row(rows[i], artists_of(own_rows, rows[i].uuid@)),
        ),
{
    let u = rows[i].uuid@;
    assert(!seen_before(rows, i));
    lemma_artists_of_filtered(artist_rows, u);
    lemma_artists_of_filtered(own_rows, u);
    lemma_artists_of_permutation(rows_of_track(artist_rows, u), rows_of_track(own_rows, u), u);
}

// ── resolving, listing, saving, lyrics ─────────────────────────────────────

/// When the database read of the video a query names, or of the first hit
/// of a search, finds a stored record, resolution ends with that record and
/// asks for nothing more.
pub proof fn law_stored_record_resolves(st: ResolveMetadata, t: Track, n: Next<ResolveMetadata, Track>)
    requires
        st is LoadNamed || st is LoadFirstHit,
        resolve_step(st, Reply::Loaded(Ok(Some(t))), n),
    ensures
        n == Next::<ResolveMetadata, Track>::Done(Ok(t)),
{
}

/// A free-text query is searched for, the record of its first hit is read,
/// and when the database holds that record it is the answer, with no call
/// to the service for the track.
pub proof fn law_text_query_takes_stored_first_hit(
    query: String,
    hits: Vec<Track>,
    n1: Next<ResolveMetadata, Track>,
    t: Track,
    n2: Next<ResolveMetadata, Track>,
)
    requires
        hits@.len() > 0,
        resolve_step(ResolveMetadata::Searching { query }, Reply::Listed(Ok(hits)), n1),
        n1 is Ask,
        resolve_step(n1->Ask_0, Reply::Loaded(Ok(Some(t))), n2),
    ensures
        n1->Ask_1 == Request::LoadTrack(hits@[0].id),
        n2 == Next::<ResolveMetadata, Track>::Done(Ok(t)),
{
}

/// A download whose query names a stored video, or whose search finds a
/// stored first hit, with its audio, ends with that record: nothing is
/// downloaded again and no background work starts.
pub proof fn law_stored_first_hit_is_not_downloaded(
    st: ResolveMetadata,
    t: Track,
    inner: Next<ResolveMetadata, Track>,
    n: Next<DownloadTrack, Downloaded>,
)
    requires
        st is LoadNamed || st is LoadFirstHit,
        t.file_path is Some,
        resolve_step(st, Reply::Loaded(Ok(Some(t))), inner),
        after_resolve(inner, n),
    ensures
        n matches Next::Done(Ok(d)) && d.track == t && d.follow_up is None,
{
}

/// A listing entry whose stored record has its audio is that stored record,
/// unchanged (tempo, key, album, artists and date included).
pub proof fn law_cached_entry_is_the_stored_record(remote: Track, db: Track)
    requires
        db.file_path is Some,
    ensures
        track_result_of(remote, Some(db)) == TrackResult::Cached(db),
{
}

/// Without a stored record that has its audio, a listing entry is partial
/// and carries the service's metadata.
pub proof fn law_partial_entry_is_the_service_track(remote: Track, db: Option<Track>)
    requires
        !(db matches Some(c) && c.file_path is Some),
    ensures
        track_result_of(remote, db) matches TrackResult::Partial {
            id,
            title,
            artists,
            album,
            duration_seconds,
            thumbnail_small,
            thumbnail_large,
        } && id == remote.id && title == remote.title && artists == remote.artists && album == remote.album
            && duration_seconds == remote.duration_seconds && thumbnail_small == remote.thumbnail_small
            && thumbnail_large == remote.thumbnail_large,
{
}

/// The save of a track has exactly one track statement, after the album and
/// the artists, and it writes each field of the track into the column of
/// the same name (the album by its ID), so that reading the row back gives
/// the track's own values.
pub proof fn law_save_writes_each_column(t: TrackView)
    ensures
        insert_steps(t)[(album_steps(t.album).len() + t.artists.len()) as int] is Track,
        forall|k: int|
            0 <= k < insert_steps(t).len() && (#[trigger] insert_steps(t)[k] is Track) ==> k == album_steps(
                t.album,
            ).len() + t.artists.len() && (insert_steps(t)[k] matches InsertStep::Track {
                uuid,
                title,
                duration_seconds,
                album_id,
                thumbnail_small,
                thumbnail_large,
                bpm,
                camelot_key,
                file_path,
            } && uuid == t.id && title == t.title && duration_seconds == t.duration_seconds
                && album_id == (match t.album {
                Some(a) => Some(a.id),
                None => None::<String>,
            }) && thumbnail_small == t.thumbnail_small && thumbnail_large == t.thumbnail_large && bpm == t.bpm
                && camelot_key == t.camelot_key && file_path == t.file_path),
{
    let a = album_steps(t.album);
    let b = artist_steps(t.artists);
    let c = link_steps(t.id, t.artists);
    let all = insert_steps(t);
    let k0: int = (a.len() + t.artists.len()) as int;
    assert(b.len() == t.artists.len());
    assert forall|k: int| 0 <= k < all.len() && (#[trigger] all[k] is Track) implies k == k0 by {
        if k < a.len() {
            assert(all[k] == a[k]);
        } else if k < k0 {
            assert(all[k] == b[k - a.len()]);
        } else if k > k0 {
            assert(all[k] == c[k - k0 - 1]);
        }
    }
    assert(all[k0] == crate::repository::track_step(t));
}

/// Reading a row gives back each column under the field of the same name:
/// the track has the row's UUID as ID, no service thumbnail URL, the given
/// artists, and an album exactly when the row joined one with a name.
pub proof fn law_row_reads_as_track(row: TrackRow, artists: Seq<Artist>)
    ensures
        track_of_row(row, artists).id == row.uuid,
        track_of_row(row, artists).title == row.title,
        track_of_row(row, artists).duration_seconds == row.duration_seconds,
        track_of_row(row, artists).thumbnail_url is None,
        track_of_row(row, artists).thumbnail_small == row.thumbnail_small,
        track_of_row(row, artists).thumbnail_large == row.thumbnail_large,
        track_of_row(row, artists).bpm == row.bpm,
        track_of_row(row, artists).camelot_key == row.camelot_key,
        track_of_row(row, artists).file_path == row.file_path,
        track_of_row(row, artists).added_at == row.added_at,
        track_of_row(row, artists).artists == artists,
        track_of_row(row, artists).album is Some <==> (row.album_id is Some && row.album_name is Some),
        track_of_row(row, artists).album matches Some(a) ==> Some(a.id) == row.album_id && Some(a.name)
            == row.album_name,
{
}

/// Every lyrics request carries the track's title under `track_name` and
/// its artist, when it names one, under `artist_name`; a request for an
/// exact match carries the duration under `duration`. No other parameter
/// has those names.
pub proof fn law_lyrics_query_names_its_fields(r: LyricsRequest)
    ensures
        match r {
            LyricsRequest::Get { track_name, artist_name, duration_seconds } => {
                &&& query_of(r).contains(("track_name"@, track_name@))
                &&& query_of(r).contains(("artist_name"@, artist_name@))
                &&& query_of(r).contains(("duration"@, signed_decimal(duration_seconds as int)))
                &&& forall|i: int|
                    0 <= i < query_of(r).len() ==> (#[trigger] query_of(r)[i].0 == "track_name"@ ==> query_of(r)[i].1
                        == track_name@) && (query_of(r)[i].0 == "artist_name"@ ==> query_of(r)[i].1
                        == artist_name@)
            },
            LyricsRequest::Search { track_name, artist_name } => {
                &&& query_of(r).contains(("track_name"@, track_name@))
                &&& (artist_name matches Some(a) ==> query_of(r).contains(("artist_name"@, a@)))
                &&& (artist_name is None ==> forall|i: int|
                    0 <= i < query_of(r).len() ==> #[trigger] query_of(r)[i].0 != "artist_name"@)
                &&& forall|i: int|
                    0 <= i < query_of(r).len() ==> (#[trigger] query_of(r)[i].0 == "track_name"@ ==> query_of(r)[i].1
                        == track_name@) && (query_of(r)[i].0 == "artist_name"@ ==> (artist_name matches Some(a)
                        && query_of(r)[i].1 == a@))
            },
        },
{
    reveal_strlit("track_name");
    reveal_strlit("artist_name");
    reveal_strlit("duration");
    assert("track_name"@ != "artist_name"@) by {
        assert("track_name"@[0] != "artist_name"@[0]);
    }
    assert("track_name"@ != "duration"@) by {
        assert("track_name"@.len() != "duration"@.len());
    }
    assert("artist_name"@ != "duration"@) by {
        assert("artist_name"@.len() != "duration"@.len());
    }
    let q = query_of(r);
    match r {
        LyricsRequest::Get { track_name, artist_name, duration_seconds } => {
            assert(q[0] == ("track_name"@, track_name@));
            assert(q[1] == ("artist_name"@, artist_name@));
            assert(q[2] == ("duration"@, signed_decimal(duration_seconds as int)));
        },
        LyricsRequest::Search { track_name, artist_name } => {
            assert(q[0] == ("track_name"@, track_name@));
            if let Some(a) = artist_name {
                assert(q[1] == ("artist_name"@, a@));
            }
        },
    }
}

} // verus!
