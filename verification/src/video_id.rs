//! Recognising YouTube video IDs in what a user typed.

use vstd::prelude::*;
use crate::text::{
    chars_of, find_chars, occurs_at, first_occurrence, is_alphanumeric, lemma_find_from, position_of,
    string_from_range, take_until, alphanumeric, utf8_len, utf8_len_is,
};

verus! {

broadcast use vstd::string::group_string_axioms;

/// A character that may stand in a bare video ID.
pub open spec fn is_id_char(c: char) -> bool {
    alphanumeric(c) || c == '_' || c == '-'
}

/// The query parameter that carries the ID in a watch URL.
pub open spec fn watch_marker() -> Seq<char> {
    seq!['v', '=']
}

/// The path prefix of a short share URL.
pub open spec fn short_marker() -> Seq<char> {
    seq!['y', 'o', 'u', 't', 'u', '.', 'b', 'e', '/']
}

/// The text after the first `marker` in `q`, up to `stop`.
pub open spec fn after_marker(q: Seq<char>, marker: Seq<char>, stop: char) -> Option<Seq<char>> {
    match first_occurrence(q, marker) {
        Some(p) => Some(take_until(q.subrange(p + marker.len(), q.len() as int), stop)),
        None => None,
    }
}

/// The candidate ID behind `marker`, when it takes exactly 11 bytes.
pub open spec fn id_after(q: Seq<char>, marker: Seq<char>, stop: char) -> Option<Seq<char>> {
    match after_marker(q, marker, stop) {
        Some(id) if utf8_len(id) == 11 => Some(id),
        _ => None,
    }
}

/// The video ID that `q` names: `q` itself when it is an 11-byte run of
/// letters, digits, `_` and `-`; else the 11-byte value of the first `v=`
/// parameter (up to `&`); else the 11-byte path after the first `youtu.be/`
/// (up to `?`); else none.
pub open spec fn video_id_of(q: Seq<char>) -> Option<Seq<char>> {
    if utf8_len(q) == 11 && (forall|i: int| 0 <= i < q.len() ==> is_id_char(#[trigger] q[i])) {
        Some(q)
    } else if id_after(q, watch_marker(), '&') is Some {
        id_after(q, watch_marker(), '&')
    } else {
        id_after(q, short_marker(), '?')
    }
}

fn all_id_chars(cs: &Vec<char>) -> (b: bool)
    ensures
        b == (forall|i: int| 0 <= i < cs@.len() ==> is_id_char(#[trigger] cs@[i])),
{
    let mut i: usize = 0;
    while i < cs.len()
        invariant
            i <= cs@.len(),
            forall|j: int| 0 <= j < i ==> is_id_char(#[trigger] cs@[j]),
        decreases cs@.len() - i,
    {
        let c = cs[i];
        if !(is_alphanumeric(c) || c == '_' || c == '-') {
            assert(!is_id_char(cs@[i as int]));
            return false;
        }
        i = i + 1;
    }
    true
}

fn id_after_marker(cs: &Vec<char>, marker: &Vec<char>, stop: char) -> (r: Option<String>)
    ensures
        r matches Some(s) ==> id_after(cs@, marker@, stop) == Some(s@),
        r is None ==> id_after(cs@, marker@, stop) is None,
{
    let n = cs.len();
    let m = marker.len();
    match find_chars(cs, marker) {
        Some(p) => {
            proof {
                lemma_find_from(cs@, marker@, 0);
                assert(occurs_at(cs@, marker@, p as int));
            }
            let from = p + m;
            let to = position_of(cs, from, stop);
            let id = string_from_range(cs, from, to);
            let idv = chars_of(id.as_str());
            if utf8_len_is(&idv, 11) {
                Some(id)
            } else {
                None
            }
        },
        None => None,
    }
}

/// The video ID named by `query`, if any (see `video_id_of`).
pub fn extract_video_id(query: &str) -> (r: Option<String>)
    ensures
        r matches Some(s) ==> video_id_of(query@) == Some(s@),
        r is None ==> video_id_of(query@) is None,
{
    let cs = chars_of(query);
    if utf8_len_is(&cs, 11) && all_id_chars(&cs) {
        return Some(String::from_str(query));
    }
    proof {
        reveal_strlit("v=");
        reveal_strlit("youtu.be/");
    }
    let watch = chars_of("v=");
    assert(watch@ =~= watch_marker());
    if let Some(id) = id_after_marker(&cs, &watch, '&') {
        return Some(id);
    }
    let short = chars_of("youtu.be/");
    assert(short@ =~= short_marker());
    id_after_marker(&cs, &short, '?')
}

} // verus!
