//! A JSON document model, the lookups the hub needs on it, and the clean-up
//! applied to what the metadata service sends.

use vstd::prelude::*;
use crate::hash::{fallback_id, generate_fallback_id};

verus! {

broadcast use vstd::string::group_string_axioms;

/// serde_json's number type, carried through unchanged.
#[verifier::external_type_specification]
#[verifier::external_body]
pub struct ExJsonNumber(serde_json::Number);

/// A JSON value. Object members keep their order; lookups take the first
/// member with a key (a parsed document never repeats a key).
pub enum JsonValue {
    Null,
    Bool(bool),
    Number(serde_json::Number),
    Str(String),
    Array(Vec<JsonValue>),
    Object(Vec<(String, JsonValue)>),
}

/// The mathematical form of a JSON value.
pub enum JsonView {
    Null,
    Bool(bool),
    Number(serde_json::Number),
    Str(Seq<char>),
    Array(Seq<JsonView>),
    Object(Seq<(Seq<char>, JsonView)>),
}

impl JsonValue {
    /// The mathematical form of this value.
    pub open spec fn view(self) -> JsonView
        decreases self,
    {
        match self {
            JsonValue::Null => JsonView::Null,
            JsonValue::Bool(b) => JsonView::Bool(b),
            JsonValue::Number(n) => JsonView::Number(n),
            JsonValue::Str(s) => JsonView::Str(s@),
            JsonValue::Array(items) => JsonView::Array(
                Seq::new(
                    items@.len(),
                    |i: int|
                        if 0 <= i < items@.len() {
                            items@[i].view()
                        } else {
                            JsonView::Null
                        },
                ),
            ),
            JsonValue::Object(es) => JsonView::Object(
                Seq::new(
                    es@.len(),
                    |i: int|
                        if 0 <= i < es@.len() {
                            (es@[i].0@, es@[i].1.view())
                        } else {
                            (Seq::empty(), JsonView::Null)
                        },
                ),
            ),
        }
    }
}

/// The mathematical form of a list of members.
pub open spec fn entries_view(es: Seq<(String, JsonValue)>) -> Seq<(Seq<char>, JsonView)> {
    Seq::new(es.len(), |i: int| (es[i].0@, es[i].1.view()))
}

/// The mathematical form of a list of values.
pub open spec fn items_view(items: Seq<JsonValue>) -> Seq<JsonView> {
    Seq::new(items.len(), |i: int| items[i].view())
}

/// An object's view is the view of its members.
pub proof fn lemma_object_view(es: Vec<(String, JsonValue)>)
    ensures
        JsonValue::Object(es).view() == JsonView::Object(entries_view(es@)),
{
    assert(JsonValue::Object(es).view()->Object_0 =~= entries_view(es@));
}

/// An array's view is the view of its items.
pub proof fn lemma_array_view(items: Vec<JsonValue>)
    ensures
        JsonValue::Array(items).view() == JsonView::Array(items_view(items@)),
{
    assert(JsonValue::Array(items).view()->Array_0 =~= items_view(items@));
}

// ── JSON text ───────────────────────────────────────────────────────────────

/// serde_json's dynamic value, carried through unchanged.
#[verifier::external_type_specification]
#[verifier::external_body]
pub struct ExJsonValue(serde_json::Value);

/// A serde_json value in the library's model, member for member (used by the
/// two serde_json wrappers below; it tells the variants apart and moves
/// their contents over).
#[verifier::external_body]
fn model_of_value(v: serde_json::Value) -> JsonValue {
    match v {
        serde_json::Value::Null => JsonValue::Null,
        serde_json::Value::Bool(b) => JsonValue::Bool(b),
        serde_json::Value::Number(n) => JsonValue::Number(n),
        serde_json::Value::String(s) => JsonValue::Str(s),
        serde_json::Value::Array(items) => JsonValue::Array(items.into_iter().map(model_of_value).collect()),
        serde_json::Value::Object(m) => JsonValue::Object(m.into_iter().map(|(k, v)| (k, model_of_value(v))).collect()),
    }
}

/// A value of the library's model as a serde_json value, member for member
/// (used by the serde_json wrappers below).
#[verifier::external_body]
fn value_of_model(v: &JsonValue) -> serde_json::Value {
    match v {
        JsonValue::Null => serde_json::Value::Null,
        JsonValue::Bool(b) => serde_json::Value::Bool(*b),
        JsonValue::Number(n) => serde_json::Value::Number(n.clone()),
        JsonValue::Str(s) => serde_json::Value::String(s.clone()),
        JsonValue::Array(items) => serde_json::Value::Array(items.iter().map(value_of_model).collect()),
        JsonValue::Object(es) => serde_json::Value::Object(es.iter().map(|(k, v)| (k.clone(), value_of_model(v))).collect()),
    }
}

/// What serde_json's `from_str::<Value>` gives for `text`, in the library's
/// model: the document, or the text of serde_json's error.
pub uninterp spec fn json_text_value(text: Seq<char>) -> Result<JsonView, Seq<char>>;

/// serde_json `from_str::<Value>`. Claimed: the document, or the error's
/// text, is `json_text_value(text@)`.
#[verifier::external_body]
pub(crate) fn parse_json_text(text: &str) -> (r: Result<JsonValue, String>)
    ensures
        match r {
            Ok(v) => json_text_value(text@) == Ok::<JsonView, Seq<char>>(v.view()),
            Err(m) => json_text_value(text@) == Err::<JsonView, Seq<char>>(m@),
        },
{
    serde_json::from_str::<serde_json::Value>(text).map(model_of_value).map_err(|e| e.to_string())
}

/// The text that serde_json's `Value::to_string` writes for `v`.
pub uninterp spec fn json_text_of(v: JsonView) -> Seq<char>;

/// serde_json `Value::to_string`. Claimed: the text is `json_text_of(v.view())`.
#[verifier::external_body]
pub(crate) fn json_text(v: &JsonValue) -> (s: String)
    ensures
        s@ == json_text_of(v.view()),
{
    value_of_model(v).to_string()
}

// ── member lookup and update ────────────────────────────────────────────────

/// Index of the first member at or after `i` whose key is `key`.
pub open spec fn key_index_from(es: Seq<(Seq<char>, JsonView)>, key: Seq<char>, i: int) -> Option<int>
    decreases es.len() - i,
{
    if i < 0 || i >= es.len() {
        None
    } else if es[i].0 == key {
        Some(i)
    } else {
        key_index_from(es, key, i + 1)
    }
}

/// Index of the first member whose key is `key`.
pub open spec fn key_index(es: Seq<(Seq<char>, JsonView)>, key: Seq<char>) -> Option<int> {
    key_index_from(es, key, 0)
}

/// The value of member `key`, or null when there is none.
pub open spec fn member(es: Seq<(Seq<char>, JsonView)>, key: Seq<char>) -> JsonView {
    match key_index(es, key) {
        Some(i) => es[i].1,
        None => JsonView::Null,
    }
}

/// `v[key]`: the member `key` of an object, null for anything else.
pub open spec fn get(v: JsonView, key: Seq<char>) -> JsonView {
    match v {
        JsonView::Object(es) => member(es, key),
        _ => JsonView::Null,
    }
}

/// The members with `key` set to `val`: replaced in place, or added last.
pub open spec fn with_member(es: Seq<(Seq<char>, JsonView)>, key: Seq<char>, val: JsonView) -> Seq<(Seq<char>, JsonView)> {
    match key_index(es, key) {
        Some(i) => es.update(i, (key, val)),
        None => es.push((key, val)),
    }
}

/// The members without `key`.
pub open spec fn without_member(es: Seq<(Seq<char>, JsonView)>, key: Seq<char>) -> Seq<(Seq<char>, JsonView)> {
    match key_index(es, key) {
        Some(i) => es.remove(i),
        None => es,
    }
}

/// The text of a string value.
pub open spec fn as_str(v: JsonView) -> Option<Seq<char>> {
    match v {
        JsonView::Str(s) => Some(s),
        _ => None,
    }
}

pub proof fn lemma_key_index_from(es: Seq<(Seq<char>, JsonView)>, key: Seq<char>, i: int)
    requires
        0 <= i,
    ensures
        match key_index_from(es, key, i) {
            Some(k) => i <= k < es.len() && es[k].0 == key && forall|j: int| i <= j < k ==> es[j].0 != key,
            None => forall|j: int| i <= j < es.len() ==> es[j].0 != key,
        },
    decreases es.len() - i,
{
    if i < es.len() && es[i].0 != key {
        lemma_key_index_from(es, key, i + 1);
    }
}

/// Index of the first member whose key is `key`.
pub fn find_key(es: &Vec<(String, JsonValue)>, key: &String) -> (r: Option<usize>)
    ensures
        r matches Some(i) ==> key_index(entries_view(es@), key@) == Some(i as int) && i < es@.len(),
        r is None ==> key_index(entries_view(es@), key@) is None,
{
    let ghost ev = entries_view(es@);
    let mut i: usize = 0;
    while i < es.len()
        invariant
            i <= es@.len(),
            ev == entries_view(es@),
            key_index(ev, key@) == key_index_from(ev, key@, i as int),
        decreases es@.len() - i,
    {
        if es[i].0 == *key {
            return Some(i);
        }
        i = i + 1;
    }
    None
}

/// Sets member `key` to `val`, in place when it exists, else last.
pub fn set_member(es: &mut Vec<(String, JsonValue)>, key: String, val: JsonValue)
    ensures
        entries_view(final(es)@) == with_member(entries_view(old(es)@), key@, val.view()),
{
    match find_key(es, &key) {
        Some(i) => {
            es.set(i, (key, val));
            assert(entries_view(es@) =~= with_member(entries_view(old(es)@), key@, val.view()));
        },
        None => {
            es.push((key, val));
            assert(entries_view(es@) =~= with_member(entries_view(old(es)@), key@, val.view()));
        },
    }
}

/// Removes member `key`, if there is one.
pub fn remove_member(es: &mut Vec<(String, JsonValue)>, key: &String)
    ensures
        entries_view(final(es)@) == without_member(entries_view(old(es)@), key@),
{
    match find_key(es, key) {
        Some(i) => {
            es.remove(i);
            assert(entries_view(es@) =~= without_member(entries_view(old(es)@), key@));
        },
        None => {},
    }
}

/// `es[key]` is a string: its text.
pub fn member_str(es: &Vec<(String, JsonValue)>, key: &String) -> (r: Option<String>)
    ensures
        r matches Some(s) ==> as_str(member(entries_view(es@), key@)) == Some(s@),
        r is None ==> as_str(member(entries_view(es@), key@)) is None,
{
    match find_key(es, key) {
        Some(i) => match &es[i].1 {
            JsonValue::Str(s) => Some(s.clone()),
            _ => None,
        },
        None => None,
    }
}

/// Whether `es[key]` is null (absent members read as null).
pub fn member_is_null(es: &Vec<(String, JsonValue)>, key: &String) -> (b: bool)
    ensures
        b == (member(entries_view(es@), key@) is Null),
{
    match find_key(es, key) {
        Some(i) => match &es[i].1 {
            JsonValue::Null => true,
            _ => false,
        },
        None => true,
    }
}

// ── clean-up of service payloads ────────────────────────────────────────────

/// An artist without an ID but with a name gets the synthetic ID made from
/// the name with prefix `yt_gen`.
pub open spec fn sanitized_artist(a: JsonView) -> JsonView {
    match a {
        JsonView::Object(es) => match as_str(member(es, "name"@)) {
            Some(name) if member(es, "id"@) is Null => JsonView::Object(
                with_member(es, "id"@, JsonView::Str(fallback_id("yt_gen"@, name))),
            ),
            _ => a,
        },
        _ => a,
    }
}

/// A track without `thumbnail_url` takes it from `thumbnail.url` when that
/// is a string.
pub open spec fn with_thumbnail_url(t: JsonView) -> JsonView {
    match t {
        JsonView::Object(es) => match as_str(get(member(es, "thumbnail"@), "url"@)) {
            Some(url) if member(es, "thumbnail_url"@) is Null => JsonView::Object(
                with_member(es, "thumbnail_url"@, JsonView::Str(url)),
            ),
            _ => t,
        },
        _ => t,
    }
}

/// A track loses its `thumbnail` member.
pub open spec fn without_thumbnail(t: JsonView) -> JsonView {
    match t {
        JsonView::Object(es) => JsonView::Object(without_member(es, "thumbnail"@)),
        _ => t,
    }
}

/// Each artist in a track's `artists` array is cleaned up.
pub open spec fn with_artist_ids(t: JsonView) -> JsonView {
    match t {
        JsonView::Object(es) => match key_index(es, "artists"@) {
            Some(i) => match es[i].1 {
                JsonView::Array(items) => JsonView::Object(
                    es.update(i, (es[i].0, JsonView::Array(items.map_values(|a: JsonView| sanitized_artist(a))))),
                ),
                _ => t,
            },
            None => t,
        },
        _ => t,
    }
}

/// The clean-up of one track: thumbnail URL filled in, `thumbnail` dropped,
/// artist IDs filled in.
pub open spec fn sanitized_track(t: JsonView) -> JsonView {
    with_artist_ids(without_thumbnail(with_thumbnail_url(t)))
}

/// The clean-up of a payload: each track of a list, or the one track.
pub open spec fn sanitized(data: JsonView) -> JsonView {
    match data {
        JsonView::Array(items) => JsonView::Array(items.map_values(|t: JsonView| sanitized_track(t))),
        JsonView::Object(_) => sanitized_track(data),
        _ => data,
    }
}

/// Cleans up one artist object.
pub fn sanitize_artist(a: JsonValue) -> (r: JsonValue)
    ensures
        r.view() == sanitized_artist(a.view()),
{
    match a {
        JsonValue::Object(es) => {
            let mut es = es;
            proof {
                lemma_object_view(es);
            }
            let id_key = String::from_str("id");
            let name_key = String::from_str("name");
            if member_is_null(&es, &id_key) {
                if let Some(name) = member_str(&es, &name_key) {
                    let fid = generate_fallback_id("yt_gen", name.as_str());
                    set_member(&mut es, id_key, JsonValue::Str(fid));
                }
            }
            proof {
                lemma_object_view(es);
            }
            JsonValue::Object(es)
        },
        other => other,
    }
}

/// Cleans up each artist of a list.
pub fn sanitize_artists(items: Vec<JsonValue>) -> (r: Vec<JsonValue>)
    ensures
        items_view(r@) == items_view(items@).map_values(|a: JsonView| sanitized_artist(a)),
{
    let mut items = items;
    let ghost orig = items@;
    let n = items.len();
    let mut i: usize = 0;
    while i < n
        invariant
            n == items@.len(),
            n == orig.len(),
            i <= n,
            forall|j: int| 0 <= j < i ==> (#[trigger] items@[j]).view() == sanitized_artist(orig[j].view()),
            forall|j: int| i <= j < n ==> #[trigger] items@[j] == orig[j],
        decreases n - i,
    {
        let mut tmp = JsonValue::Null;
        items.set_and_swap(i, &mut tmp);
        let done = sanitize_artist(tmp);
        items.set(i, done);
        i = i + 1;
    }
    assert(items_view(items@) =~= items_view(orig).map_values(|a: JsonView| sanitized_artist(a)));
    items
}

/// `es.thumbnail.url`, when it is a string.
fn thumbnail_url_of(es: &Vec<(String, JsonValue)>) -> (r: Option<String>)
    ensures
        r matches Some(s) ==> as_str(get(member(entries_view(es@), "thumbnail"@), "url"@)) == Some(s@),
        r is None ==> as_str(get(member(entries_view(es@), "thumbnail"@), "url"@)) is None,
{
    let thumb_key = String::from_str("thumbnail");
    let url_key = String::from_str("url");
    match find_key(es, &thumb_key) {
        Some(i) => match &es[i].1 {
            JsonValue::Object(inner) => {
                proof {
                    lemma_object_view(*inner);
                }
                member_str(inner, &url_key)
            },
            _ => None,
        },
        None => None,
    }
}

/// Cleans up one track object.
pub fn sanitize_track(t: JsonValue) -> (r: JsonValue)
    ensures
        r.view() == sanitized_track(t.view()),
{
    match t {
        JsonValue::Object(es) => {
            let mut es = es;
            let ghost v0 = JsonValue::Object(es).view();
            proof {
                lemma_object_view(es);
            }
            // thumbnail.url → thumbnail_url
            let url_key = String::from_str("thumbnail_url");
            if member_is_null(&es, &url_key) {
                if let Some(url) = thumbnail_url_of(&es) {
                    set_member(&mut es, url_key, JsonValue::Str(url));
                }
            }
            let ghost v1 = JsonView::Object(entries_view(es@));
            assert(v1 == with_thumbnail_url(v0));
            // drop thumbnail
            let thumb_key = String::from_str("thumbnail");
            remove_member(&mut es, &thumb_key);
            let ghost v2 = JsonView::Object(entries_view(es@));
            assert(v2 == without_thumbnail(v1));
            // artist IDs
            let artists_key = String::from_str("artists");
            match find_key(&es, &artists_key) {
                Some(i) => {
                    let ghost before = es@;
                    let mut tmp: (String, JsonValue) = (String::new(), JsonValue::Null);
                    es.set_and_swap(i, &mut tmp);
                    let (k, v) = tmp;
                    match v {
                        JsonValue::Array(items) => {
                            proof {
                                lemma_array_view(items);
                            }
                            let done = sanitize_artists(items);
                            proof {
                                lemma_array_view(done);
                            }
                            es.set(i, (k, JsonValue::Array(done)));
                            assert(entries_view(es@) =~= entries_view(before).update(
                                i as int,
                                (entries_view(before)[i as int].0, JsonView::Array(
                                    items_view(items@).map_values(|a: JsonView| sanitized_artist(a)),
                                )),
                            ));
                        },
                        other => {
                            es.set(i, (k, other));
                            assert(entries_view(es@) =~= entries_view(before));
                        },
                    }
                },
                None => {},
            }
            proof {
                lemma_object_view(es);
            }
            JsonValue::Object(es)
        },
        other => other,
    }
}

/// Cleans up a service payload: each track of a list, or the one track.
pub fn sanitize(data: JsonValue) -> (r: JsonValue)
    ensures
        r.view() == sanitized(data.view()),
{
    match data {
        JsonValue::Array(items) => {
            let mut items = items;
            proof {
                lemma_array_view(items);
            }
            let ghost orig = items@;
            let n = items.len();
            let mut i: usize = 0;
            while i < n
                invariant
                    n == items@.len(),
                    n == orig.len(),
                    i <= n,
                    forall|j: int| 0 <= j < i ==> (#[trigger] items@[j]).view() == sanitized_track(orig[j].view()),
                    forall|j: int| i <= j < n ==> #[trigger] items@[j] == orig[j],
                decreases n - i,
            {
                let mut tmp = JsonValue::Null;
                items.set_and_swap(i, &mut tmp);
                let done = sanitize_track(tmp);
                items.set(i, done);
                i = i + 1;
            }
            proof {
                lemma_array_view(items);
                assert(items_view(items@) =~= items_view(orig).map_values(|t: JsonView| sanitized_track(t)));
            }
            JsonValue::Array(items)
        },
        JsonValue::Object(es) => sanitize_track(JsonValue::Object(es)),
        other => other,
    }
}

} // verus!
