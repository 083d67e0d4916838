use trackhub::hash::generate_fallback_id;
use trackhub::json::{sanitize, JsonValue};
use trackhub::python_client::{call_payload, interpret_reply, reply_of_line, request_line, search_payload, PythonClient};
use trackhub::python_service::{is_ready_line, PythonMicroservice};

fn s(x: &str) -> JsonValue {
    JsonValue::Str(x.to_string())
}

fn obj(members: Vec<(&str, JsonValue)>) -> JsonValue {
    JsonValue::Object(members.into_iter().map(|(k, v)| (k.to_string(), v)).collect())
}

fn member<'a>(v: &'a JsonValue, key: &str) -> Option<&'a JsonValue> {
    match v {
        JsonValue::Object(es) => es.iter().find(|(k, _)| k == key).map(|(_, v)| v),
        _ => None,
    }
}

fn text(v: Option<&JsonValue>) -> Option<&str> {
    match v {
        Some(JsonValue::Str(s)) => Some(s.as_str()),
        _ => None,
    }
}

fn raw_track() -> JsonValue {
    obj(vec![
        ("id", s("dQw4w9WgXcQ")),
        ("title", s("Song")),
        ("thumbnail", obj(vec![("url", s("https://img/1.jpg")), ("width", JsonValue::Number(60u64.into()))])),
        (
            "artists",
            JsonValue::Array(vec![
                obj(vec![("id", JsonValue::Null), ("name", s("Nameless"))]),
                obj(vec![("id", s("UCreal")), ("name", s("Known"))]),
                obj(vec![("name", JsonValue::Null)]),
            ]),
        ),
    ])
}

#[test]
fn sanitize_fills_thumbnail_url_and_drops_thumbnail() {
    let t = sanitize(raw_track());
    assert_eq!(text(member(&t, "thumbnail_url")), Some("https://img/1.jpg"));
    assert!(member(&t, "thumbnail").is_none());
}

#[test]
fn sanitize_keeps_an_existing_thumbnail_url() {
    let t = obj(vec![
        ("thumbnail_url", s("keep")),
        ("thumbnail", obj(vec![("url", s("other"))])),
    ]);
    let t = sanitize(t);
    assert_eq!(text(member(&t, "thumbnail_url")), Some("keep"));
    assert!(member(&t, "thumbnail").is_none());
}

#[test]
fn sanitize_gives_nameful_artists_without_id_a_synthetic_id() {
    let t = sanitize(raw_track());
    let artists = match member(&t, "artists") {
        Some(JsonValue::Array(a)) => a,
        _ => panic!("artists missing"),
    };
    let expected = generate_fallback_id("yt_gen", "Nameless");
    assert_eq!(text(member(&artists[0], "id")), Some(expected.as_str()));
    assert_eq!(text(member(&artists[1], "id")), Some("UCreal"));
    assert!(member(&artists[2], "id").is_none());
}

#[test]
fn sanitize_treats_each_track_of_a_list() {
    let data = sanitize(JsonValue::Array(vec![raw_track(), JsonValue::Null, raw_track()]));
    match data {
        JsonValue::Array(items) => {
            assert_eq!(items.len(), 3);
            assert_eq!(text(member(&items[0], "thumbnail_url")), Some("https://img/1.jpg"));
            assert!(matches!(items[1], JsonValue::Null));
            assert!(member(&items[2], "thumbnail").is_none());
        },
        _ => panic!("not a list"),
    }
}

#[test]
fn sanitize_leaves_scalars_alone() {
    assert!(matches!(sanitize(s("x")), JsonValue::Str(ref v) if v == "x"));
    assert!(matches!(sanitize(JsonValue::Bool(true)), JsonValue::Bool(true)));
}

fn shape(v: &JsonValue) -> String {
    match v {
        JsonValue::Null => "null".to_string(),
        JsonValue::Bool(b) => b.to_string(),
        JsonValue::Number(n) => n.to_string(),
        JsonValue::Str(s) => format!("{:?}", s),
        JsonValue::Array(a) => format!("[{}]", a.iter().map(shape).collect::<Vec<_>>().join(",")),
        JsonValue::Object(es) => format!(
            "{{{}}}",
            es.iter().map(|(k, v)| format!("{:?}:{}", k, shape(v))).collect::<Vec<_>>().join(",")
        ),
    }
}

#[test]
fn sanitize_twice_is_sanitize_once() {
    let once = sanitize(JsonValue::Array(vec![raw_track(), raw_track()]));
    let before = shape(&once);
    let twice = sanitize(once);
    assert_eq!(shape(&twice), before);
}

#[test]
fn ok_reply_gives_cleaned_data() {
    let reply = obj(vec![("status", s("ok")), ("data", raw_track())]);
    match interpret_reply(reply) {
        Ok(d) => {
            assert_eq!(text(member(&d, "thumbnail_url")), Some("https://img/1.jpg"));
            assert_eq!(text(member(&d, "id")), Some("dQw4w9WgXcQ"));
        },
        Err(e) => panic!("unexpected error {e}"),
    }
}

#[test]
fn ok_reply_without_data_gives_null() {
    let reply = obj(vec![("status", s("ok"))]);
    assert!(matches!(interpret_reply(reply), Ok(JsonValue::Null)));
}

#[test]
fn error_reply_gives_its_message() {
    let reply = obj(vec![("status", s("error")), ("message", s("no such video"))]);
    assert_eq!(interpret_reply(reply).err(), Some("no such video".to_string()));
}

#[test]
fn error_reply_without_message_gives_generic_text() {
    let reply = obj(vec![("status", s("fail")), ("message", JsonValue::Number(3u64.into()))]);
    assert_eq!(interpret_reply(reply).err(), Some("Error desconocido".to_string()));
    assert_eq!(interpret_reply(JsonValue::Null).err(), Some("Error desconocido".to_string()));
    let reply = obj(vec![("status", JsonValue::Bool(true))]);
    assert_eq!(interpret_reply(reply).err(), Some("Error desconocido".to_string()));
}

#[test]
fn requests_hold_action_query_and_limit() {
    let p = call_payload("track", "abc");
    assert_eq!(text(member(&p, "action")), Some("track"));
    assert_eq!(text(member(&p, "query")), Some("abc"));
    let p = search_payload("q", 7);
    assert_eq!(text(member(&p, "action")), Some("search"));
    assert_eq!(text(member(&p, "query")), Some("q"));
    match member(&p, "limit") {
        Some(JsonValue::Number(n)) => assert_eq!(n.as_u64(), Some(7)),
        _ => panic!("limit missing"),
    }
}

#[test]
fn client_address_is_host_colon_port() {
    let c = PythonClient::new("127.0.0.1".to_string(), 9999);
    assert_eq!(c.addr(), "127.0.0.1:9999");
    let c = PythonClient::new("hub".to_string(), 0);
    assert_eq!(c.addr(), "hub:0");
    assert_eq!(c.clone().addr(), "hub:0");
}

#[test]
fn service_readiness_line() {
    assert!(is_ready_line("[INFO] Music Hub escuchando en 127.0.0.1:9999"));
    assert!(!is_ready_line("Music Hub arrancando"));
}

#[test]
fn service_paths_are_below_root() {
    let m = PythonMicroservice::new(std::path::PathBuf::from("/srv"), "Music_Services/.venv", "Music_Services/hub.py");
    assert_eq!(m.venv_path, std::path::PathBuf::from("/srv/Music_Services/.venv"));
    assert_eq!(m.script_path, std::path::PathBuf::from("/srv/Music_Services/hub.py"));
}

#[test]
fn sanitize_drops_one_thumbnail_per_pass_when_the_key_repeats() {
    let t = obj(vec![
        ("thumbnail", obj(vec![("url", s("a"))])),
        ("thumbnail", obj(vec![("url", s("b"))])),
    ]);
    let once = sanitize(t);
    assert_eq!(text(member(&once, "thumbnail_url")), Some("a"));
    assert!(member(&once, "thumbnail").is_some());
    let twice = sanitize(once);
    assert!(member(&twice, "thumbnail").is_none());
}

#[test]
fn service_tools_and_requirements_paths() {
    let m = PythonMicroservice::new(std::path::PathBuf::from("/srv"), "svc/.venv", "svc/hub.py");
    assert_eq!(m.python_path(), std::path::PathBuf::from("/srv/svc/.venv/bin/python"));
    assert_eq!(m.pip_path(), std::path::PathBuf::from("/srv/svc/.venv/bin/pip"));
    assert_eq!(m.requirements_path(), std::path::PathBuf::from("/srv/svc/requirements.txt"));
}

#[test]
fn request_line_is_the_json_text_and_a_newline() {
    assert_eq!(request_line(&call_payload("track", "abc")), "{\"action\":\"track\",\"query\":\"abc\"}\n");
    assert_eq!(request_line(&search_payload("q", 5)), "{\"action\":\"search\",\"limit\":5,\"query\":\"q\"}\n");
}

fn error_of(r: Result<JsonValue, String>) -> String {
    match r {
        Err(e) => e,
        Ok(_) => panic!("expected an error"),
    }
}

#[test]
fn reply_line_is_parsed_then_interpreted() {
    let d = reply_of_line(r#"{"status":"ok","data":{"id":"x","thumbnail":{"url":"u"}}}"#).unwrap();
    assert_eq!(text(member(&d, "thumbnail_url")), Some("u"));
    assert!(member(&d, "thumbnail").is_none());
    assert_eq!(error_of(reply_of_line(r#"{"status":"error","message":"boom"}"#)), "boom");
    assert_eq!(error_of(reply_of_line(r#"{"status":"error"}"#)), "Error desconocido");
    let expected = serde_json::from_str::<serde_json::Value>("not json").unwrap_err().to_string();
    assert_eq!(error_of(reply_of_line("not json")), expected);
}
