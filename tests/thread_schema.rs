use chan_thread::{
    thread_from_response, thread_url, Capcode, DecodeError, JsonValue, Post, ResponseError, Thread,
};

fn text(s: &str) -> JsonValue {
    JsonValue::Str(s.to_string())
}

fn object(entries: Vec<(&str, JsonValue)>) -> JsonValue {
    JsonValue::Object(entries.into_iter().map(|(k, v)| (k.to_string(), v)).collect())
}

fn entries(entries: Vec<(&str, JsonValue)>) -> Vec<(String, JsonValue)> {
    entries.into_iter().map(|(k, v)| (k.to_string(), v)).collect()
}

fn minimal_post(no: u64) -> Vec<(&'static str, JsonValue)> {
    vec![
        ("no", JsonValue::UInt(no)),
        ("now", text("09/13/20(Sun)08:26")),
        ("time", JsonValue::UInt(1600000000)),
        ("name", text("Anonymous")),
    ]
}

fn thread_doc(posts: Vec<JsonValue>) -> JsonValue {
    object(vec![("posts", JsonValue::Array(posts))])
}

fn bare_post(no: u64) -> Post {
    Post::decode(&entries(minimal_post(no))).unwrap()
}

fn full_post() -> Post {
    let mut p = bare_post(133037149);
    p.res_to = Some(133000000);
    p.sticky = Some(1);
    p.closed = Some(0);
    p.tripcode = Some("!Ep8pui8Vw2".to_string());
    p.id = Some("Kx3a9bQz".to_string());
    p.capcode = Some(Capcode::Founder);
    p.country = Some("NL".to_string());
    p.country_name = Some("Netherlands".to_string());
    p.board_flag = Some("KEK".to_string());
    p.flag_name = Some("Kekistani".to_string());
    p.subject = Some("General".to_string());
    p.comment = Some("&gt;implying".to_string());
    p.upload_time = Some(1600000000123);
    p.filename = Some("cat".to_string());
    p.upload_ext = Some(".jpg".to_string());
    p.upload_size = Some(5_000_000);
    p.file_hash = Some("dGVzdA==".to_string());
    p.width = Some(1920);
    p.height = Some(1080);
    p.thumbnail_width = Some(250);
    p.thumbnail_height = Some(140);
    p.file_deleted = Some(0);
    p.spoiler = Some(1);
    p.custom_spoiler = Some(3);
    p.replies = Some(310);
    p.images = Some(120);
    p.bump_limit = Some(1);
    p.image_limit = Some(0);
    p.tag = Some("Other".to_string());
    p.semantic_url = Some("general-thread".to_string());
    p.since_4pass = Some(2016);
    p.unique_ips = Some(77);
    p.mobile_img = Some(1);
    p.archived = Some(1);
    p.archived_on = Some(1600086400);
    p
}

fn lookup<'a>(o: &'a [(String, JsonValue)], key: &str) -> Option<&'a JsonValue> {
    o.iter().find(|(k, _)| k == key).map(|(_, v)| v)
}

#[test]
fn capcode_names_round_trip() {
    let all = [
        Capcode::Mod,
        Capcode::Admin,
        Capcode::AdminHighlight,
        Capcode::Manager,
        Capcode::Developer,
        Capcode::Founder,
    ];
    for c in all {
        assert_eq!(Capcode::from_name(&c.name()), Some(c));
    }
    assert_eq!(Capcode::AdminHighlight.name(), "admin_highlight");
    assert_eq!(Capcode::Mod.name(), "mod");
    assert_eq!(Capcode::from_name(&"owner".to_string()), None);
    assert_eq!(Capcode::from_name(&"Mod".to_string()), None);
}

#[test]
fn post_without_resto_has_no_reply_target() {
    let o = entries(minimal_post(133037149));
    let p = Post::decode(&o).unwrap();
    assert_eq!(p.post_id, 133037149);
    assert_eq!(p.res_to, None);
}

#[test]
fn reply_keeps_its_target() {
    let mut o = minimal_post(133037150);
    o.push(("resto", JsonValue::UInt(133037149)));
    let p = Post::decode(&entries(o)).unwrap();
    assert_eq!(p.res_to, Some(133037149));
}

#[test]
fn capcode_admin_highlight_and_mod_decode() {
    let mut o = minimal_post(1);
    o.push(("capcode", text("admin_highlight")));
    assert_eq!(Post::decode(&entries(o)).unwrap().capcode, Some(Capcode::AdminHighlight));
    let mut o = minimal_post(1);
    o.push(("capcode", text("mod")));
    assert_eq!(Post::decode(&entries(o)).unwrap().capcode, Some(Capcode::Mod));
}

#[test]
fn unknown_capcode_is_a_decode_failure() {
    let mut o = minimal_post(1);
    o.push(("capcode", text("owner")));
    assert_eq!(
        Post::decode(&entries(o)),
        Err(DecodeError::InvalidField("capcode".to_string()))
    );
}

#[test]
fn single_post_thread_decodes_with_optional_fields_absent() {
    let doc = thread_doc(vec![object(vec![
        ("no", JsonValue::UInt(1)),
        ("now", text("...")),
        ("time", JsonValue::UInt(1600000000)),
        ("name", text("Anonymous")),
    ])]);
    let t = Thread::decode(&doc).unwrap();
    assert_eq!(t.posts.len(), 1);
    let p = &t.posts[0];
    assert_eq!(p.post_id, 1);
    assert_eq!(p.now, "...");
    assert_eq!(p.time, 1600000000);
    assert_eq!(p.name, "Anonymous");
    let mut expected = p.clone();
    expected.res_to = None;
    assert_eq!(p, &expected);
    assert_eq!(p.res_to, None);
    assert_eq!(p.sticky, None);
    assert_eq!(p.capcode, None);
    assert_eq!(p.subject, None);
    assert_eq!(p.comment, None);
    assert_eq!(p.upload_time, None);
    assert_eq!(p.thumbnail_width, None);
    assert_eq!(p.archived_on, None);
    assert_eq!(p.tag, None);
}

#[test]
fn missing_thread_is_an_error_not_an_empty_thread() {
    assert_eq!(thread_from_response(404, &None), Err(ResponseError::Status(404)));
    let empty = Some(thread_doc(vec![]));
    assert_eq!(thread_from_response(404, &empty), Err(ResponseError::Status(404)));
    assert_eq!(thread_from_response(500, &None), Err(ResponseError::Status(500)));
    assert_eq!(thread_from_response(200, &None), Err(ResponseError::NotJson));
}

#[test]
fn successful_response_decodes_the_body() {
    let doc = Some(thread_doc(vec![object(minimal_post(7))]));
    let t = thread_from_response(200, &doc).unwrap();
    assert_eq!(t.posts.len(), 1);
    assert_eq!(t.posts[0].post_id, 7);
    let bad = Some(object(vec![]));
    assert_eq!(
        thread_from_response(200, &bad),
        Err(ResponseError::Decode(DecodeError::InvalidField("posts".to_string())))
    );
}

#[test]
fn repeated_decodes_share_nothing() {
    let doc = thread_doc(vec![object(minimal_post(5)), object(minimal_post(6))]);
    let mut first = thread_from_response(200, &Some(doc)).unwrap();
    let doc = thread_doc(vec![object(minimal_post(5)), object(minimal_post(6))]);
    let second = thread_from_response(200, &Some(doc)).unwrap();
    assert_eq!(first, second);
    first.posts[0].name.push_str(" (edited)");
    first.posts.pop();
    assert_eq!(second.posts.len(), 2);
    assert_eq!(second.posts[0].name, "Anonymous");
    assert_ne!(first, second);
}

#[test]
fn thread_round_trips_through_its_encoding() {
    let t = Thread { posts: vec![full_post(), bare_post(133037150)] };
    let doc = t.encode();
    assert_eq!(Thread::decode(&doc), Ok(t));
}

#[test]
fn encoding_omits_absent_fields() {
    let p = bare_post(1);
    let o = p.encode();
    assert_eq!(o.len(), 4);
    assert_eq!(lookup(&o, "no"), Some(&JsonValue::UInt(1)));
    assert_eq!(lookup(&o, "name"), Some(&text("Anonymous")));
    assert_eq!(lookup(&o, "resto"), None);
}

#[test]
fn encoding_uses_wire_keys() {
    let o = full_post().encode();
    assert_eq!(o.len(), 39);
    assert_eq!(lookup(&o, "sub"), Some(&text("General")));
    assert_eq!(lookup(&o, "com"), Some(&text("&gt;implying")));
    assert_eq!(lookup(&o, "tim"), Some(&JsonValue::UInt(1600000000123)));
    assert_eq!(lookup(&o, "fsize"), Some(&JsonValue::UInt(5_000_000)));
    assert_eq!(lookup(&o, "tn_w"), Some(&JsonValue::UInt(250)));
    assert_eq!(lookup(&o, "tn_h"), Some(&JsonValue::UInt(140)));
    assert_eq!(lookup(&o, "since4pass"), Some(&JsonValue::UInt(2016)));
    assert_eq!(lookup(&o, "m_img"), Some(&JsonValue::UInt(1)));
    assert_eq!(lookup(&o, "capcode"), Some(&text("founder")));
    assert_eq!(lookup(&o, "filedeleted"), Some(&JsonValue::UInt(0)));
}

#[test]
fn decode_then_encode_keeps_every_field() {
    let mut o = minimal_post(42);
    o.push(("resto", JsonValue::UInt(40)));
    o.push(("capcode", text("developer")));
    o.push(("w", JsonValue::UInt(800)));
    o.push(("spoiler", JsonValue::UInt(1)));
    o.push(("com", text("hello")));
    o.push(("sub", JsonValue::Null));
    o.push(("extra", text("ignored")));
    let input = entries(o);
    let out = Post::decode(&input).unwrap().encode();
    for key in ["no", "now", "time", "name", "resto", "capcode", "w", "spoiler", "com"] {
        assert_eq!(lookup(&out, key), lookup(&input, key), "{}", key);
    }
    assert_eq!(lookup(&out, "sub"), None);
    assert_eq!(lookup(&out, "extra"), None);
    assert_eq!(out.len(), 9);
}

#[test]
fn wide_values_are_kept() {
    let mut o = minimal_post(u64::MAX);
    o.push(("archived_on", JsonValue::UInt(4_000_000_000)));
    let p = Post::decode(&entries(o)).unwrap();
    assert_eq!(p.post_id, u64::MAX);
    assert_eq!(p.archived_on, Some(4_000_000_000));
}

#[test]
fn null_optional_field_reads_as_absent() {
    let mut o = minimal_post(1);
    o.push(("trip", JsonValue::Null));
    o.push(("fsize", JsonValue::Null));
    let p = Post::decode(&entries(o)).unwrap();
    assert_eq!(p.tripcode, None);
    assert_eq!(p.upload_size, None);
}

#[test]
fn missing_required_field_is_reported() {
    let o = entries(vec![
        ("no", JsonValue::UInt(1)),
        ("now", text("...")),
        ("name", text("Anonymous")),
    ]);
    assert_eq!(Post::decode(&o), Err(DecodeError::InvalidField("time".to_string())));
}

#[test]
fn null_required_field_is_reported() {
    let mut o = minimal_post(1);
    o[3] = ("name", JsonValue::Null);
    assert_eq!(Post::decode(&entries(o)), Err(DecodeError::InvalidField("name".to_string())));
}

#[test]
fn wrong_types_are_reported() {
    let o = entries(vec![
        ("no", text("1")),
        ("now", text("...")),
        ("time", JsonValue::UInt(1)),
        ("name", text("Anonymous")),
    ]);
    assert_eq!(Post::decode(&o), Err(DecodeError::InvalidField("no".to_string())));
    let mut o = minimal_post(1);
    o.push(("sticky", JsonValue::UInt(256)));
    assert_eq!(Post::decode(&entries(o)), Err(DecodeError::InvalidField("sticky".to_string())));
    let mut o = minimal_post(1);
    o.push(("w", JsonValue::OtherNumber));
    assert_eq!(Post::decode(&entries(o)), Err(DecodeError::InvalidField("w".to_string())));
    let mut o = minimal_post(1);
    o.push(("spoiler", JsonValue::Bool(true)));
    assert_eq!(Post::decode(&entries(o)), Err(DecodeError::InvalidField("spoiler".to_string())));
    let mut o = minimal_post(1);
    o.push(("capcode", JsonValue::UInt(1)));
    assert_eq!(Post::decode(&entries(o)), Err(DecodeError::InvalidField("capcode".to_string())));
}

#[test]
fn first_entry_of_a_repeated_key_wins() {
    let mut o = minimal_post(1);
    o.push(("no", JsonValue::UInt(2)));
    assert_eq!(Post::decode(&entries(o)).unwrap().post_id, 1);
}

#[test]
fn document_shape_errors() {
    assert_eq!(Thread::decode(&JsonValue::Null), Err(DecodeError::NotAnObject));
    assert_eq!(
        Thread::decode(&JsonValue::Array(vec![])),
        Err(DecodeError::NotAnObject)
    );
    assert_eq!(
        Thread::decode(&object(vec![])),
        Err(DecodeError::InvalidField("posts".to_string()))
    );
    assert_eq!(
        Thread::decode(&object(vec![("posts", text("none"))])),
        Err(DecodeError::InvalidField("posts".to_string()))
    );
    assert_eq!(
        Thread::decode(&thread_doc(vec![object(minimal_post(1)), JsonValue::UInt(3)])),
        Err(DecodeError::NotAnObject)
    );
    let mut broken = minimal_post(2);
    broken.remove(0);
    assert_eq!(
        Thread::decode(&thread_doc(vec![object(minimal_post(1)), object(broken)])),
        Err(DecodeError::InvalidField("no".to_string()))
    );
}

#[test]
fn empty_posts_array_is_an_empty_thread() {
    let t = Thread::decode(&thread_doc(vec![])).unwrap();
    assert!(t.posts.is_empty());
}

#[test]
fn posts_keep_their_order() {
    let doc = thread_doc(vec![object(minimal_post(10)), object(minimal_post(11)), object(minimal_post(12))]);
    let t = Thread::decode(&doc).unwrap();
    let ids: Vec<u64> = t.posts.iter().map(|p| p.post_id).collect();
    assert_eq!(ids, vec![10, 11, 12]);
}

#[test]
fn thread_url_interpolates_board_and_id() {
    assert_eq!(thread_url("pol", "22310966"), "https://a.4cdn.org/pol/thread/22310966.json");
    assert_eq!(thread_url("", ""), "https://a.4cdn.org//thread/.json");
}
