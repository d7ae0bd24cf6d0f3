use reddit_embed::post::{
    at, decode_title, extract, find_post, get, integer_at, preview_source, read_post, summarize,
    text_at, Json, MetadataError, PostSummary, PreviewSource,
};

fn text(value: &str) -> Json {
    Json::Text(value.to_string())
}

fn object(members: Vec<(&str, Json)>) -> Json {
    Json::Object(members.into_iter().map(|(key, value)| (key.to_string(), value)).collect())
}

fn post(extra: Vec<(&str, Json)>) -> Json {
    let mut members = vec![
        ("author", text("ferris")),
        ("score", Json::Number(Some(42))),
        ("subreddit", text("rust")),
        ("title", text("Tom &amp; Jerry")),
    ];
    members.extend(extra);
    object(members)
}

fn response(post: Json) -> Json {
    Json::Array(vec![
        object(vec![("data", object(vec![("children", Json::Array(vec![object(vec![("data", post)])]))]))]),
        object(vec![("kind", text("Listing"))]),
    ])
}

#[test]
fn response_is_read_into_a_summary() {
    let body = br#"[{"kind":"Listing","data":{"children":[{"kind":"t3","data":{
        "title":"Tom &amp; Jerry &lt;3","subreddit":"rust","author":"ferris","score":-42,
        "secure_media":null,"url_overridden_by_dest":"https://i.redd.it/x.png","extra":[1,2.5,true]}}]}},
        {"kind":"Listing","data":{"children":[]}}]"#;
    assert_eq!(
        read_post(body),
        Ok(PostSummary {
            title: "Tom & Jerry <3".to_string(),
            subreddit: "rust".to_string(),
            author: "ferris".to_string(),
            score: -42,
            preview: PreviewSource::Direct("https://i.redd.it/x.png".to_string()),
        })
    );
}

#[test]
fn response_that_is_no_json_is_a_syntax_error() {
    assert_eq!(
        read_post(b"<html>"),
        Err(MetadataError::Syntax("expected value at line 1 column 1".to_string()))
    );
    match read_post(b"") {
        Err(MetadataError::Syntax(reason)) => assert!(!reason.is_empty()),
        other => panic!("{:?}", other),
    }
    match read_post(b"[1, 2") {
        Err(MetadataError::Syntax(_)) => {}
        other => panic!("{:?}", other),
    }
}

#[test]
fn response_without_a_post_is_a_shape_error() {
    let bodies: [&[u8]; 8] = [
        b"null",
        b"[]",
        b"{}",
        br#"{"message":"Not Found","error":404}"#,
        br#"[{"data":{"children":[]}}]"#,
        br#"[{"data":{"children":[{"data":{"title":"t","subreddit":"s","author":"a"}}]}}]"#,
        br#"[{"data":{"children":[{"data":{"title":"t","subreddit":"s","author":"a","score":1.5}}]}}]"#,
        br#"[{"data":{"children":[{"data":{"title":7,"subreddit":"s","author":"a","score":1}}]}}]"#,
    ];
    for body in bodies {
        assert_eq!(read_post(body), Err(MetadataError::Shape));
    }
}

#[test]
fn score_must_fit_an_i64() {
    let fits = br#"[{"data":{"children":[{"data":{"title":"t","subreddit":"s","author":"a","score":9223372036854775807}}]}}]"#;
    assert_eq!(read_post(fits).unwrap().score, i64::MAX);
    let too_large = br#"[{"data":{"children":[{"data":{"title":"t","subreddit":"s","author":"a","score":9223372036854775808}}]}}]"#;
    assert_eq!(read_post(too_large), Err(MetadataError::Shape));
}

#[test]
fn members_and_elements_are_found() {
    let doc = object(vec![("a", text("x")), ("b", Json::Null), ("a", text("y"))]);
    assert_eq!(get(&doc, "a"), Some(&text("x")));
    assert_eq!(get(&doc, "b"), Some(&Json::Null));
    assert_eq!(get(&doc, "c"), None);
    assert_eq!(get(&text("a"), "a"), None);
    assert_eq!(text_at(&doc, "a"), Some("x".to_string()));
    assert_eq!(text_at(&doc, "b"), None);
    assert_eq!(integer_at(&object(vec![("n", Json::Number(Some(-3)))]), "n"), Some(-3));
    assert_eq!(integer_at(&object(vec![("n", Json::Number(None))]), "n"), None);
    assert_eq!(integer_at(&object(vec![("n", text("3"))]), "n"), None);
    let list = Json::Array(vec![Json::Bool(true), Json::Null]);
    assert_eq!(at(&list, 0), Some(&Json::Bool(true)));
    assert_eq!(at(&list, 1), Some(&Json::Null));
    assert_eq!(at(&list, 2), None);
    assert_eq!(at(&doc, 0), None);
}

#[test]
fn post_is_found_on_its_path() {
    let doc = response(post(vec![]));
    assert_eq!(find_post(&doc), Some(&post(vec![])));
    assert_eq!(find_post(&Json::Array(vec![])), None);
    assert_eq!(find_post(&Json::Null), None);
    assert_eq!(find_post(&post(vec![])), None);
    let summary = summarize(&doc).unwrap();
    assert_eq!(summary.title, "Tom &amp; Jerry");
    assert_eq!(summarize(&Json::Array(vec![Json::Null])), None);
}

#[test]
fn title_is_decoded() {
    let summary = extract(&post(vec![])).unwrap();
    assert_eq!(summary.title, "Tom &amp; Jerry");
    let decoded = decode_title(summary);
    assert_eq!(decoded.title, "Tom & Jerry");
    assert_eq!(decoded.author, "ferris");
    assert_eq!(decoded.subreddit, "rust");
    assert_eq!(decoded.score, 42);
    assert_eq!(decoded.preview, PreviewSource::Absent);
}

#[test]
fn embedded_video_is_streamed() {
    let video = object(vec![("reddit_video", object(vec![
        ("fallback_url", text("https://v.redd.it/x/DASH_720.mp4")),
        ("hls_url", text("https://v.redd.it/x/HLSPlaylist.m3u8")),
    ]))]);
    let with_video = post(vec![
        ("secure_media", video),
        ("url_overridden_by_dest", text("https://v.redd.it/x")),
    ]);
    assert_eq!(
        preview_source(&with_video),
        PreviewSource::Stream("https://v.redd.it/x/HLSPlaylist.m3u8".to_string())
    );
}

#[test]
fn embedded_media_without_a_stream_has_no_preview() {
    let foreign = object(vec![("oembed", object(vec![]))]);
    let with_foreign = post(vec![
        ("secure_media", foreign),
        ("url_overridden_by_dest", text("https://youtu.be/x")),
    ]);
    assert_eq!(preview_source(&with_foreign), PreviewSource::Absent);
    let no_stream = object(vec![("reddit_video", object(vec![("fallback_url", text("f"))]))]);
    assert_eq!(preview_source(&post(vec![("secure_media", no_stream)])), PreviewSource::Absent);
    let odd_stream = object(vec![("reddit_video", object(vec![("hls_url", Json::Number(Some(1)))]))]);
    assert_eq!(preview_source(&post(vec![("secure_media", odd_stream)])), PreviewSource::Absent);
    assert_eq!(preview_source(&post(vec![("secure_media", Json::Bool(false))])), PreviewSource::Absent);
}

#[test]
fn post_without_embedded_media_points_to_its_preview() {
    let direct = post(vec![
        ("secure_media", Json::Null),
        ("url_overridden_by_dest", text("https://i.redd.it/x.jpg")),
    ]);
    assert_eq!(preview_source(&direct), PreviewSource::Direct("https://i.redd.it/x.jpg".to_string()));
    let bare = post(vec![("url_overridden_by_dest", text("https://i.redd.it/y.gif"))]);
    assert_eq!(preview_source(&bare), PreviewSource::Direct("https://i.redd.it/y.gif".to_string()));
    assert_eq!(preview_source(&post(vec![("url", text("https://i.redd.it/z.gif"))])), PreviewSource::Absent);
    assert_eq!(preview_source(&post(vec![("url_overridden_by_dest", Json::Null)])), PreviewSource::Absent);
    assert_eq!(preview_source(&Json::Null), PreviewSource::Absent);
}
