use shorts_watch::enrich::{
    comments_source, enrich, metadata_source, parse_comments, parse_metadata, resolve_captions, Caption, CaptionRun,
    Failure, Fetched, Source, SourceError,
};
use shorts_watch::json::{same_text, Json};

fn s(t: &str) -> Json {
    Json::Str(t.to_string())
}

fn obj(fields: Vec<(&str, Json)>) -> Json {
    Json::Object(fields.into_iter().map(|(k, v)| (k.to_string(), v)).collect())
}

fn video_answer() -> Json {
    obj(vec![(
        "items",
        Json::Array(vec![obj(vec![
            (
                "snippet",
                obj(vec![("title", s("Cat jumps")), ("publishedAt", s("2024-05-01T00:00:00Z"))]),
            ),
            ("statistics", obj(vec![("viewCount", s("1234"))])),
            ("contentDetails", obj(vec![("duration", s("PT15S"))])),
        ])]),
    )])
}

fn comment(text: &str, likes: Json) -> Json {
    obj(vec![(
        "snippet",
        obj(vec![(
            "topLevelComment",
            obj(vec![(
                "snippet",
                obj(vec![
                    ("textDisplay", s(text)),
                    ("authorDisplayName", s("bob")),
                    ("likeCount", likes),
                    ("publishedAt", s("2024-05-02")),
                ]),
            )]),
        )]),
    )])
}

fn comments_answer() -> Json {
    obj(vec![(
        "items",
        Json::Array(vec![comment("first", Json::UInt(3)), comment("bad", Json::OtherNumber), comment("second", Json::UInt(0))]),
    )])
}

fn caption(text: &str) -> Caption {
    Caption { start_ms: 500, duration_ms: 1250, text: text.to_string() }
}

#[test]
fn metadata_with_defaults() {
    let m = parse_metadata(&video_answer()).unwrap();
    assert_eq!(m.title, "Cat jumps");
    assert_eq!(m.description, "");
    assert_eq!(m.duration, "PT15S");
    assert_eq!(m.view_count, "1234");
    assert_eq!(m.like_count, "0");
    assert_eq!(m.published_at, "2024-05-01T00:00:00Z");
}

#[test]
fn metadata_without_items_is_not_found() {
    assert_eq!(parse_metadata(&obj(vec![("items", Json::Array(vec![]))])).unwrap_err(), Failure::NotFound);
    assert_eq!(parse_metadata(&Json::Null).unwrap_err(), Failure::NotFound);
}

#[test]
fn metadata_without_title_is_missing_field() {
    let answer = obj(vec![(
        "items",
        Json::Array(vec![obj(vec![("contentDetails", obj(vec![("duration", s("PT1S"))]))])]),
    )]);
    assert_eq!(parse_metadata(&answer).unwrap_err(), Failure::MissingField);
}

#[test]
fn comments_skip_malformed_items() {
    let cs = parse_comments(&comments_answer());
    let texts: Vec<&str> = cs.iter().map(|c| c.text.as_str()).collect();
    assert_eq!(texts, vec!["first", "second"]);
    assert_eq!(cs[0].like_count, 3);
    assert_eq!(cs[0].author, "bob");
    assert!(parse_comments(&obj(vec![])).is_empty());
}

#[test]
fn fetch_failures_map_to_errors() {
    assert_eq!(metadata_source(&Fetched::Unreachable).unwrap_err(), Failure::Unreachable);
    assert_eq!(metadata_source(&Fetched::TimedOut).unwrap_err(), Failure::TimedOut);
    assert_eq!(metadata_source(&Fetched::BadStatus(403)).unwrap_err(), Failure::BadStatus(403));
    assert_eq!(comments_source(&Fetched::Unparsable).unwrap_err(), Failure::Unparsable);
    assert_eq!(comments_source(&Fetched::Body(comments_answer())).unwrap().len(), 2);
}

#[test]
fn captions_outcomes() {
    assert_eq!(resolve_captions(CaptionRun::SpawnFailed).unwrap_err(), Failure::SpawnFailed);
    assert_eq!(resolve_captions(CaptionRun::TimedOut).unwrap_err(), Failure::TimedOut);
    assert_eq!(
        resolve_captions(CaptionRun::Exited { success: true, parsed: None }).unwrap_err(),
        Failure::Unparsable
    );
    let ok = resolve_captions(CaptionRun::Exited { success: true, parsed: Some(vec![caption("hi")]) }).unwrap();
    assert_eq!(ok.len(), 1);
    assert_eq!(ok[0].start_ms, 500);
}

#[test]
fn metadata_failure_gives_partial_result() {
    let r = enrich(
        "abc123",
        &Fetched::BadStatus(500),
        &Fetched::Body(comments_answer()),
        CaptionRun::Exited { success: true, parsed: Some(vec![caption("a"), caption("b")]) },
    );
    assert!(r.metadata.is_none());
    assert_eq!(r.comments.len(), 2);
    assert_eq!(r.captions.len(), 2);
    assert_eq!(r.errors, vec![SourceError { source: Source::Metadata, failure: Failure::BadStatus(500) }]);
    assert_eq!(r.url, "https://youtube.com/shorts/abc123");
    assert_eq!(r.video_id, "abc123");
}

#[test]
fn failing_captions_process_gives_empty_captions() {
    let r = enrich(
        "xyz789",
        &Fetched::Body(video_answer()),
        &Fetched::Body(comments_answer()),
        CaptionRun::Exited { success: false, parsed: Some(vec![caption("ignored")]) },
    );
    assert!(r.captions.is_empty());
    assert_eq!(r.metadata.as_ref().unwrap().title, "Cat jumps");
    assert_eq!(r.errors, vec![SourceError { source: Source::Captions, failure: Failure::ExitFailure }]);
}

#[test]
fn all_sources_fail() {
    let r = enrich("q", &Fetched::Unreachable, &Fetched::TimedOut, CaptionRun::SpawnFailed);
    assert!(r.metadata.is_none() && r.comments.is_empty() && r.captions.is_empty());
    assert_eq!(
        r.errors,
        vec![
            SourceError { source: Source::Metadata, failure: Failure::Unreachable },
            SourceError { source: Source::Comments, failure: Failure::TimedOut },
            SourceError { source: Source::Captions, failure: Failure::SpawnFailed },
        ]
    );
}

#[test]
fn json_lookups() {
    let v = obj(vec![("a", Json::UInt(1)), ("a", Json::UInt(2)), ("b", s("x"))]);
    assert_eq!(v.get("a").unwrap().as_uint(), Some(1));
    assert_eq!(v.get("b").unwrap().as_text().as_deref(), Some("x"));
    assert!(v.get("c").is_none());
    assert!(Json::Array(vec![Json::Null]).at(1).is_none());
    assert!(same_text("héllo", "héllo"));
    assert!(!same_text("abc", "abd"));
}
