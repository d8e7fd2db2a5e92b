//! Enrichment of a detected video: metadata, comments and captions come from
//! independent sources, each of which may fail on its own. A failed source
//! leaves its part empty and records an error; the whole never fails.
use vstd::prelude::*;
use crate::json::{Json, field, element, text_of, uint_of};

verus! {

/// Comments asked for per video, most relevant first.
pub const COMMENTS_PAGE_SIZE: u64 = 10;

/// Time allowed to each source, in milliseconds.
pub const SOURCE_TIMEOUT_MS: u64 = 30000;

/// The canonical URL of a video is this prefix followed by its id.
pub const SHORTS_URL_PREFIX: &'static str = "https://youtube.com/shorts/";

#[derive(Clone, Copy, Debug, PartialEq, Eq, Structural)]
pub enum Source {
    Metadata,
    Comments,
    Captions,
}

#[derive(Clone, Copy, Debug, PartialEq, Eq, Structural)]
pub enum Failure {
    /// The request could not be sent or no answer came.
    Unreachable,
    /// No answer within the time allowed.
    TimedOut,
    /// The answer carried a non-success HTTP status.
    BadStatus(u16),
    /// The answer could not be read as JSON.
    Unparsable,
    /// The answer lists no video.
    NotFound,
    /// A required field is absent.
    MissingField,
    /// The captions process could not be started.
    SpawnFailed,
    /// The captions process exited unsuccessfully.
    ExitFailure,
}

#[derive(Clone, Copy, Debug, PartialEq, Eq, Structural)]
pub struct SourceError {
    pub source: Source,
    pub failure: Failure,
}

/// What an HTTP source answered.
#[derive(Debug)]
pub enum Fetched {
    Unreachable,
    TimedOut,
    BadStatus(u16),
    Unparsable,
    Body(Json),
}

/// How the captions process went. `parsed` is its standard output read as a
/// list of captions, if it could be.
#[derive(Debug)]
pub enum CaptionRun {
    SpawnFailed,
    TimedOut,
    Exited { success: bool, parsed: Option<Vec<Caption>> },
}

#[derive(Debug)]
pub struct VideoMetadata {
    pub title: String,
    pub description: String,
    pub duration: String,
    pub view_count: String,
    pub like_count: String,
    pub published_at: String,
}

#[derive(Debug)]
pub struct Comment {
    pub text: String,
    pub author: String,
    pub like_count: u64,
    pub published_at: String,
}

/// One caption line; times in milliseconds.
#[derive(Debug)]
pub struct Caption {
    pub start_ms: u64,
    pub duration_ms: u64,
    pub text: String,
}

#[derive(Debug)]
pub struct EnrichmentResult {
    pub video_id: String,
    pub url: String,
    pub metadata: Option<VideoMetadata>,
    pub comments: Vec<Comment>,
    pub captions: Vec<Caption>,
    pub errors: Vec<SourceError>,
}

pub struct MetadataView {
    pub title: Seq<char>,
    pub description: Seq<char>,
    pub duration: Seq<char>,
    pub view_count: Seq<char>,
    pub like_count: Seq<char>,
    pub published_at: Seq<char>,
}

pub struct CommentView {
    pub text: Seq<char>,
    pub author: Seq<char>,
    pub like_count: u64,
    pub published_at: Seq<char>,
}

pub struct EnrichmentView {
    pub video_id: Seq<char>,
    pub url: Seq<char>,
    pub metadata: Option<MetadataView>,
    pub comments: Seq<CommentView>,
    pub captions: Seq<Caption>,
    pub errors: Seq<SourceError>,
}

impl View for VideoMetadata {
    type V = MetadataView;

    open spec fn view(&self) -> MetadataView {
        MetadataView {
            title: self.title@,
            description: self.description@,
            duration: self.duration@,
            view_count: self.view_count@,
            like_count: self.like_count@,
            published_at: self.published_at@,
        }
    }
}

impl View for Comment {
    type V = CommentView;

    open spec fn view(&self) -> CommentView {
        CommentView {
            text: self.text@,
            author: self.author@,
            like_count: self.like_count,
            published_at: self.published_at@,
        }
    }
}

pub open spec fn metadata_view(m: Option<VideoMetadata>) -> Option<MetadataView> {
    match m {
        Some(x) => Some(x@),
        None => None,
    }
}

impl View for EnrichmentResult {
    type V = EnrichmentView;

    open spec fn view(&self) -> EnrichmentView {
        EnrichmentView {
            video_id: self.video_id@,
            url: self.url@,
            metadata: metadata_view(self.metadata),
            comments: self.comments@.map_values(|c: Comment| c@),
            captions: self.captions@,
            errors: self.errors@,
        }
    }
}

pub open spec fn or_null(v: Option<&Json>) -> Json {
    match v {
        Some(x) => *x,
        None => Json::Null,
    }
}

pub open spec fn text_or(v: Json, default: Seq<char>) -> Seq<char> {
    match text_of(v) {
        Some(s) => s,
        None => default,
    }
}

/// The first listed video of a metadata answer, when the answer lists any.
pub open spec fn lists_video(resp: Json) -> bool {
    match field(resp, "items"@) {
        Json::Array(xs) => xs@.len() > 0,
        _ => false,
    }
}

/// The metadata of a metadata answer: title, duration and publish time are
/// required; description defaults to empty, the counts to "0".
pub open spec fn metadata_of(resp: Json) -> Result<MetadataView, Failure> {
    if !lists_video(resp) {
        Err(Failure::NotFound)
    } else {
        let item = element(field(resp, "items"@), 0);
        let snippet = field(item, "snippet"@);
        let stats = field(item, "statistics"@);
        let details = field(item, "contentDetails"@);
        match (
            text_of(field(snippet, "title"@)),
            text_of(field(details, "duration"@)),
            text_of(field(snippet, "publishedAt"@)),
        ) {
            (Some(title), Some(duration), Some(published_at)) => Ok(
                MetadataView {
                    title,
                    description: text_or(field(snippet, "description"@), Seq::empty()),
                    duration,
                    view_count: text_or(field(stats, "viewCount"@), seq!['0']),
                    like_count: text_or(field(stats, "likeCount"@), seq!['0']),
                    published_at,
                },
            ),
            _ => Err(Failure::MissingField),
        }
    }
}

/// The comment that one item of a comments answer carries, if it is well formed.
pub open spec fn comment_of(x: Json) -> Option<CommentView> {
    let s = field(field(field(x, "snippet"@), "topLevelComment"@), "snippet"@);
    match (
        text_of(field(s, "textDisplay"@)),
        text_of(field(s, "authorDisplayName"@)),
        uint_of(field(s, "likeCount"@)),
        text_of(field(s, "publishedAt"@)),
    ) {
        (Some(text), Some(author), Some(like_count), Some(published_at)) => Some(
            CommentView { text, author, like_count, published_at },
        ),
        _ => None,
    }
}

/// The well-formed comments among `xs`, in order; malformed items are skipped.
pub open spec fn comments_in(xs: Seq<Json>) -> Seq<CommentView>
    decreases xs.len(),
{
    if xs.len() == 0 {
        Seq::empty()
    } else {
        match comment_of(xs.last()) {
            Some(c) => comments_in(xs.drop_last()).push(c),
            None => comments_in(xs.drop_last()),
        }
    }
}

pub open spec fn comments_of(resp: Json) -> Seq<CommentView> {
    match field(resp, "items"@) {
        Json::Array(xs) => comments_in(xs@),
        _ => Seq::empty(),
    }
}

pub open spec fn fetch_failure(f: Fetched) -> Failure {
    match f {
        Fetched::Unreachable => Failure::Unreachable,
        Fetched::TimedOut => Failure::TimedOut,
        Fetched::BadStatus(s) => Failure::BadStatus(s),
        _ => Failure::Unparsable,
    }
}

pub open spec fn metadata_outcome(f: Fetched) -> Result<MetadataView, Failure> {
    match f {
        Fetched::Body(j) => metadata_of(j),
        _ => Err(fetch_failure(f)),
    }
}

pub open spec fn comments_outcome(f: Fetched) -> Result<Seq<CommentView>, Failure> {
    match f {
        Fetched::Body(j) => Ok(comments_of(j)),
        _ => Err(fetch_failure(f)),
    }
}

pub open spec fn captions_outcome(run: CaptionRun) -> Result<Seq<Caption>, Failure> {
    match run {
        CaptionRun::SpawnFailed => Err(Failure::SpawnFailed),
        CaptionRun::TimedOut => Err(Failure::TimedOut),
        CaptionRun::Exited { success, parsed } => if !success {
            Err(Failure::ExitFailure)
        } else {
            match parsed {
                Some(cs) => Ok(cs@),
                None => Err(Failure::Unparsable),
            }
        },
    }
}

/// The errors of the three sources, in the order metadata, comments, captions.
pub open spec fn errors_of<A, B, C>(
    m: Result<A, Failure>,
    c: Result<B, Failure>,
    k: Result<C, Failure>,
) -> Seq<SourceError> {
    let e1: Seq<SourceError> = match m {
        Err(f) => seq![SourceError { source: Source::Metadata, failure: f }],
        Ok(_) => Seq::empty(),
    };
    let e2: Seq<SourceError> = match c {
        Err(f) => seq![SourceError { source: Source::Comments, failure: f }],
        Ok(_) => Seq::empty(),
    };
    let e3: Seq<SourceError> = match k {
        Err(f) => seq![SourceError { source: Source::Captions, failure: f }],
        Ok(_) => Seq::empty(),
    };
    e1 + e2 + e3
}

/// The aggregate for a video id and the three sources' outcomes.
pub open spec fn enrichment(
    video_id: Seq<char>,
    metadata: Fetched,
    comments: Fetched,
    captions: CaptionRun,
) -> EnrichmentView {
    let m = metadata_outcome(metadata);
    let c = comments_outcome(comments);
    let k = captions_outcome(captions);
    EnrichmentView {
        video_id,
        url: SHORTS_URL_PREFIX@ + video_id,
        metadata: match m {
            Ok(v) => Some(v),
            Err(_) => None,
        },
        comments: match c {
            Ok(v) => v,
            Err(_) => Seq::empty(),
        },
        captions: match k {
            Ok(v) => v,
            Err(_) => Seq::empty(),
        },
        errors: errors_of(m, c, k),
    }
}

/// Relies on std's `format!` with two `{}` arguments: the two strings joined.
#[verifier::external_body]
pub(crate) fn join_text(a: &str, b: &str) -> (r: String)
    ensures
        r@ == a@ + b@,
{
    format!("{}{}", a, b)
}

fn member<'a>(v: Option<&'a Json>, key: &str) -> (r: Option<&'a Json>)
    ensures
        or_null(r) == field(or_null(v), key@),
{
    match v {
        Some(x) => x.get(key),
        None => None,
    }
}

fn text_at(v: Option<&Json>, key: &str) -> (r: Option<String>)
    ensures
        match r {
            Some(s) => text_of(field(or_null(v), key@)) == Some(s@),
            None => text_of(field(or_null(v), key@)) is None,
        },
{
    match member(v, key) {
        Some(x) => x.as_text(),
        None => None,
    }
}

fn text_at_or(v: Option<&Json>, key: &str, default: &str) -> (r: String)
    ensures
        r@ == text_or(field(or_null(v), key@), default@),
{
    match text_at(v, key) {
        Some(s) => s,
        None => default.to_owned(),
    }
}

/// The metadata that a metadata answer carries, or why it carries none.
pub fn parse_metadata(resp: &Json) -> (r: Result<VideoMetadata, Failure>)
    ensures
        match r {
            Ok(m) => metadata_of(*resp) == Ok::<MetadataView, Failure>(m@),
            Err(f) => metadata_of(*resp) == Err::<MetadataView, Failure>(f),
        },
{
    let items = resp.get("items");
    let first = match items {
        Some(Json::Array(xs)) => if xs.len() > 0 {
            &xs[0]
        } else {
            return Err(Failure::NotFound);
        },
        _ => {
            return Err(Failure::NotFound);
        },
    };
    let item = Some(first);
    let snippet = member(item, "snippet");
    let stats = member(item, "statistics");
    let details = member(item, "contentDetails");
    let title = match text_at(snippet, "title") {
        Some(t) => t,
        None => {
            return Err(Failure::MissingField);
        },
    };
    let duration = match text_at(details, "duration") {
        Some(t) => t,
        None => {
            return Err(Failure::MissingField);
        },
    };
    let published_at = match text_at(snippet, "publishedAt") {
        Some(t) => t,
        None => {
            return Err(Failure::MissingField);
        },
    };
    let description = text_at_or(snippet, "description", "");
    let view_count = text_at_or(stats, "viewCount", "0");
    let like_count = text_at_or(stats, "likeCount", "0");
    proof {
        reveal_strlit("");
        reveal_strlit("0");
        assert(""@ =~= Seq::<char>::empty());
        assert("0"@ =~= seq!['0']);
    }
    let m = VideoMetadata { title, description, duration, view_count, like_count, published_at };
    proof {
        assert(m@ == metadata_of(*resp)->Ok_0);
    }
    Ok(m)
}

fn parse_comment(x: &Json) -> (r: Option<Comment>)
    ensures
        match r {
            Some(c) => comment_of(*x) == Some(c@),
            None => comment_of(*x) is None,
        },
{
    let s = member(member(member(Some(x), "snippet"), "topLevelComment"), "snippet");
    let text = text_at(s, "textDisplay");
    let author = text_at(s, "authorDisplayName");
    let like_count = match member(s, "likeCount") {
        Some(n) => n.as_uint(),
        None => None,
    };
    let published_at = text_at(s, "publishedAt");
    match (text, author, like_count, published_at) {
        (Some(text), Some(author), Some(like_count), Some(published_at)) => Some(
            Comment { text, author, like_count, published_at },
        ),
        _ => None,
    }
}

/// The well-formed comments of a comments answer, in order; a malformed item
/// is skipped on its own.
pub fn parse_comments(resp: &Json) -> (r: Vec<Comment>)
    ensures
        r@.map_values(|c: Comment| c@) == comments_of(*resp),
{
    let mut out: Vec<Comment> = Vec::new();
    match resp.get("items") {
        Some(Json::Array(xs)) => {
            let mut i: usize = 0;
            while i < xs.len()
                invariant
                    i <= xs@.len(),
                    out@.map_values(|c: Comment| c@) == comments_in(xs@.take(i as int)),
                decreases xs@.len() - i,
            {
                proof {
                    let cur = xs@.take(i as int + 1);
                    assert(cur.drop_last() == xs@.take(i as int));
                    assert(cur.last() == xs@[i as int]);
                }
                match parse_comment(&xs[i]) {
                    Some(c) => {
                        let ghost before = out@;
                        out.push(c);
                        proof {
                            assert(out@.map_values(|c: Comment| c@) =~= before.map_values(
                                |c: Comment| c@,
                            ).push(c@));
                        }
                    },
                    None => {},
                }
                i = i + 1;
            }
            proof {
                assert(xs@.take(i as int) == xs@);
            }
        },
        _ => {
            proof {
                assert(out@.map_values(|c: Comment| c@) =~= Seq::<CommentView>::empty());
            }
        },
    }
    out
}

fn fetch_failure_of(f: &Fetched) -> (r: Failure)
    ensures
        r == fetch_failure(*f),
{
    match f {
        Fetched::Unreachable => Failure::Unreachable,
        Fetched::TimedOut => Failure::TimedOut,
        Fetched::BadStatus(s) => Failure::BadStatus(*s),
        _ => Failure::Unparsable,
    }
}

/// The metadata source's contribution, from what its request answered.
pub fn metadata_source(f: &Fetched) -> (r: Result<VideoMetadata, Failure>)
    ensures
        match r {
            Ok(m) => metadata_outcome(*f) == Ok::<MetadataView, Failure>(m@),
            Err(e) => metadata_outcome(*f) == Err::<MetadataView, Failure>(e),
        },
{
    match f {
        Fetched::Body(j) => parse_metadata(j),
        _ => Err(fetch_failure_of(f)),
    }
}

/// The comments source's contribution, from what its request answered.
pub fn comments_source(f: &Fetched) -> (r: Result<Vec<Comment>, Failure>)
    ensures
        match r {
            Ok(cs) => comments_outcome(*f) == Ok::<Seq<CommentView>, Failure>(
                cs@.map_values(|c: Comment| c@),
            ),
            Err(e) => comments_outcome(*f) == Err::<Seq<CommentView>, Failure>(e),
        },
{
    match f {
        Fetched::Body(j) => Ok(parse_comments(j)),
        _ => Err(fetch_failure_of(f)),
    }
}

/// The captions source's contribution: the parsed captions of a successful
/// run, else the reason there are none.
pub fn resolve_captions(run: CaptionRun) -> (r: Result<Vec<Caption>, Failure>)
    ensures
        match r {
            Ok(cs) => captions_outcome(run) == Ok::<Seq<Caption>, Failure>(cs@),
            Err(e) => captions_outcome(run) == Err::<Seq<Caption>, Failure>(e),
        },
{
    match run {
        CaptionRun::SpawnFailed => Err(Failure::SpawnFailed),
        CaptionRun::TimedOut => Err(Failure::TimedOut),
        CaptionRun::Exited { success, parsed } => if !success {
            Err(Failure::ExitFailure)
        } else {
            match parsed {
                Some(cs) => Ok(cs),
                None => Err(Failure::Unparsable),
            }
        },
    }
}

/// Assembles the result for `video_id` from the three sources' outcomes. Never
/// fails: a failed source leaves its part empty and adds one error.
pub fn enrich(video_id: &str, metadata: &Fetched, comments: &Fetched, captions: CaptionRun) -> (r:
    EnrichmentResult)
    ensures
        r@ == enrichment(video_id@, *metadata, *comments, captions),
{
    let ghost k0 = captions;
    let mut errors: Vec<SourceError> = Vec::new();
    let m = match metadata_source(metadata) {
        Ok(v) => Some(v),
        Err(f) => {
            errors.push(SourceError { source: Source::Metadata, failure: f });
            None
        },
    };
    let c = match comments_source(comments) {
        Ok(v) => v,
        Err(f) => {
            errors.push(SourceError { source: Source::Comments, failure: f });
            Vec::new()
        },
    };
    let k = match resolve_captions(captions) {
        Ok(v) => v,
        Err(f) => {
            errors.push(SourceError { source: Source::Captions, failure: f });
            Vec::new()
        },
    };
    let r = EnrichmentResult {
        video_id: video_id.to_owned(),
        url: join_text(SHORTS_URL_PREFIX, video_id),
        metadata: m,
        comments: c,
        captions: k,
        errors,
    };
    proof {
        let e = enrichment(video_id@, *metadata, *comments, k0);
        assert(r@.comments =~= e.comments);
        assert(r@.captions =~= e.captions);
        assert(r@.errors =~= e.errors);
    }
    r
}

/// A failed metadata source beside working comments and captions sources
/// still gives a result: no metadata, the comments and captions filled in,
/// and the failure recorded.
pub proof fn metadata_failure_is_partial(
    video_id: Seq<char>,
    metadata: Fetched,
    comments: Fetched,
    captions: CaptionRun,
)
    requires
        metadata_outcome(metadata) is Err,
        comments_outcome(comments) is Ok,
        captions_outcome(captions) is Ok,
    ensures
        enrichment(video_id, metadata, comments, captions).metadata is None,
        enrichment(video_id, metadata, comments, captions).comments == comments_outcome(
            comments,
        )->Ok_0,
        enrichment(video_id, metadata, comments, captions).captions == captions_outcome(
            captions,
        )->Ok_0,
        enrichment(video_id, metadata, comments, captions).errors.len() > 0,
        enrichment(video_id, metadata, comments, captions).errors[0].source == Source::Metadata,
{
    let e = enrichment(video_id, metadata, comments, captions);
    assert(e.errors.len() == 1);
}

/// A captions process that exits unsuccessfully, or does not finish in time,
/// leaves the captions empty and records the failure; the rest of the result
/// is assembled as usual.
pub proof fn failed_captions_are_empty(
    video_id: Seq<char>,
    metadata: Fetched,
    comments: Fetched,
    captions: CaptionRun,
)
    requires
        captions is TimedOut || (captions matches CaptionRun::Exited { success, .. } && !success),
    ensures
        enrichment(video_id, metadata, comments, captions).captions.len() == 0,
        enrichment(video_id, metadata, comments, captions).errors.last() == (SourceError {
            source: Source::Captions,
            failure: if captions is TimedOut {
                Failure::TimedOut
            } else {
                Failure::ExitFailure
            },
        }),
        enrichment(video_id, metadata, comments, captions).metadata == match metadata_outcome(
            metadata,
        ) {
            Ok(v) => Some(v),
            Err(_) => None,
        },
{
}

} // verus!
