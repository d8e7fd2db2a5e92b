//! The two ingestion paths up to the point of enrichment: a check cycle over
//! a history snapshot, and a worker's log line. Also where the history store
//! lives on each platform.
use vstd::prelude::*;
use crate::cursor::{
    HistoryRecord, Watermark, advanced, is_new, is_latest_new, new_records, detect_latest, detect_all,
};
use crate::enrich::join_text;
use crate::extract::{extract_video_id, classify_line, shorts_id, line_url, string_option_view};

verus! {

/// A detected video: the URL it was seen under and, when the URL carries
/// one, its id.
#[derive(Debug)]
pub struct Detection {
    pub url: String,
    pub video_id: Option<String>,
}

/// One check cycle in single-match mode: the most recent record newer than
/// the watermark, with the watermark moved to its visit time, and the id
/// extracted from its URL. With no new record nothing is detected and the
/// watermark stays.
pub fn check_snapshot(mark: &mut Watermark, records: &Vec<HistoryRecord>) -> (r: Option<Detection>)
    ensures
        final(mark).at == advanced(old(mark).at, records@),
        r is None <==> forall|j: int| 0 <= j < records@.len() ==> !is_new(#[trigger] records@[j], old(mark).at),
        r is None ==> *final(mark) == *old(mark),
        r matches Some(d) ==> {
            &&& string_option_view(d.video_id) == shorts_id(d.url@)
            &&& exists|i: int|
                is_latest_new(records@, old(mark).at, i) && #[trigger] records@[i].url == d.url
                    && records@[i].visited_at == final(mark).at
        },
{
    match detect_latest(mark, records) {
        None => None,
        Some(url) => {
            let video_id = extract_video_id(url.as_str());
            Some(Detection { url, video_id })
        },
    }
}

/// The detection that a worker's log line carries: the embedded URL and its
/// id; `None` for a line without a URL.
pub fn detect_in_line(line: &str) -> (r: Option<Detection>)
    ensures
        r is None <==> line_url(line@) is None,
        r matches Some(d) ==> line_url(line@) == Some(d.url@) && string_option_view(d.video_id)
            == shorts_id(d.url@),
{
    match classify_line(line) {
        None => None,
        Some(url) => {
            let video_id = extract_video_id(url.as_str());
            Some(Detection { url, video_id })
        },
    }
}

/// How many of a cycle's new records a check cycle delivers.
#[derive(Clone, Copy, Debug, PartialEq, Eq, Structural)]
pub enum CycleMode {
    /// Only the most recent one; earlier ones in the same cycle are passed over.
    LatestOnly,
    /// All of them, in the order the snapshot lists them.
    AllNew,
}

/// One check cycle in either mode. Both modes move the watermark to the
/// largest visit time seen; `AllNew` delivers one detection per new record.
pub fn check_cycle(mode: CycleMode, mark: &mut Watermark, records: &Vec<HistoryRecord>) -> (r: Vec<
    Detection,
>)
    ensures
        final(mark).at == advanced(old(mark).at, records@),
        forall|k: int|
            0 <= k < r@.len() ==> string_option_view(#[trigger] r@[k].video_id) == shorts_id(
                r@[k].url@,
            ),
        mode == CycleMode::AllNew ==> {
            &&& r@.len() == new_records(records@, old(mark).at).len()
            &&& forall|k: int|
                0 <= k < r@.len() ==> #[trigger] r@[k].url == new_records(records@, old(mark).at)[k].url
        },
        mode == CycleMode::LatestOnly ==> {
            &&& r@.len() <= 1
            &&& r@.len() == 0 <==> forall|j: int|
                0 <= j < records@.len() ==> !is_new(#[trigger] records@[j], old(mark).at)
            &&& r@.len() == 1 ==> exists|i: int|
                is_latest_new(records@, old(mark).at, i) && #[trigger] records@[i].url == r@[0].url
        },
{
    let mut out: Vec<Detection> = Vec::new();
    match mode {
        CycleMode::LatestOnly => {
            match check_snapshot(mark, records) {
                Some(d) => out.push(d),
                None => {},
            }
        },
        CycleMode::AllNew => {
            let fresh = detect_all(mark, records);
            let mut i: usize = 0;
            while i < fresh.len()
                invariant
                    i <= fresh@.len(),
                    out@.len() == i,
                    forall|k: int|
                        0 <= k < i ==> #[trigger] out@[k].url == fresh@[k].url && string_option_view(
                            out@[k].video_id,
                        ) == shorts_id(out@[k].url@),
                decreases fresh@.len() - i,
            {
                let url = fresh[i].url.clone();
                let video_id = extract_video_id(url.as_str());
                out.push(Detection { url, video_id });
                i = i + 1;
            }
        },
    }
    out
}

/// The platforms whose history store location is known.
#[derive(Clone, Copy, Debug, PartialEq, Eq, Structural)]
pub enum Platform {
    Linux,
    Windows,
    MacOs,
}

pub open spec fn history_prefix(p: Platform) -> Seq<char> {
    match p {
        Platform::Linux => LINUX_PREFIX@,
        Platform::Windows => WINDOWS_PREFIX@,
        Platform::MacOs => MACOS_PREFIX@,
    }
}

pub open spec fn history_suffix(p: Platform) -> Seq<char> {
    match p {
        Platform::Linux => LINUX_SUFFIX@,
        Platform::Windows => WINDOWS_SUFFIX@,
        Platform::MacOs => MACOS_SUFFIX@,
    }
}

pub const LINUX_PREFIX: &'static str = "";
pub const LINUX_SUFFIX: &'static str = "/.config/google-chrome/Default/History";
pub const WINDOWS_PREFIX: &'static str = "C:\\Users\\";
pub const WINDOWS_SUFFIX: &'static str = "\\AppData\\Local\\Google\\Chrome\\User Data\\Default\\History";
pub const MACOS_PREFIX: &'static str = "";
pub const MACOS_SUFFIX: &'static str = "/Library/Application Support/Google/Chrome/Default/History";

/// Where the browser keeps its history store: `user` is the home directory on
/// Linux and macOS, the user name on Windows.
pub fn history_path(platform: Platform, user: &str) -> (r: String)
    ensures
        r@ == history_prefix(platform) + user@ + history_suffix(platform),
{
    match platform {
        Platform::Linux => join_text(join_text(LINUX_PREFIX, user).as_str(), LINUX_SUFFIX),
        Platform::Windows => join_text(join_text(WINDOWS_PREFIX, user).as_str(), WINDOWS_SUFFIX),
        Platform::MacOs => join_text(join_text(MACOS_PREFIX, user).as_str(), MACOS_SUFFIX),
    }
}

} // verus!
