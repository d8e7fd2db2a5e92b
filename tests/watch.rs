use shorts_watch::cursor::{detect_all, detect_latest, latest_new_index, HistoryRecord, Watermark};
use shorts_watch::debounce::{ChangeWatcher, Signal, WatchPhase, DEBOUNCE_MS};
use shorts_watch::pipeline::{check_cycle, check_snapshot, history_path, CycleMode, Platform};

fn rec(url: &str, at: i64) -> HistoryRecord {
    HistoryRecord { url: url.to_string(), visited_at: at }
}

#[test]
fn burst_of_changes_fires_one_check() {
    let mut w = ChangeWatcher::new();
    let mut fired = 0;
    for s in [
        Signal::Changed(1000),
        Signal::Tick(1500),
        Signal::Changed(1800),
        Signal::Changed(2500),
        Signal::Tick(4000),
        Signal::Changed(4400),
        Signal::Tick(6000),
    ] {
        if w.apply(s) {
            fired += 1;
        }
    }
    assert_eq!(fired, 0);
    assert!(w.apply(Signal::Tick(6400)));
    assert!(!w.apply(Signal::Tick(9000)));
    assert_eq!(w.phase, WatchPhase::Checking { rearm: None });
    assert!(!w.apply(Signal::CheckFinished));
    assert_eq!(w.phase, WatchPhase::Idle);
}

#[test]
fn apply_all_counts_checks() {
    let mut w = ChangeWatcher::with_delay(DEBOUNCE_MS);
    let trace = vec![
        Signal::Changed(0),
        Signal::Changed(100),
        Signal::Tick(2100),
        Signal::CheckFinished,
        Signal::Changed(5000),
        Signal::Tick(6999),
        Signal::Tick(7000),
    ];
    assert_eq!(w.apply_all(&trace), 2);
}

#[test]
fn change_during_check_rearms() {
    let mut w = ChangeWatcher::new();
    w.apply(Signal::Changed(0));
    assert!(w.apply(Signal::Tick(2000)));
    assert!(!w.apply(Signal::Changed(2100)));
    assert_eq!(w.phase, WatchPhase::Checking { rearm: Some(2100) });
    assert!(!w.apply(Signal::Tick(9000)));
    w.apply(Signal::CheckFinished);
    assert_eq!(w.phase, WatchPhase::Debouncing { last_change: 2100 });
    assert!(w.apply(Signal::Tick(4100)));
}

#[test]
fn tick_without_changes_does_nothing() {
    let mut w = ChangeWatcher::new();
    assert!(!w.apply(Signal::Tick(100000)));
    assert_eq!(w.phase, WatchPhase::Idle);
}

#[test]
fn new_record_is_detected() {
    let mut mark = Watermark::starting_at(50);
    let records = vec![rec("https://www.youtube.com/shorts/abc123", 100)];
    let d = check_snapshot(&mut mark, &records).unwrap();
    assert_eq!(d.url, "https://www.youtube.com/shorts/abc123");
    assert_eq!(d.video_id.as_deref(), Some("abc123"));
    assert_eq!(mark.at, 100);
}

#[test]
fn old_record_is_not_detected() {
    let mut mark = Watermark::starting_at(50);
    let records = vec![rec("https://www.youtube.com/shorts/abc123", 40)];
    assert!(check_snapshot(&mut mark, &records).is_none());
    assert_eq!(mark.at, 50);
}

#[test]
fn record_at_watermark_is_not_redelivered() {
    let mut mark = Watermark::starting_at(0);
    let records = vec![rec("https://youtube.com/shorts/a", 10), rec("https://youtube.com/shorts/b", 20)];
    assert_eq!(detect_latest(&mut mark, &records).as_deref(), Some("https://youtube.com/shorts/b"));
    assert_eq!(mark.at, 20);
    assert_eq!(detect_latest(&mut mark, &records), None);
    assert!(detect_all(&mut mark, &records).is_empty());
    assert_eq!(mark.at, 20);
}

#[test]
fn watermark_never_decreases() {
    let mut mark = Watermark::starting_at(30);
    let first = vec![rec("u1", 10), rec("u2", 45)];
    detect_all(&mut mark, &first);
    let after_first = mark.at;
    assert_eq!(after_first, 45);
    let second = vec![rec("u3", 5)];
    detect_all(&mut mark, &second);
    assert!(mark.at >= after_first);
    assert_eq!(mark.at, 45);
}

#[test]
fn detect_all_keeps_order_and_takes_max() {
    let mut mark = Watermark::starting_at(10);
    let records = vec![rec("a", 30), rec("b", 5), rec("c", 20), rec("d", 10)];
    let got = detect_all(&mut mark, &records);
    let urls: Vec<&str> = got.iter().map(|r| r.url.as_str()).collect();
    assert_eq!(urls, vec!["a", "c"]);
    assert_eq!(mark.at, 30);
}

#[test]
fn latest_index_prefers_first_of_equals() {
    let records = vec![rec("a", 7), rec("b", 9), rec("c", 9), rec("d", 3)];
    assert_eq!(latest_new_index(&records, 5), Some(1));
    assert_eq!(latest_new_index(&records, 9), None);
    assert_eq!(latest_new_index(&Vec::new(), i64::MIN), None);
}

#[test]
fn history_path_per_platform() {
    assert_eq!(history_path(Platform::Linux, "/home/ann"), "/home/ann/.config/google-chrome/Default/History");
    assert_eq!(
        history_path(Platform::Windows, "ann"),
        "C:\\Users\\ann\\AppData\\Local\\Google\\Chrome\\User Data\\Default\\History"
    );
    assert_eq!(
        history_path(Platform::MacOs, "/Users/ann"),
        "/Users/ann/Library/Application Support/Google/Chrome/Default/History"
    );
}

#[test]
fn cycle_modes_differ_on_bursts() {
    let records = vec![
        rec("https://youtube.com/shorts/one", 110),
        rec("https://youtube.com/shorts/two", 120),
        rec("https://youtube.com/shorts/old", 90),
    ];
    let mut mark = Watermark::starting_at(100);
    let all = check_cycle(CycleMode::AllNew, &mut mark, &records);
    let ids: Vec<Option<&str>> = all.iter().map(|d| d.video_id.as_deref()).collect();
    assert_eq!(ids, vec![Some("one"), Some("two")]);
    assert_eq!(mark.at, 120);

    let mut mark = Watermark::starting_at(100);
    let latest = check_cycle(CycleMode::LatestOnly, &mut mark, &records);
    assert_eq!(latest.len(), 1);
    assert_eq!(latest[0].url, "https://youtube.com/shorts/two");
    assert_eq!(mark.at, 120);
    assert!(check_cycle(CycleMode::LatestOnly, &mut mark, &records).is_empty());
}
