//! The watermark: a monotone cursor over visit timestamps that turns "every
//! matching history record" into "only the records new since the last cycle".
use vstd::prelude::*;

verus! {

/// One row read from the history snapshot.
#[derive(Debug)]
pub struct HistoryRecord {
    pub url: String,
    /// Visit time, microseconds since the epoch.
    pub visited_at: i64,
}

/// The timestamp of the latest record already handled.
#[derive(Clone, Copy, Debug, PartialEq, Eq, Structural)]
pub struct Watermark {
    pub at: i64,
}

/// Whether a record is newer than the watermark.
pub open spec fn is_new(r: HistoryRecord, mark: i64) -> bool {
    r.visited_at > mark
}

/// The watermark after a cycle has seen `rs`: the largest of `mark` and every
/// visit time in `rs`.
pub open spec fn advanced(mark: i64, rs: Seq<HistoryRecord>) -> i64
    decreases rs.len(),
{
    if rs.len() == 0 {
        mark
    } else {
        let m = advanced(mark, rs.drop_last());
        if rs.last().visited_at > m {
            rs.last().visited_at
        } else {
            m
        }
    }
}

/// The records of `rs` newer than `mark`, in their order.
pub open spec fn new_records(rs: Seq<HistoryRecord>, mark: i64) -> Seq<HistoryRecord>
    decreases rs.len(),
{
    if rs.len() == 0 {
        Seq::empty()
    } else if is_new(rs.last(), mark) {
        new_records(rs.drop_last(), mark).push(rs.last())
    } else {
        new_records(rs.drop_last(), mark)
    }
}

/// `i` is the first position of a record newer than `mark` whose visit time
/// no other record exceeds.
pub open spec fn is_latest_new(rs: Seq<HistoryRecord>, mark: i64, i: int) -> bool {
    &&& 0 <= i < rs.len()
    &&& is_new(rs[i], mark)
    &&& forall|j: int| 0 <= j < rs.len() ==> #[trigger] rs[j].visited_at <= rs[i].visited_at
    &&& forall|j: int| 0 <= j < i ==> #[trigger] rs[j].visited_at < rs[i].visited_at
}

pub proof fn lemma_advanced_bounds(mark: i64, rs: Seq<HistoryRecord>)
    ensures
        advanced(mark, rs) >= mark,
        forall|j: int| 0 <= j < rs.len() ==> #[trigger] rs[j].visited_at <= advanced(mark, rs),
        advanced(mark, rs) == mark || exists|j: int|
            0 <= j < rs.len() && #[trigger] rs[j].visited_at == advanced(mark, rs),
    decreases rs.len(),
{
    if rs.len() > 0 {
        lemma_advanced_bounds(mark, rs.drop_last());
        assert forall|j: int| 0 <= j < rs.len() implies #[trigger] rs[j].visited_at <= advanced(
            mark,
            rs,
        ) by {
            if j < rs.len() - 1 {
                assert(rs[j] == rs.drop_last()[j]);
            }
        }
        if advanced(mark, rs) != mark {
            if advanced(mark, rs) == rs.last().visited_at {
                assert(rs[rs.len() - 1].visited_at == advanced(mark, rs));
            } else {
                let j = choose|j: int|
                    0 <= j < rs.drop_last().len() && #[trigger] rs.drop_last()[j].visited_at
                        == advanced(mark, rs.drop_last());
                assert(rs[j] == rs.drop_last()[j]);
            }
        }
    }
}

pub proof fn lemma_new_records_members(rs: Seq<HistoryRecord>, mark: i64)
    ensures
        forall|k: int|
            0 <= k < new_records(rs, mark).len() ==> is_new(#[trigger] new_records(rs, mark)[k], mark)
                && rs.contains(new_records(rs, mark)[k]),
        new_records(rs, mark).len() == 0 <==> forall|j: int| 0 <= j < rs.len() ==> !is_new(#[trigger] rs[j], mark),
    decreases rs.len(),
{
    if rs.len() > 0 {
        let pre = rs.drop_last();
        lemma_new_records_members(pre, mark);
        assert forall|k: int|
            0 <= k < new_records(rs, mark).len() implies is_new(#[trigger] new_records(rs, mark)[k], mark)
                && rs.contains(new_records(rs, mark)[k]) by {
            if k < new_records(pre, mark).len() {
                assert(new_records(rs, mark)[k] == new_records(pre, mark)[k]);
                let j = choose|j: int| 0 <= j < pre.len() && pre[j] == new_records(pre, mark)[k];
                assert(rs[j] == pre[j]);
            } else {
                assert(rs[rs.len() - 1] == rs.last());
            }
        }
        if forall|j: int| 0 <= j < rs.len() ==> !is_new(#[trigger] rs[j], mark) {
            assert forall|j: int| 0 <= j < pre.len() implies !is_new(#[trigger] pre[j], mark) by {
                assert(pre[j] == rs[j]);
            }
            assert(!is_new(rs[rs.len() - 1], mark));
        }
        if new_records(rs, mark).len() == 0 {
            assert forall|j: int| 0 <= j < rs.len() implies !is_new(#[trigger] rs[j], mark) by {
                if j < pre.len() {
                    assert(pre[j] == rs[j]);
                }
            }
        }
    }
}

impl Watermark {
    /// A watermark starting at `now`, so that history before the start is not replayed.
    pub fn starting_at(now: i64) -> (r: Watermark)
        ensures
            r.at == now,
    {
        Watermark { at: now }
    }
}

fn copy_record(r: &HistoryRecord) -> (c: HistoryRecord)
    ensures
        c == *r,
{
    HistoryRecord { url: r.url.clone(), visited_at: r.visited_at }
}

/// The position of the most recent record newer than `mark` (the first of
/// equals), or `None` when no record is newer.
pub fn latest_new_index(records: &Vec<HistoryRecord>, mark: i64) -> (r: Option<usize>)
    ensures
        r is None <==> forall|j: int| 0 <= j < records@.len() ==> !is_new(#[trigger] records@[j], mark),
        r matches Some(i) ==> is_latest_new(records@, mark, i as int),
{
    let mut best: Option<usize> = None;
    let mut i: usize = 0;
    while i < records.len()
        invariant
            i <= records@.len(),
            best is None ==> forall|j: int| 0 <= j < i ==> !is_new(#[trigger] records@[j], mark),
            best matches Some(b) ==> b < i && is_latest_new(records@.take(i as int), mark, b as int),
        decreases records@.len() - i,
    {
        let t = records[i].visited_at;
        match best {
            None => {
                if t > mark {
                    best = Some(i);
                }
            },
            Some(b) => {
                if t > records[b].visited_at {
                    best = Some(i);
                }
            },
        }
        proof {
            let pre = records@.take(i as int);
            let cur = records@.take(i as int + 1);
            assert forall|j: int| 0 <= j < i implies #[trigger] cur[j] == pre[j] by {}
            assert(cur[i as int] == records@[i as int]);
        }
        i = i + 1;
    }
    proof {
        assert(records@.take(i as int) == records@);
    }
    best
}

/// One check cycle that delivers only the most recent new record: its URL,
/// with the watermark moved to its visit time; nothing, and the watermark
/// unchanged, when no record is newer.
pub fn detect_latest(mark: &mut Watermark, records: &Vec<HistoryRecord>) -> (r: Option<String>)
    ensures
        final(mark).at == advanced(old(mark).at, records@),
        final(mark).at >= old(mark).at,
        r is None <==> forall|j: int| 0 <= j < records@.len() ==> !is_new(#[trigger] records@[j], old(mark).at),
        r is None ==> *final(mark) == *old(mark),
        r matches Some(u) ==> exists|i: int|
            is_latest_new(records@, old(mark).at, i) && #[trigger] records@[i].url == u
                && records@[i].visited_at == final(mark).at,
{
    proof {
        lemma_advanced_bounds(mark.at, records@);
    }
    match latest_new_index(records, mark.at) {
        None => {
            proof {
                if advanced(mark.at, records@) != mark.at {
                    let j = choose|j: int|
                        0 <= j < records@.len() && #[trigger] records@[j].visited_at == advanced(
                            mark.at,
                            records@,
                        );
                    assert(!is_new(records@[j], mark.at));
                }
            }
            None
        },
        Some(i) => {
            proof {
                let a = advanced(mark.at, records@);
                assert(records@[i as int].visited_at <= a);
                if a != mark.at {
                    let j = choose|j: int|
                        0 <= j < records@.len() && #[trigger] records@[j].visited_at == a;
                    assert(records@[j].visited_at <= records@[i as int].visited_at);
                }
            }
            mark.at = records[i].visited_at;
            Some(records[i].url.clone())
        },
    }
}

/// One check cycle that delivers every record newer than the watermark, in
/// their order, and moves the watermark to the largest visit time seen.
pub fn detect_all(mark: &mut Watermark, records: &Vec<HistoryRecord>) -> (r: Vec<HistoryRecord>)
    ensures
        r@ == new_records(records@, old(mark).at),
        final(mark).at == advanced(old(mark).at, records@),
        final(mark).at >= old(mark).at,
{
    let start = mark.at;
    let mut out: Vec<HistoryRecord> = Vec::new();
    let mut i: usize = 0;
    while i < records.len()
        invariant
            i <= records@.len(),
            out@ == new_records(records@.take(i as int), start),
            mark.at == advanced(start, records@.take(i as int)),
        decreases records@.len() - i,
    {
        proof {
            let cur = records@.take(i as int + 1);
            assert(cur.drop_last() == records@.take(i as int));
            assert(cur.last() == records@[i as int]);
        }
        let t = records[i].visited_at;
        if t > start {
            out.push(copy_record(&records[i]));
        }
        if t > mark.at {
            mark.at = t;
        }
        i = i + 1;
    }
    proof {
        assert(records@.take(i as int) == records@);
        lemma_advanced_bounds(start, records@);
    }
    out
}

/// Across two consecutive cycles the watermark never moves back.
pub proof fn watermark_monotone(mark: i64, first: Seq<HistoryRecord>, second: Seq<HistoryRecord>)
    ensures
        advanced(mark, first) >= mark,
        advanced(advanced(mark, first), second) >= advanced(mark, first),
{
    lemma_advanced_bounds(mark, first);
    lemma_advanced_bounds(advanced(mark, first), second);
}

/// A record at or below the watermark is never delivered: everything the next
/// cycle delivers is strictly newer than every record the previous cycle saw,
/// so no record is delivered twice.
pub proof fn no_redelivery(mark: i64, first: Seq<HistoryRecord>, second: Seq<HistoryRecord>)
    ensures
        forall|k: int|
            0 <= k < new_records(second, advanced(mark, first)).len() ==> (#[trigger] new_records(
                second,
                advanced(mark, first),
            )[k]).visited_at > advanced(mark, first),
        forall|j: int, k: int|
            0 <= j < first.len() && 0 <= k < new_records(second, advanced(mark, first)).len()
                ==> #[trigger] first[j].visited_at < (#[trigger] new_records(
                second,
                advanced(mark, first),
            )[k]).visited_at,
{
    lemma_advanced_bounds(mark, first);
    lemma_new_records_members(second, advanced(mark, first));
}

} // verus!
