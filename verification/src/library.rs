//! The stored replays as the replay pages list them: newest first, the
//! replays of one chart, and one folder per chart in name order.

use vstd::prelude::*;
use chrono::TimeZone;
use crate::replay::ReplayData;
use crate::score::digit_char;
use crate::names::{name_less, name_precedes, lemma_name_less_total, lemma_name_less_transitive};

verus! {

/// A stored replay: the name of the file it was read from and its data.
#[derive(Clone, Debug, PartialEq, Eq)]
pub struct ReplayEntry {
    /// File name (or path) the replay was read from.
    pub file: String,
    /// The replay itself.
    pub data: ReplayData,
}

/// Every entry is at least as recent as each entry after it.
pub open spec fn newest_first(s: Seq<ReplayEntry>) -> bool {
    forall|i: int, j: int|
        0 <= i < j < s.len() ==> #[trigger] s[i].data.timestamp >= #[trigger] s[j].data.timestamp
}

/// Holds of the entries recorded at time `t`.
pub open spec fn recorded_at(t: i64) -> spec_fn(ReplayEntry) -> bool {
    |e: ReplayEntry| e.data.timestamp == t
}

/// The entries of `s` recorded at time `t`, in their order in `s`.
pub open spec fn taken_at(s: Seq<ReplayEntry>, t: i64) -> Seq<ReplayEntry> {
    s.filter(recorded_at(t))
}

/// Inserting `x` in front of entries that are all older than it adds `x`
/// at the end of the entries of its own time and changes no other time.
proof fn lemma_insert_before_older(s: Seq<ReplayEntry>, p: int, x: ReplayEntry, t: i64)
    requires
        0 <= p <= s.len(),
        forall|i: int| p <= i < s.len() ==> #[trigger] s[i].data.timestamp < x.data.timestamp,
    ensures
        taken_at(s.insert(p, x), t) == if x.data.timestamp == t {
            taken_at(s, t).push(x)
        } else {
            taken_at(s, t)
        },
{
    let pred = recorded_at(t);
    let pre = s.take(p);
    let post = s.skip(p);
    let single = Seq::<ReplayEntry>::empty().push(x);
    assert(s =~= pre + post);
    assert(s.insert(p, x) =~= (pre + single) + post);
    Seq::filter_distributes_over_add(pre + single, post, pred);
    Seq::filter_distributes_over_add(pre, single, pred);
    Seq::filter_distributes_over_add(pre, post, pred);
    Seq::<ReplayEntry>::empty().lemma_filter_push(x, pred);
    assert(Seq::<ReplayEntry>::empty().filter(pred) =~= Seq::<ReplayEntry>::empty()) by {
        reveal(Seq::filter);
    }
    if x.data.timestamp == t {
        assert(post.all(|y: ReplayEntry| !pred(y)));
        post.lemma_all_neg_filter_empty(pred);
        assert(post.filter(pred) =~= Seq::<ReplayEntry>::empty());
        assert(taken_at(s.insert(p, x), t) =~= taken_at(s, t).push(x));
    } else {
        assert(taken_at(s.insert(p, x), t) =~= taken_at(s, t));
    }
}

/// Orders replays newest first. Replays taken at the same second keep the
/// order they had (the sort is stable).
pub fn sort_newest_first(entries: Vec<ReplayEntry>) -> (r: Vec<ReplayEntry>)
    ensures
        newest_first(r@),
        forall|t: i64| #[trigger] taken_at(r@, t) == taken_at(entries@, t),
        r@.len() == entries@.len(),
{
    let ghost orig = entries@;
    let mut rest = entries;
    let mut out: Vec<ReplayEntry> = Vec::new();
    proof {
        assert forall|t: i64| #[trigger] taken_at(out@, t) == taken_at(orig.take(0), t) by {
            assert(out@ =~= orig.take(0));
        }
    }
    while rest.len() > 0
        invariant
            rest@.len() <= orig.len(),
            rest@ == orig.skip(orig.len() - rest@.len()),
            newest_first(out@),
            out@.len() == orig.len() - rest@.len(),
            forall|t: i64|
                #[trigger] taken_at(out@, t) == taken_at(orig.take(orig.len() - rest@.len()), t),
        decreases rest.len(),
    {
        let ghost k = orig.len() - rest@.len();
        let x = rest.remove(0);
        assert(x == orig[k]);
        assert(rest@ =~= orig.skip(k + 1));
        let mut p: usize = 0;
        while p < out.len() && out[p].data.timestamp >= x.data.timestamp
            invariant
                p <= out.len(),
                forall|i: int| 0 <= i < p ==> #[trigger] out@[i].data.timestamp >= x.data.timestamp,
            decreases out.len() - p,
        {
            p = p + 1;
        }
        let ghost before = out@;
        proof {
            assert forall|i: int| p <= i < before.len() implies #[trigger] before[i].data.timestamp
                < x.data.timestamp by {
                assert(before[p as int].data.timestamp < x.data.timestamp);
                if i > p {
                    assert(before[p as int].data.timestamp >= before[i].data.timestamp);
                }
            }
        }
        out.insert(p, x);
        proof {
            assert(orig.take(k + 1) =~= orig.take(k).push(x));
            assert forall|t: i64| #[trigger] taken_at(out@, t) == taken_at(orig.take(k + 1), t) by {
                lemma_insert_before_older(before, p as int, x, t);
                orig.take(k).lemma_filter_push(x, recorded_at(t));
            }
            assert forall|i: int, j: int| 0 <= i < j < out@.len() implies #[trigger] out@[i].data.timestamp
                >= #[trigger] out@[j].data.timestamp by {
                if j < p {
                    assert(out@[i] == before[i] && out@[j] == before[j]);
                } else if j == p {
                    assert(out@[i] == before[i]);
                } else if i == p {
                    assert(out@[j] == before[j - 1]);
                } else if i < p {
                    assert(out@[i] == before[i] && out@[j] == before[j - 1]);
                } else {
                    assert(out@[i] == before[i - 1] && out@[j] == before[j - 1]);
                }
            }
        }
    }
    proof {
        assert(orig.take(orig.len() as int) =~= orig);
    }
    out
}


/// One folder of the replay list: a chart and how many replays it has.
#[derive(Clone, Debug, PartialEq, Eq)]
pub struct ChartFolder {
    /// Name of the chart.
    pub name: String,
    /// Chart identifier of the first replay of this chart.
    pub chart_id: Option<i32>,
    /// Number of replays of this chart.
    pub count: usize,
}

/// Holds of the replays of the chart called `name`.
pub open spec fn of_chart(name: Seq<char>) -> spec_fn(ReplayData) -> bool {
    |r: ReplayData| r.chart_name@ == name
}

/// The replays of the chart called `name`, in their order in `rs`.
pub open spec fn replays_named(rs: Seq<ReplayData>, name: Seq<char>) -> Seq<ReplayData> {
    rs.filter(of_chart(name))
}

/// The folders are in strictly increasing name order (so no name occurs twice).
pub open spec fn folders_ordered(f: Seq<ChartFolder>) -> bool {
    forall|i: int, j: int|
        0 <= i < j < f.len() ==> name_less(#[trigger] f[i].name@, #[trigger] f[j].name@)
}

/// Each folder counts the replays of its chart in `rs` and carries the chart
/// identifier of the first of them.
pub open spec fn folders_summarize(f: Seq<ChartFolder>, rs: Seq<ReplayData>) -> bool {
    forall|i: int|
        0 <= i < f.len() ==> {
            &&& #[trigger] f[i].count == replays_named(rs, f[i].name@).len()
            &&& f[i].count > 0
            &&& f[i].chart_id == replays_named(rs, f[i].name@)[0].chart_id
        }
}

/// Some folder is for the chart called `name`.
pub open spec fn has_folder(f: Seq<ChartFolder>, name: Seq<char>) -> bool {
    exists|i: int| 0 <= i < f.len() && #[trigger] f[i].name@ == name
}

/// Every replay of `rs` has a folder.
pub open spec fn folders_cover(f: Seq<ChartFolder>, rs: Seq<ReplayData>) -> bool {
    forall|j: int| 0 <= j < rs.len() ==> has_folder(f, #[trigger] rs[j].chart_name@)
}

/// The number of replays the folders count in all.
pub open spec fn total_count(f: Seq<ChartFolder>) -> int
    decreases f.len(),
{
    if f.len() == 0 {
        0
    } else {
        total_count(f.drop_last()) + f.last().count
    }
}

/// Replacing one folder changes the total by the difference of the counts.
proof fn lemma_total_count_update(f: Seq<ChartFolder>, p: int, x: ChartFolder)
    requires
        0 <= p < f.len(),
    ensures
        total_count(f.update(p, x)) == total_count(f) - f[p].count + x.count,
    decreases f.len(),
{
    if p == f.len() - 1 {
        assert(f.update(p, x).drop_last() =~= f.drop_last());
    } else {
        assert(f.update(p, x).drop_last() =~= f.drop_last().update(p, x));
        lemma_total_count_update(f.drop_last(), p, x);
    }
}

/// Inserting a folder adds its count to the total.
proof fn lemma_total_count_insert(f: Seq<ChartFolder>, p: int, x: ChartFolder)
    requires
        0 <= p <= f.len(),
    ensures
        total_count(f.insert(p, x)) == total_count(f) + x.count,
    decreases f.len(),
{
    if p == f.len() {
        assert(f.insert(p, x).drop_last() =~= f);
    } else {
        assert(f.insert(p, x).drop_last() =~= f.drop_last().insert(p, x));
        lemma_total_count_insert(f.drop_last(), p, x);
    }
}

/// No folder has this name, so no replay covered by the folders has it.
proof fn lemma_no_folder_no_replay(f: Seq<ChartFolder>, rs: Seq<ReplayData>, name: Seq<char>)
    requires
        folders_cover(f, rs),
        forall|i: int| 0 <= i < f.len() ==> #[trigger] f[i].name@ != name,
    ensures
        replays_named(rs, name).len() == 0,
{
    if replays_named(rs, name).len() > 0 {
        let e = replays_named(rs, name)[0];
        rs.lemma_filter_pred(of_chart(name), 0);
        assert(replays_named(rs, name).contains(e));
        rs.lemma_filter_contains_rev(of_chart(name), e);
        let j = choose|j: int| 0 <= j < rs.len() && rs[j] == e;
        assert(has_folder(f, rs[j].chart_name@));
        let i = choose|i: int| 0 <= i < f.len() && #[trigger] f[i].name@ == rs[j].chart_name@;
        assert(f[i].name@ == name);
    }
}

/// Names in strictly increasing order differ from a name placed between them.
proof fn lemma_name_differs(f: Seq<ChartFolder>, name: Seq<char>, p: int, i: int)
    requires
        folders_ordered(f),
        0 <= p <= f.len(),
        0 <= i < f.len(),
        forall|j: int| 0 <= j < p ==> name_less(#[trigger] f[j].name@, name),
        p < f.len() ==> name_less(name, f[p].name@),
    ensures
        f[i].name@ != name,
        i >= p ==> name_less(name, f[i].name@),
{
    lemma_name_less_total(name, name);
    if i >= p {
        if i > p {
            lemma_name_less_transitive(name, f[p].name@, f[i].name@);
        }
    }
}

/// Counting one more replay into the folder of its chart keeps the folders
/// ordered, counting, and covering.
proof fn lemma_count_into_folder(
    old_f: Seq<ChartFolder>,
    pre: Seq<ReplayData>,
    r: ReplayData,
    p: int,
    new_f: Seq<ChartFolder>,
)
    requires
        folders_ordered(old_f),
        folders_summarize(old_f, pre),
        folders_cover(old_f, pre),
        0 <= p < old_f.len(),
        old_f[p].count + 1 <= usize::MAX,
        old_f[p].name@ == r.chart_name@,
        forall|j: int| 0 <= j < p ==> name_less(#[trigger] old_f[j].name@, r.chart_name@),
        new_f.len() == old_f.len(),
        new_f[p] == (ChartFolder {
            name: old_f[p].name,
            chart_id: old_f[p].chart_id,
            count: (old_f[p].count + 1) as usize,
        }),
        forall|i: int| 0 <= i < new_f.len() && i != p ==> #[trigger] new_f[i] == old_f[i],
    ensures
        folders_ordered(new_f),
        folders_summarize(new_f, pre.push(r)),
        folders_cover(new_f, pre.push(r)),
{
    let name = r.chart_name@;
    assert forall|i: int| 0 <= i < new_f.len() implies {
        &&& #[trigger] new_f[i].count == replays_named(pre.push(r), new_f[i].name@).len()
        &&& new_f[i].count > 0
        &&& new_f[i].chart_id == replays_named(pre.push(r), new_f[i].name@)[0].chart_id
    } by {
        pre.lemma_filter_push(r, of_chart(new_f[i].name@));
        assert(old_f[i].count == replays_named(pre, old_f[i].name@).len());
        if i != p {
            lemma_name_less_total(old_f[p].name@, old_f[i].name@);
            lemma_name_less_total(old_f[i].name@, old_f[p].name@);
            assert(old_f[i].name@ != name);
        } else {
            assert(replays_named(pre.push(r), name) == replays_named(pre, name).push(r));
        }
    }
    assert forall|j: int| 0 <= j < pre.push(r).len() implies has_folder(new_f, #[trigger] pre.push(r)[j].chart_name@) by {
        if j < pre.len() {
            assert(pre.push(r)[j] == pre[j]);
            assert(has_folder(old_f, pre[j].chart_name@));
            let i = choose|i: int| 0 <= i < old_f.len() && #[trigger] old_f[i].name@ == pre[j].chart_name@;
            assert(new_f[i].name@ == old_f[i].name@);
        } else {
            assert(new_f[p].name@ == pre.push(r)[j].chart_name@);
        }
    }
    assert forall|i: int, j: int| 0 <= i < j < new_f.len() implies name_less(
        #[trigger] new_f[i].name@, #[trigger] new_f[j].name@) by {
        assert(new_f[i].name@ == old_f[i].name@);
        assert(new_f[j].name@ == old_f[j].name@);
    }
}

/// Opening a folder for a chart that has none yet, at the place its name
/// sorts to, keeps the folders ordered, counting, and covering.
proof fn lemma_new_folder(
    old_f: Seq<ChartFolder>,
    pre: Seq<ReplayData>,
    r: ReplayData,
    p: int,
    new_f: Seq<ChartFolder>,
)
    requires
        folders_ordered(old_f),
        folders_summarize(old_f, pre),
        folders_cover(old_f, pre),
        0 <= p <= old_f.len(),
        forall|j: int| 0 <= j < p ==> name_less(#[trigger] old_f[j].name@, r.chart_name@),
        p < old_f.len() ==> !name_less(old_f[p].name@, r.chart_name@) && old_f[p].name@ != r.chart_name@,
        new_f == old_f.insert(p, ChartFolder { name: r.chart_name, chart_id: r.chart_id, count: 1 }),
    ensures
        folders_ordered(new_f),
        folders_summarize(new_f, pre.push(r)),
        folders_cover(new_f, pre.push(r)),
{
    let name = r.chart_name@;
    if p < old_f.len() {
        lemma_name_less_total(old_f[p].name@, name);
    }
    assert forall|i: int| 0 <= i < old_f.len() implies #[trigger] old_f[i].name@ != name by {
        lemma_name_differs(old_f, name, p, i);
    }
    lemma_no_folder_no_replay(old_f, pre, name);
    assert forall|i: int| 0 <= i < new_f.len() implies {
        &&& #[trigger] new_f[i].count == replays_named(pre.push(r), new_f[i].name@).len()
        &&& new_f[i].count > 0
        &&& new_f[i].chart_id == replays_named(pre.push(r), new_f[i].name@)[0].chart_id
    } by {
        pre.lemma_filter_push(r, of_chart(new_f[i].name@));
        if i == p {
            assert(replays_named(pre, name) =~= Seq::<ReplayData>::empty());
        } else if i < p {
            assert(new_f[i] == old_f[i]);
            assert(old_f[i].count == replays_named(pre, old_f[i].name@).len());
        } else {
            assert(new_f[i] == old_f[i - 1]);
            assert(old_f[i - 1].count == replays_named(pre, old_f[i - 1].name@).len());
        }
    }
    assert forall|j: int| 0 <= j < pre.push(r).len() implies has_folder(new_f, #[trigger] pre.push(r)[j].chart_name@) by {
        if j < pre.len() {
            assert(pre.push(r)[j] == pre[j]);
            assert(has_folder(old_f, pre[j].chart_name@));
            let i = choose|i: int| 0 <= i < old_f.len() && #[trigger] old_f[i].name@ == pre[j].chart_name@;
            if i < p {
                assert(new_f[i].name@ == old_f[i].name@);
            } else {
                assert(new_f[i + 1].name@ == old_f[i].name@);
            }
        } else {
            assert(new_f[p].name@ == pre.push(r)[j].chart_name@);
        }
    }
    assert forall|i: int, j: int| 0 <= i < j < new_f.len() implies name_less(
        #[trigger] new_f[i].name@, #[trigger] new_f[j].name@) by {
        if j < p {
            assert(new_f[i] == old_f[i] && new_f[j] == old_f[j]);
        } else if j == p {
            assert(new_f[i] == old_f[i]);
        } else if i == p {
            assert(new_f[j] == old_f[j - 1]);
            lemma_name_differs(old_f, name, p, j - 1);
        } else if i < p {
            assert(new_f[i] == old_f[i] && new_f[j] == old_f[j - 1]);
        } else {
            assert(new_f[i] == old_f[i - 1] && new_f[j] == old_f[j - 1]);
        }
    }
}

/// One folder per chart that has replays, in name order, each with the number
/// of replays of its chart and the chart identifier of the first of them.
pub fn chart_folders(replays: &Vec<ReplayData>) -> (r: Vec<ChartFolder>)
    ensures
        folders_ordered(r@),
        folders_summarize(r@, replays@),
        folders_cover(r@, replays@),
        total_count(r@) == replays@.len(),
{
    let ghost rs = replays@;
    let mut folders: Vec<ChartFolder> = Vec::new();
    let mut k: usize = 0;
    while k < replays.len()
        invariant
            rs == replays@,
            k <= rs.len(),
            folders@.len() <= k,
            folders_ordered(folders@),
            folders_summarize(folders@, rs.take(k as int)),
            folders_cover(folders@, rs.take(k as int)),
            total_count(folders@) == k,
        decreases replays.len() - k,
    {
        let r = &replays[k];
        let ghost pre = rs.take(k as int);
        let ghost name = r.chart_name@;
        let ghost old_f = folders@;
        assert(rs.take(k + 1) =~= pre.push(*r));
        let mut p: usize = 0;
        while p < folders.len() && name_precedes(folders[p].name.as_str(), r.chart_name.as_str())
            invariant
                folders@ == old_f,
                name == r.chart_name@,
                p <= folders@.len(),
                forall|i: int| 0 <= i < p ==> name_less(#[trigger] folders@[i].name@, name),
            decreases folders.len() - p,
        {
            p = p + 1;
        }
        if p < folders.len() && folders[p].name == r.chart_name {
            let updated = ChartFolder {
                name: folders[p].name.clone(),
                chart_id: folders[p].chart_id,
                count: folders[p].count + 1,
            };
            proof {
                lemma_total_count_update(folders@, p as int, updated);
            }
            folders.set(p, updated);
            proof {
                lemma_count_into_folder(old_f, pre, *r, p as int, folders@);
            }
        } else {
            let fresh = ChartFolder { name: r.chart_name.clone(), chart_id: r.chart_id, count: 1 };
            proof {
                lemma_total_count_insert(folders@, p as int, fresh);
            }
            folders.insert(p, fresh);
            proof {
                lemma_new_folder(old_f, pre, *r, p as int, folders@);
            }
        }
        k = k + 1;
    }
    proof {
        assert(rs.take(rs.len() as int) =~= rs);
    }
    folders
}


/// Holds of the entries whose replay is of the chart called `name`.
pub open spec fn entry_of_chart(name: Seq<char>) -> spec_fn(ReplayEntry) -> bool {
    |e: ReplayEntry| e.data.chart_name@ == name
}

/// The entries whose replay is of the chart called `chart_name`, in their order.
pub fn replays_of_chart(entries: Vec<ReplayEntry>, chart_name: &String) -> (r: Vec<ReplayEntry>)
    ensures
        r@ == entries@.filter(entry_of_chart(chart_name@)),
{
    let ghost orig = entries@;
    let ghost pred = entry_of_chart(chart_name@);
    let mut rest = entries;
    let mut out: Vec<ReplayEntry> = Vec::new();
    assert(orig.take(0) =~= Seq::<ReplayEntry>::empty());
    assert(Seq::<ReplayEntry>::empty().filter(pred) =~= Seq::<ReplayEntry>::empty()) by {
        reveal(Seq::filter);
    }
    while rest.len() > 0
        invariant
            rest@.len() <= orig.len(),
            rest@ == orig.skip(orig.len() - rest@.len()),
            pred == entry_of_chart(chart_name@),
            out@ == orig.take(orig.len() - rest@.len()).filter(pred),
        decreases rest.len(),
    {
        let ghost k = orig.len() - rest@.len();
        let x = rest.remove(0);
        assert(x == orig[k]);
        assert(rest@ =~= orig.skip(k + 1));
        assert(orig.take(k + 1) =~= orig.take(k).push(x));
        proof {
            orig.take(k).lemma_filter_push(x, pred);
        }
        if x.data.chart_name == *chart_name {
            out.push(x);
        }
    }
    assert(orig.take(orig.len() as int) =~= orig);
    out
}

/// The replays of one chart as its folder lists them: newest first, replays
/// of the same second in their stored order.
pub fn chart_replays(entries: Vec<ReplayEntry>, chart_name: &String) -> (r: Vec<ReplayEntry>)
    ensures
        newest_first(r@),
        forall|t: i64|
            #[trigger] taken_at(r@, t) == taken_at(entries@.filter(entry_of_chart(chart_name@)), t),
        r@.len() == entries@.filter(entry_of_chart(chart_name@)).len(),
{
    let of_chart = replays_of_chart(entries, chart_name);
    sort_newest_first(of_chart)
}

/// The replay page: every stored replay, newest first.
#[derive(Clone, Debug, PartialEq, Eq)]
pub struct ReplayPage {
    /// The listed replays, with the path each was read from.
    pub replays: Vec<ReplayEntry>,
}

impl ReplayPage {
    /// The page listing the replays that were read, newest first (replays of
    /// the same second in the order they were read).
    pub fn new(loaded: Vec<ReplayEntry>) -> (r: Self)
        ensures
            newest_first(r.replays@),
            forall|t: i64| #[trigger] taken_at(r.replays@, t) == taken_at(loaded@, t),
            r.replays@.len() == loaded@.len(),
    {
        ReplayPage { replays: sort_newest_first(loaded) }
    }

    /// The delete button of the replay at `index` was pressed: it leaves the
    /// list and is handed back so that its file can be removed.
    pub fn delete(&mut self, index: usize) -> (r: Option<ReplayEntry>)
        ensures
            index < old(self).replays@.len() ==> r == Some(old(self).replays@[index as int])
                && final(self).replays@ == old(self).replays@.remove(index as int),
            index >= old(self).replays@.len() ==> r is None && final(self).replays@ == old(self).replays@,
    {
        remove_replay(&mut self.replays, index)
    }
}

/// Deleting keeps the page's list newest first.
pub proof fn lemma_delete_keeps_order(s: Seq<ReplayEntry>, index: int)
    requires
        newest_first(s),
        0 <= index < s.len(),
    ensures
        newest_first(s.remove(index)),
{
    let r = s.remove(index);
    assert forall|i: int, j: int| 0 <= i < j < r.len() implies #[trigger] r[i].data.timestamp
        >= #[trigger] r[j].data.timestamp by {
        let si = if i < index { i } else { i + 1 };
        let sj = if j < index { j } else { j + 1 };
        assert(r[i] == s[si] && r[j] == s[sj]);
    }
}

/// Takes the replay at `index` out of the list, as deleting it from the
/// replay page does; an index past the end changes nothing.
pub fn remove_replay(entries: &mut Vec<ReplayEntry>, index: usize) -> (r: Option<ReplayEntry>)
    ensures
        index < old(entries)@.len() ==> r == Some(old(entries)@[index as int])
            && final(entries)@ == old(entries)@.remove(index as int),
        index >= old(entries)@.len() ==> r is None && final(entries)@ == old(entries)@,
{
    if index < entries.len() {
        Some(entries.remove(index))
    } else {
        None
    }
}

/// A chart installed on this device.
#[derive(Clone, Debug, PartialEq, Eq)]
pub struct LocalChart {
    /// Identifier of the chart on the server, when it has one.
    pub id: Option<i32>,
    /// Name of the chart.
    pub name: String,
    /// Where the chart is stored.
    pub local_path: String,
}

/// A local chart stands for a replay's chart when both carry the same
/// identifier, or when the names are the same.
pub open spec fn chart_matches(c: LocalChart, chart_id: Option<i32>, chart_name: Seq<char>) -> bool {
    (chart_id is Some && c.id == chart_id) || c.name@ == chart_name
}

/// The first local chart that stands for the chart with this identifier and name.
pub fn find_local_chart(charts: &Vec<LocalChart>, chart_id: Option<i32>, chart_name: &String) -> (r: Option<usize>)
    ensures
        match r {
            Some(i) => i < charts@.len() && chart_matches(charts@[i as int], chart_id, chart_name@)
                && forall|j: int| 0 <= j < i ==> !chart_matches(#[trigger] charts@[j], chart_id, chart_name@),
            None => forall|j: int| 0 <= j < charts@.len() ==> !chart_matches(#[trigger] charts@[j], chart_id, chart_name@),
        },
{
    let mut i: usize = 0;
    while i < charts.len()
        invariant
            i <= charts@.len(),
            forall|j: int| 0 <= j < i ==> !chart_matches(#[trigger] charts@[j], chart_id, chart_name@),
        decreases charts.len() - i,
    {
        let c = &charts[i];
        let same_id = match (chart_id, c.id) {
            (Some(want), Some(have)) => want == have,
            _ => false,
        };
        if same_id || c.name == *chart_name {
            return Some(i);
        }
        i = i + 1;
    }
    None
}

/// Whether `c` is an ASCII decimal digit.
pub open spec fn is_digit(c: char) -> bool {
    '0' <= c <= '9'
}

/// The shape of a `HH:MM YY-MM-DD` clock text: fourteen characters, two
/// digits for each field, `:` between hour and minute, a space before the
/// date and `-` between year, month and day.
pub open spec fn clock_text_shape(s: Seq<char>) -> bool {
    &&& s.len() == 14
    &&& s[2] == ':'
    &&& s[5] == ' '
    &&& s[8] == '-'
    &&& s[11] == '-'
    &&& forall|i: int|
        0 <= i < 14 && i != 2 && i != 5 && i != 8 && i != 11 ==> #[trigger] is_digit(s[i])
}

/// `n` (below 100) as two digits, with a leading zero.
pub open spec fn two_digits(n: int) -> Seq<char> {
    seq![digit_char((n / 10) as nat), digit_char((n % 10) as nat)]
}

/// The proleptic Gregorian date `(year, month, day)` of the day that is `z`
/// days after 1970-01-01 (negative before it): the usual conversion through
/// 400-year eras that begin on March 1st.
pub open spec fn civil_from_days(z: int) -> (int, int, int) {
    let shifted = z + 719468;
    let era = shifted / 146097;
    let day_of_era = shifted - era * 146097;
    let year_of_era = (day_of_era - day_of_era / 1460 + day_of_era / 36524 - day_of_era / 146096)
        / 365;
    let day_of_year = day_of_era - (365 * year_of_era + year_of_era / 4 - year_of_era / 100);
    let month_from_march = (5 * day_of_year + 2) / 153;
    let day = day_of_year - (153 * month_from_march + 2) / 5 + 1;
    let month = if month_from_march < 10 {
        month_from_march + 3
    } else {
        month_from_march - 9
    };
    let year = year_of_era + era * 400 + if month <= 2 {
        1int
    } else {
        0int
    };
    (year, month, day)
}

/// The `HH:MM YY-MM-DD` text of the moment `t` seconds after the Unix epoch,
/// read on a clock that shows UTC: hour and minute of the day, then the
/// year modulo 100, the month and the day.
pub open spec fn clock_text_at(t: int) -> Seq<char> {
    let day = t / 86400;
    let second_of_day = t % 86400;
    let date = civil_from_days(day);
    two_digits(second_of_day / 3600) + seq![':'] + two_digits((second_of_day % 3600) / 60) + seq![
        ' ',
    ] + two_digits(date.0 % 100) + seq!['-'] + two_digits(date.1) + seq!['-'] + two_digits(date.2)
}

/// The `HH:MM YY-MM-DD` text of the moment `t` on a clock that is `offset`
/// seconds ahead of UTC.
pub open spec fn clock_text_offset(t: int, offset: int) -> Seq<char> {
    clock_text_at(t + offset)
}

/// Formats the moment `timestamp` (seconds since the Unix epoch) in the
/// machine's time zone with a chrono format pattern, through chrono's
/// `Local.timestamp_opt(timestamp, 0).single()` and `DateTime::format`.
/// `None` when chrono finds no single local time for it. Which hour and day
/// the text shows depends on the time zone of the machine, so only its shape
/// is promised: chrono writes `%H`, `%M`, `%m`, `%d` and `%y` (the year
/// modulo 100) as two zero-padded digits each, so the pattern gives
/// `HH:MM YY-MM-DD`. `TimeZone::timestamp_opt` returns a single time for
/// every second count that `DateTime::from_timestamp` can represent (about
/// 262,000 years either side of the epoch), and `Local`'s conversion from UTC
/// cannot fail, so within ±8,000,000,000,000 seconds a text always comes back;
/// beyond that, when `None` comes back is not stated. A pattern that
/// chrono cannot read makes `to_string` panic, so the one pattern admitted is
/// the (valid) one the replay list shows.
///
/// What the text shows: chrono's `DateTime::format` formats
/// `overflowing_naive_local()`, the UTC time plus the local offset, and that
/// offset is a `FixedOffset`, which `FixedOffset::east_opt` keeps strictly
/// within a day. So within ±8,000,000,000,000 seconds (far inside chrono's
/// range) the text is the clock text of `timestamp` on a clock ahead of UTC
/// by some whole number of seconds less than a day; which offset is left
/// unsaid, as it depends on the machine's time zone.
#[verifier::external_body]
fn local_clock_text(timestamp: i64, pattern: &str) -> (r: Option<String>)
    requires
        pattern@ == "%H:%M %y-%m-%d"@,
    ensures
        r matches Some(text) ==> clock_text_shape(text@),
        -8_000_000_000_000 <= timestamp <= 8_000_000_000_000 ==> r is Some,
        -8_000_000_000_000 <= timestamp <= 8_000_000_000_000 ==> (r matches Some(text)
            ==> exists|offset: int|
            -86400 < offset < 86400 && text@ == #[trigger] clock_text_offset(timestamp as int, offset)),
{
    match chrono::Local.timestamp_opt(timestamp, 0).single() {
        Some(dt) => Some(dt.format(pattern).to_string()),
        None => None,
    }
}

/// The time shown for a replay: the formatted local time, or `Unknown` when
/// there is none.
pub fn time_label_or_unknown(formatted: Option<String>) -> (r: String)
    ensures
        match formatted {
            Some(text) => r == text,
            None => r@ == "Unknown"@,
        },
{
    match formatted {
        Some(text) => text,
        None => String::from_str("Unknown"),
    }
}

/// The time shown for a replay taken at `timestamp`: local hour and minute,
/// then year, month and day (`HH:MM YY-MM-DD`), or `Unknown`.
pub fn replay_time_label(timestamp: i64) -> (r: String)
    ensures
        r@ == "Unknown"@ || clock_text_shape(r@),
        -8_000_000_000_000 <= timestamp <= 8_000_000_000_000 ==> clock_text_shape(r@),
        -8_000_000_000_000 <= timestamp <= 8_000_000_000_000 ==> exists|offset: int|
            -86400 < offset < 86400 && r@ == #[trigger] clock_text_offset(timestamp as int, offset),
{
    time_label_or_unknown(local_clock_text(timestamp, "%H:%M %y-%m-%d"))
}

} // verus!
