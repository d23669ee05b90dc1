use vstd::prelude::*;

use crate::app::ReplaceState;
use crate::event::{ReplaceResult, SearchResult};

verus! {

/// The error of a match that no rewrite reached, such as one in a file that
/// disappeared after the search.
pub const UNMATCHED_MESSAGE: &'static str = "Failed to find search result in file";

/// The error of a match whose line no longer reads as it did at search time.
pub const CHANGED_MESSAGE: &'static str = "File changed since last search";

/// The user left `r` out of the replacement.
pub open spec fn is_ignored(r: SearchResult) -> bool {
    !r.included
}

/// `r` was included and replaced.
pub open spec fn is_replaced(r: SearchResult) -> bool {
    r.included && r.replace_result == Some(ReplaceResult::Success)
}

/// `r` was included and not replaced.
pub open spec fn is_failed(r: SearchResult) -> bool {
    r.included && r.replace_result != Some(ReplaceResult::Success)
}

pub open spec fn ignored(rs: Seq<SearchResult>) -> Seq<SearchResult> {
    rs.filter(|r: SearchResult| is_ignored(r))
}

pub open spec fn replaced(rs: Seq<SearchResult>) -> Seq<SearchResult> {
    rs.filter(|r: SearchResult| is_replaced(r))
}

pub open spec fn failed(rs: Seq<SearchResult>) -> Seq<SearchResult> {
    rs.filter(|r: SearchResult| is_failed(r))
}

/// `after` is `r` but for its outcome.
pub open spec fn with_outcome(r: SearchResult, after: SearchResult) -> bool {
    after == SearchResult { replace_result: after.replace_result, ..r }
}

/// `e` is how the failed match `r` is reported: `r` itself, with the error
/// for a match that was never reached when it has no outcome.
pub open spec fn reported_error(r: SearchResult, e: SearchResult) -> bool {
    &&& with_outcome(r, e)
    &&& match r.replace_result {
        None => e.replace_result matches Some(ReplaceResult::Error(m)) && m@ == UNMATCHED_MESSAGE@,
        _ => e.replace_result == r.replace_result,
    }
}

/// Statistics conservation: every match counts exactly once, as replaced, as
/// left out, or as failed.
pub proof fn lemma_statistics_conserve(rs: Seq<SearchResult>)
    ensures
        replaced(rs).len() + ignored(rs).len() + failed(rs).len() == rs.len(),
    decreases rs.len(),
{
    if rs.len() > 0 {
        lemma_statistics_conserve(rs.drop_last());
        lemma_filters_step(rs);
    }
}

proof fn lemma_filters_step(rs: Seq<SearchResult>)
    requires
        rs.len() > 0,
    ensures
        replaced(rs) == if is_replaced(rs.last()) {
            replaced(rs.drop_last()).push(rs.last())
        } else {
            replaced(rs.drop_last())
        },
        ignored(rs) == if is_ignored(rs.last()) {
            ignored(rs.drop_last()).push(rs.last())
        } else {
            ignored(rs.drop_last())
        },
        failed(rs) == if is_failed(rs.last()) {
            failed(rs.drop_last()).push(rs.last())
        } else {
            failed(rs.drop_last())
        },
{
    reveal_with_fuel(Seq::filter, 1);
}

/// With no match included, there is nothing to rewrite: every match counts
/// as left out, none as replaced or failed.
pub proof fn lemma_nothing_included(rs: Seq<SearchResult>)
    requires
        forall|k: int| 0 <= k < rs.len() ==> !(#[trigger] rs[k]).included,
    ensures
        ignored(rs).len() == rs.len(),
        replaced(rs).len() == 0,
        failed(rs).len() == 0,
    decreases rs.len(),
{
    if rs.len() > 0 {
        lemma_nothing_included(rs.drop_last());
        lemma_filters_step(rs);
        assert(!rs[rs.len() - 1].included);
    }
}

/// Tallies the outcome of a replacement over all matches of the search.
pub fn calculate_statistics(results: &Vec<SearchResult>) -> (r: ReplaceState)
    ensures
        r.num_successes == replaced(results@).len(),
        r.num_ignored == ignored(results@).len(),
        r.errors.len() == failed(results@).len(),
        forall|j: int| 0 <= j < r.errors.len() ==> reported_error(failed(results@)[j], #[trigger] r.errors@[j]),
        r.num_successes + r.num_ignored + r.errors.len() == results.len(),
        r.replacement_errors_pos == 0,
{
    let n = results.len();
    let mut num_successes: usize = 0;
    let mut num_ignored: usize = 0;
    let mut errors: Vec<SearchResult> = Vec::new();
    let mut i: usize = 0;
    while i < n
        invariant
            n == results.len(),
            i <= n,
            num_successes == replaced(results@.take(i as int)).len(),
            num_ignored == ignored(results@.take(i as int)).len(),
            errors.len() == failed(results@.take(i as int)).len(),
            forall|j: int| 0 <= j < errors.len() ==> reported_error(failed(results@.take(i as int))[j], #[trigger] errors@[j]),
            num_successes + num_ignored + errors.len() == i,
        decreases n - i,
    {
        let ghost prefix = results@.take(i as int);
        assert(results@.take(i + 1).drop_last() =~= prefix);
        proof {
            lemma_filters_step(results@.take(i + 1));
        }
        let res = &results[i];
        if !res.included {
            num_ignored += 1;
        } else {
            match &res.replace_result {
                Some(ReplaceResult::Success) => {
                    num_successes += 1;
                },
                None => {
                    let mut e = res.clone();
                    e.replace_result = Some(ReplaceResult::Error(String::from_str(UNMATCHED_MESSAGE)));
                    errors.push(e);
                },
                Some(ReplaceResult::Error(_)) => {
                    errors.push(res.clone());
                },
            }
        }
        i += 1;
    }
    proof {
        assert(results@.take(n as int) =~= results@);
        lemma_statistics_conserve(results@);
    }
    ReplaceState { num_successes, num_ignored, errors, replacement_errors_pos: 0 }
}

/// Of the matches at positions `group` of `rs`, the last one listed for line
/// `n` (counted from 1): the one that a map from line number to match keeps.
pub open spec fn match_on_line(rs: Seq<SearchResult>, group: Seq<usize>, n: int) -> Option<usize>
    decreases group.len(),
{
    if group.len() == 0 {
        None
    } else if rs[group.last() as int].line_number == n {
        Some(group.last())
    } else {
        match_on_line(rs, group.drop_last(), n)
    }
}

proof fn lemma_match_on_line(rs: Seq<SearchResult>, group: Seq<usize>, n: int)
    ensures
        match_on_line(rs, group, n) matches Some(k) ==> group.contains(k)
            && rs[k as int].line_number == n,
    decreases group.len(),
{
    if group.len() > 0 && rs[group.last() as int].line_number != n {
        lemma_match_on_line(rs, group.drop_last(), n);
        if match_on_line(rs, group, n) is Some {
            let k = match_on_line(rs, group, n)->0;
            let j = choose|j: int| 0 <= j < group.drop_last().len() && group.drop_last()[j] == k;
            assert(group[j] == k);
        }
    }
}

/// Line `i` (from 0) of a file after the rewrite: the proposed replacement
/// where the match for that line still finds the line it was made from, the
/// line as it stands otherwise.
pub open spec fn rewritten_line(lines: Seq<String>, rs: Seq<SearchResult>, group: Seq<usize>, i: int) -> Seq<char> {
    match match_on_line(rs, group, i + 1) {
        Some(k) => if lines[i]@ == rs[k as int].line@ {
            rs[k as int].replacement@
        } else {
            lines[i]@
        },
        None => lines[i]@,
    }
}

/// `after` is match `k` of `rs` once the file with lines `lines` was
/// rewritten: replaced if its line was still as found, marked as changed if
/// not, and untouched if the rewrite never reached it.
pub open spec fn rewrite_outcome(lines: Seq<String>, rs: Seq<SearchResult>, group: Seq<usize>, k: int, after: SearchResult) -> bool {
    let r = rs[k];
    let n = r.line_number as int;
    &&& with_outcome(r, after)
    &&& if 1 <= n <= lines.len() && match_on_line(rs, group, n) == Some(k as usize) {
        if lines[n - 1]@ == r.line@ {
            after.replace_result == Some(ReplaceResult::Success)
        } else {
            after.replace_result matches Some(ReplaceResult::Error(m)) && m@ == CHANGED_MESSAGE@
        }
    } else {
        after == r
    }
}

/// Rewrites the lines of one file: each line that has a match in `group`
/// (positions in `results`) becomes the match's replacement if the line still
/// reads as it did at search time, and stays as it is otherwise; the outcome
/// is recorded on the match. Every other line is kept.
pub fn rewrite_lines(lines: &Vec<String>, results: &mut Vec<SearchResult>, group: &Vec<usize>) -> (out: Vec<String>)
    requires
        forall|p: int| 0 <= p < group.len() ==> #[trigger] group@[p] < old(results).len(),
    ensures
        out.len() == lines.len(),
        forall|i: int| 0 <= i < lines.len() ==> #[trigger] out@[i]@ == rewritten_line(lines@, old(results)@, group@, i),
        final(results).len() == old(results).len(),
        forall|k: int| 0 <= k < old(results).len() ==> rewrite_outcome(lines@, old(results)@, group@, k, #[trigger] final(results)@[k]),
{
    let ghost rs = results@;
    let n = lines.len();
    let mut slots: Vec<Option<usize>> = Vec::new();
    let mut i: usize = 0;
    while i < n
        invariant
            i <= n,
            slots.len() == i,
            forall|j: int| 0 <= j < i ==> #[trigger] slots@[j] is None,
        decreases n - i,
    {
        slots.push(None);
        i += 1;
    }
    let mut p: usize = 0;
    while p < group.len()
        invariant
            p <= group.len(),
            n == lines.len(),
            slots.len() == n,
            results@ == rs,
            forall|q: int| 0 <= q < group.len() ==> #[trigger] group@[q] < rs.len(),
            forall|j: int| 0 <= j < n ==> #[trigger] slots@[j] == match_on_line(rs, group@.take(p as int), j + 1),
        decreases group.len() - p,
    {
        assert(group@.take(p + 1).drop_last() =~= group@.take(p as int));
        let k = group[p];
        let ln = results[k].line_number;
        if ln >= 1 && ln <= n {
            slots.set(ln - 1, Some(k));
        }
        p += 1;
    }
    assert(group@.take(group.len() as int) =~= group@);
    let mut out: Vec<String> = Vec::new();
    let mut i: usize = 0;
    while i < n
        invariant
            i <= n,
            n == lines.len(),
            slots.len() == n,
            results.len() == rs.len(),
            forall|q: int| 0 <= q < group.len() ==> #[trigger] group@[q] < rs.len(),
            forall|j: int| 0 <= j < n ==> #[trigger] slots@[j] == match_on_line(rs, group@, j + 1),
            out.len() == i,
            forall|j: int| 0 <= j < i ==> #[trigger] out@[j]@ == rewritten_line(lines@, rs, group@, j),
            forall|k: int|
                0 <= k < rs.len() ==> if rs[k].line_number <= i {
                    rewrite_outcome(lines@, rs, group@, k, #[trigger] results@[k])
                } else {
                    results@[k] == rs[k]
                },
        decreases n - i,
    {
        proof {
            lemma_match_on_line(rs, group@, i + 1);
        }
        match slots[i] {
            Some(k) => {
                proof {
                    let q = choose|q: int| 0 <= q < group@.len() && group@[q] == k;
                    assert(group@[q] < rs.len());
                }
                if lines[i] == results[k].line {
                    out.push(results[k].replacement.clone());
                    results[k].replace_result = Some(ReplaceResult::Success);
                } else {
                    out.push(lines[i].clone());
                    results[k].replace_result = Some(ReplaceResult::Error(String::from_str(CHANGED_MESSAGE)));
                }
            },
            None => {
                out.push(lines[i].clone());
            },
        }
        i += 1;
    }
    out
}

/// Marks every match at positions `group` of `results` as failed with
/// `message`: the file could not be rewritten.
pub fn mark_file_error(results: &mut Vec<SearchResult>, group: &Vec<usize>, message: &str)
    requires
        forall|p: int| 0 <= p < group.len() ==> #[trigger] group@[p] < old(results).len(),
    ensures
        final(results).len() == old(results).len(),
        forall|k: int|
            0 <= k < old(results).len() ==> if group@.contains(k as usize) {
                &&& with_outcome(old(results)@[k], #[trigger] final(results)@[k])
                &&& final(results)@[k].replace_result matches Some(ReplaceResult::Error(m)) && m@ == message@
            } else {
                final(results)@[k] == old(results)@[k]
            },
{
    let ghost rs = results@;
    let mut p: usize = 0;
    while p < group.len()
        invariant
            p <= group.len(),
            results.len() == rs.len(),
            forall|q: int| 0 <= q < group.len() ==> #[trigger] group@[q] < rs.len(),
            forall|k: int|
                0 <= k < rs.len() ==> if group@.take(p as int).contains(k as usize) {
                    &&& with_outcome(rs[k], #[trigger] results@[k])
                    &&& results@[k].replace_result matches Some(ReplaceResult::Error(m)) && m@ == message@
                } else {
                    results@[k] == rs[k]
                },
        decreases group.len() - p,
    {
        let k = group[p];
        results[k].replace_result = Some(ReplaceResult::Error(String::from_str(message)));
        proof {
            assert forall|x: usize| #[trigger] group@.take(p + 1).contains(x) <==> group@.take(p as int).contains(x) || x == k by {
                if group@.take(p + 1).contains(x) {
                    let j = choose|j: int| 0 <= j < p + 1 && #[trigger] group@.take(p + 1)[j] == x;
                    if j < p {
                        assert(group@.take(p as int)[j] == x);
                    }
                }
                if group@.take(p as int).contains(x) {
                    let j = choose|j: int| 0 <= j < p && #[trigger] group@.take(p as int)[j] == x;
                    assert(group@.take(p + 1)[j] == x);
                }
                if x == k {
                    assert(group@.take(p + 1)[p as int] == x);
                }
            }
        }
        p += 1;
    }
    assert(group@.take(group.len() as int) =~= group@);
}

/// Rewrite, line by line: every line of the rewritten file is either the line
/// as it stands, or the replacement proposed by a match of the group on that
/// line whose line at search time it still equals.
pub proof fn lemma_rewrite_line_by_line(lines: Seq<String>, rs: Seq<SearchResult>, group: Seq<usize>, i: int)
    requires
        0 <= i < lines.len(),
    ensures
        rewritten_line(lines, rs, group, i) == lines[i]@ || exists|k: usize|
            #![trigger group.contains(k)]
            group.contains(k) && rs[k as int].line_number == i + 1 && lines[i]@ == rs[k as int].line@
                && rewritten_line(lines, rs, group, i) == rs[k as int].replacement@,
{
    lemma_match_on_line(rs, group, i + 1);
}

/// Unchanged-file detection: when the line of the match kept for it no longer
/// reads as at search time, the match is marked as changed and the line is
/// written as it stands.
pub proof fn lemma_changed_line_is_kept(lines: Seq<String>, rs: Seq<SearchResult>, group: Seq<usize>, k: usize, after: SearchResult)
    requires
        0 <= k < rs.len(),
        rewrite_outcome(lines, rs, group, k as int, after),
        1 <= rs[k as int].line_number <= lines.len(),
        match_on_line(rs, group, rs[k as int].line_number as int) == Some(k),
        lines[rs[k as int].line_number - 1]@ != rs[k as int].line@,
    ensures
        after.replace_result matches Some(ReplaceResult::Error(m)) && m@ == CHANGED_MESSAGE@,
        rewritten_line(lines, rs, group, rs[k as int].line_number - 1) == lines[rs[k as int].line_number - 1]@,
{
}

/// The positions of the included matches of `results`, one group per file, in
/// the order in which the files first appear; within a group in increasing
/// order.
pub fn group_included_by_path(results: &Vec<SearchResult>) -> (groups: Vec<Vec<usize>>)
    ensures
        forall|g: int| 0 <= g < groups.len() ==> #[trigger] groups@[g].len() > 0,
        forall|g: int, q: int|
            0 <= g < groups.len() && 0 <= q < groups@[g].len() ==> {
                let k = #[trigger] groups@[g]@[q] as int;
                &&& k < results.len()
                &&& results@[k].included
                &&& results@[k].path@ == results@[groups@[g]@[0] as int].path@
            },
        forall|g: int, q1: int, q2: int|
            0 <= g < groups.len() && 0 <= q1 < q2 < groups@[g].len() ==> #[trigger] groups@[g]@[q1] < #[trigger] groups@[g]@[q2],
        forall|g1: int, g2: int|
            0 <= g1 < g2 < groups.len() ==> results@[#[trigger] groups@[g1]@[0] as int].path@ != results@[#[trigger] groups@[g2]@[0] as int].path@,
        forall|k: int|
            0 <= k < results.len() && #[trigger] results@[k].included ==> exists|g: int, q: int|
                0 <= g < groups.len() && 0 <= q < groups@[g].len() && #[trigger] groups@[g]@[q] == k,
        (forall|k: int| 0 <= k < results.len() ==> !(#[trigger] results@[k]).included) ==> groups.len() == 0,
{
    let n = results.len();
    let mut groups: Vec<Vec<usize>> = Vec::new();
    let mut k: usize = 0;
    while k < n
        invariant
            k <= n,
            n == results.len(),
            forall|g: int| 0 <= g < groups.len() ==> #[trigger] groups@[g].len() > 0,
            forall|g: int, q: int|
                0 <= g < groups.len() && 0 <= q < groups@[g].len() ==> {
                    let x = #[trigger] groups@[g]@[q] as int;
                    &&& x < k
                    &&& results@[x].included
                    &&& results@[x].path@ == results@[groups@[g]@[0] as int].path@
                },
            forall|g: int, q1: int, q2: int|
                0 <= g < groups.len() && 0 <= q1 < q2 < groups@[g].len() ==> #[trigger] groups@[g]@[q1] < #[trigger] groups@[g]@[q2],
            forall|g1: int, g2: int|
                0 <= g1 < g2 < groups.len() ==> results@[#[trigger] groups@[g1]@[0] as int].path@ != results@[#[trigger] groups@[g2]@[0] as int].path@,
            forall|x: int|
                0 <= x < k && #[trigger] results@[x].included ==> exists|g: int, q: int|
                    0 <= g < groups.len() && 0 <= q < groups@[g].len() && #[trigger] groups@[g]@[q] == x,
        decreases n - k,
    {
        if results[k].included {
            let mut g: usize = 0;
            let mut found = false;
            while g < groups.len() && !found
                invariant
                    g <= groups.len(),
                    n == results.len(),
                    k < n,
                    found ==> g < groups.len() && results@[groups@[g as int]@[0] as int].path@ == results@[k as int].path@,
                    !found ==> forall|h: int| 0 <= h < g ==> results@[#[trigger] groups@[h]@[0] as int].path@ != results@[k as int].path@,
                    forall|h: int| 0 <= h < groups.len() ==> #[trigger] groups@[h].len() > 0,
                    forall|h: int, q: int|
                        0 <= h < groups.len() && 0 <= q < groups@[h].len() ==> #[trigger] groups@[h]@[q] < k,
                decreases groups.len() - g + if found { 0int } else { 1int },
            {
                assert(groups@[g as int].len() > 0);
                assert(groups@[g as int]@[0] < k);
                if results[groups[g][0]].path == results[k].path {
                    found = true;
                } else {
                    g += 1;
                }
            }
            let ghost old_groups = groups@;
            if found {
                groups[g].push(k);
                proof {
                    assert forall|x: int| 0 <= x < k && #[trigger] results@[x].included implies exists|h: int, q: int|
                        0 <= h < groups.len() && 0 <= q < groups@[h].len() && #[trigger] groups@[h]@[q] == x by {
                        let (h, q) = choose|h: int, q: int|
                            0 <= h < old_groups.len() && 0 <= q < old_groups[h].len() && #[trigger] old_groups[h]@[q] == x;
                        assert(groups@[h]@[q] == x);
                    }
                    assert(groups@[g as int]@[groups@[g as int].len() - 1] == k);
                }
            } else {
                let mut fresh: Vec<usize> = Vec::new();
                fresh.push(k);
                groups.push(fresh);
                proof {
                    assert forall|x: int| 0 <= x < k && #[trigger] results@[x].included implies exists|h: int, q: int|
                        0 <= h < groups.len() && 0 <= q < groups@[h].len() && #[trigger] groups@[h]@[q] == x by {
                        let (h, q) = choose|h: int, q: int|
                            0 <= h < old_groups.len() && 0 <= q < old_groups[h].len() && #[trigger] old_groups[h]@[q] == x;
                        assert(groups@[h]@[q] == x);
                    }
                    assert(groups@[groups.len() - 1]@[0] == k);
                }
            }
        }
        k += 1;
    }
    if groups.len() > 0 {
        assert(results@[groups@[0]@[0] as int].included);
    }
    groups
}

/// The temporary file that a rewrite of the file at `path` writes before it
/// is renamed over `path`: beside it, with `.tmp` added to its name.
pub fn temp_file_path(path: &str) -> (r: String)
    ensures
        r@ == path@ + ".tmp"@,
{
    String::from_str(path).concat(".tmp")
}

} // verus!
