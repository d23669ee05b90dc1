use vstd::prelude::*;

use crate::utils::{group_by, joined, lemma_joined_push};

verus! {

/// Colours of the spans of a diff.
#[derive(Clone, Copy, Debug, PartialEq, Eq, Structural)]
pub enum Color {
    Reset,
    Black,
    Red,
    Green,
}

/// What a change of a diff does to its text.
#[derive(Clone, Copy, Debug, PartialEq, Eq, Structural)]
pub enum DiffTag {
    Equal,
    Delete,
    Insert,
}

/// A piece of a diff line with its colours.
#[derive(Debug, PartialEq, Eq)]
pub struct Diff {
    pub text: String,
    pub fg_colour: Color,
    pub bg_colour: Color,
}

impl Clone for Diff {
    fn clone(&self) -> (r: Diff)
        ensures
            r == *self,
    {
        Diff { text: self.text.clone(), fg_colour: self.fg_colour, bg_colour: self.bg_colour }
    }
}

/// The text of the changes that belong to one side: the old side has all but
/// the insertions, the new side all but the deletions.
pub open spec fn side_text(changes: Seq<(DiffTag, String)>, left_out: DiffTag) -> Seq<char>
    decreases changes.len(),
{
    if changes.len() == 0 {
        seq![]
    } else {
        let rest = side_text(changes.drop_last(), left_out);
        if changes.last().0 == left_out {
            rest
        } else {
            rest + changes.last().1@
        }
    }
}

/// Every change holds some text.
pub open spec fn all_nonempty(changes: Seq<(DiffTag, String)>) -> bool {
    forall|i: int| 0 <= i < changes.len() ==> (#[trigger] changes[i]).1@.len() > 0
}

/// Every span after the marker holds some text.
pub open spec fn spans_nonempty(spans: Seq<Diff>) -> bool {
    forall|k: int| 1 <= k < spans.len() ==> (#[trigger] spans[k]).text@.len() > 0
}

/// Relies on `similar`'s character diff (Myers' algorithm, given up after
/// 100 ms for a coarser one), which tokenizes by character: each change holds
/// one character, and whatever it finds, the kept and deleted text is the old
/// line and the kept and inserted text is the new line.
#[verifier::external_body]
fn char_changes(old_line: &str, new_line: &str) -> (r: Vec<(DiffTag, String)>)
    ensures
        side_text(r@, DiffTag::Insert) == old_line@,
        side_text(r@, DiffTag::Delete) == new_line@,
        forall|i: int| 0 <= i < r.len() ==> (#[trigger] r@[i]).1@.len() == 1,
{
    let diff = similar::TextDiff::configure()
        .algorithm(similar::Algorithm::Myers)
        .timeout(std::time::Duration::from_millis(100))
        .diff_chars(old_line, new_line);
    diff.iter_all_changes().map(|c| (match c.tag() {
        similar::ChangeTag::Equal => DiffTag::Equal,
        similar::ChangeTag::Delete => DiffTag::Delete,
        similar::ChangeTag::Insert => DiffTag::Insert,
    }, c.value().to_string())).collect()
}

/// `runs` cuts `changes` into the maximal runs of changes with the same tag.
pub open spec fn is_tag_runs(runs: Seq<Vec<(DiffTag, String)>>, changes: Seq<(DiffTag, String)>) -> bool {
    &&& joined(runs) == changes
    &&& forall|i: int| 0 <= i < runs.len() ==> #[trigger] runs[i].len() > 0
    &&& forall|i: int, j: int| 0 <= i < runs.len() && 0 <= j < runs[i].len() ==> #[trigger] runs[i][j].0 == runs[i][0].0
    &&& forall|i: int| 0 < i < runs.len() ==> #[trigger] runs[i][0].0 != runs[i - 1][0].0
}

/// The text of a run, its changes laid end to end.
pub open spec fn run_text(run: Seq<(DiffTag, String)>) -> Seq<char> {
    run.map_values(|c: (DiffTag, String)| c.1@).flatten()
}

/// The span that a run adds to one side, if any: deletions and insertions
/// stand out in black on red or green, kept text is red or green.
pub open spec fn run_span(run: Vec<(DiffTag, String)>, old_side: bool) -> Option<(Seq<char>, Color, Color)> {
    let tag = run[0].0;
    if tag == DiffTag::Equal {
        Some((run_text(run@), if old_side { Color::Red } else { Color::Green }, Color::Reset))
    } else if old_side && tag == DiffTag::Delete {
        Some((run_text(run@), Color::Black, Color::Red))
    } else if !old_side && tag == DiffTag::Insert {
        Some((run_text(run@), Color::Black, Color::Green))
    } else {
        None
    }
}

/// The spans of one side: the marker, then the spans of the runs in order.
pub open spec fn side_spans(runs: Seq<Vec<(DiffTag, String)>>, old_side: bool) -> Seq<(Seq<char>, Color, Color)>
    decreases runs.len(),
{
    if runs.len() == 0 {
        if old_side {
            seq![("- "@, Color::Red, Color::Reset)]
        } else {
            seq![("+ "@, Color::Green, Color::Reset)]
        }
    } else {
        let prev = side_spans(runs.drop_last(), old_side);
        match run_span(runs.last(), old_side) {
            Some(s) => prev.push(s),
            None => prev,
        }
    }
}

/// What a list of spans shows.
pub open spec fn shown(spans: Seq<Diff>) -> Seq<(Seq<char>, Color, Color)> {
    spans.map_values(|d: Diff| (d.text@, d.fg_colour, d.bg_colour))
}

fn same_tag(a: &(DiffTag, String), b: &(DiffTag, String)) -> (r: bool)
    ensures
        r == (a.0 == b.0),
{
    a.0 == b.0
}

fn run_text_exec(run: &Vec<(DiffTag, String)>) -> (r: String)
    ensures
        r@ == run_text(run@),
        run.len() > 0 && all_nonempty(run@) ==> r@.len() > 0,
{
    let mut text = String::new();
    let mut j: usize = 0;
    while j < run.len()
        invariant
            j <= run.len(),
            text@ == run_text(run@.take(j as int)),
            j > 0 && all_nonempty(run@) ==> text@.len() > 0,
        decreases run.len() - j,
    {
        proof {
            let f = |c: (DiffTag, String)| c.1@;
            assert(run@.take(j + 1).map_values(f) =~= run@.take(j as int).map_values(f).push(run@[j as int].1@));
            run@.take(j as int).map_values(f).lemma_flatten_push(run@[j as int].1@);
        }
        text.append(run[j].1.as_str());
        j += 1;
    }
    assert(run@.take(run.len() as int) =~= run@);
    text
}

/// The spans of the old and the new line, given the changes of a diff of the
/// two: each side starts with its marker, then has one span per maximal run
/// of changes with the same tag that shows on that side.
pub fn diff_spans(changes: Vec<(DiffTag, String)>) -> (r: (Vec<Diff>, Vec<Diff>))
    ensures
        exists|runs: Seq<Vec<(DiffTag, String)>>|
            is_tag_runs(runs, changes@) && shown(r.0@) == side_spans(runs, true) && shown(r.1@)
                == side_spans(runs, false),
        all_nonempty(changes@) ==> spans_nonempty(r.0@) && spans_nonempty(r.1@),
{
    let ghost all = changes@;
    let same = |a: &(DiffTag, String), b: &(DiffTag, String)| -> (r: bool)
        ensures
            r == (a.0 == b.0),
        { same_tag(a, b) };
    let runs = group_by(changes, same);
    assert forall|i: int, j: int| 0 <= i < runs.len() && 0 <= j < runs[i].len() implies #[trigger] runs@[i]@[j].0 == runs@[i]@[0].0 by {
        assert forall|k: int| 0 < k < runs@[i].len() implies #[trigger] runs@[i]@[k].0 == runs@[i]@[k - 1].0 by {
            assert(same.ensures((&runs@[i]@[k - 1], &runs@[i]@[k]), true));
        }
        lemma_run_has_one_tag(runs@[i]@, j);
    }
    assert forall|i: int| 0 < i < runs.len() implies #[trigger] runs@[i]@[0].0 != runs@[i - 1]@[0].0 by {
        let prev = runs@[i - 1]@;
        assert(same.ensures((&runs[i - 1][runs[i - 1].len() - 1], &runs[i][0]), false));
        assert(prev[prev.len() - 1].0 == prev[0].0);
    }
    assert(is_tag_runs(runs@, all));
    let mut old_spans: Vec<Diff> = Vec::new();
    let mut new_spans: Vec<Diff> = Vec::new();
    old_spans.push(Diff { text: String::from_str("- "), fg_colour: Color::Red, bg_colour: Color::Reset });
    new_spans.push(Diff { text: String::from_str("+ "), fg_colour: Color::Green, bg_colour: Color::Reset });
    assert(shown(old_spans@) =~= side_spans(runs@.take(0), true));
    assert(shown(new_spans@) =~= side_spans(runs@.take(0), false));
    let mut i: usize = 0;
    while i < runs.len()
        invariant
            i <= runs.len(),
            forall|k: int| 0 <= k < runs.len() ==> #[trigger] runs@[k].len() > 0,
            shown(old_spans@) == side_spans(runs@.take(i as int), true),
            shown(new_spans@) == side_spans(runs@.take(i as int), false),
            joined(runs@) == all,
            all_nonempty(all) ==> spans_nonempty(old_spans@) && spans_nonempty(new_spans@),
        decreases runs.len() - i,
    {
        proof {
            if all_nonempty(all) {
                assert forall|j: int| 0 <= j < runs@[i as int].len() implies (#[trigger] runs@[i as int]@[j]).1@.len() > 0 by {
                    lemma_joined_member(runs@, i as int, j);
                }
            }
        }
        assert(runs@.take(i + 1).drop_last() =~= runs@.take(i as int));
        assert(runs@[i as int].len() > 0);
        let run = &runs[i];
        let tag = run[0].0;
        let text = run_text_exec(run);
        match tag {
            DiffTag::Equal => {
                old_spans.push(Diff { text: text.clone(), fg_colour: Color::Red, bg_colour: Color::Reset });
                new_spans.push(Diff { text, fg_colour: Color::Green, bg_colour: Color::Reset });
            },
            DiffTag::Delete => {
                old_spans.push(Diff { text, fg_colour: Color::Black, bg_colour: Color::Red });
            },
            DiffTag::Insert => {
                new_spans.push(Diff { text, fg_colour: Color::Black, bg_colour: Color::Green });
            },
        }
        assert(shown(old_spans@) =~= side_spans(runs@.take(i + 1), true));
        assert(shown(new_spans@) =~= side_spans(runs@.take(i + 1), false));
        i += 1;
    }
    assert(runs@.take(runs.len() as int) =~= runs@);
    (old_spans, new_spans)
}

proof fn lemma_joined_member<T>(runs: Seq<Vec<T>>, i: int, j: int)
    requires
        0 <= i < runs.len(),
        0 <= j < runs[i]@.len(),
    ensures
        joined(runs).contains(runs[i]@[j]),
    decreases runs.len(),
{
    let prefix = runs.drop_last();
    assert(runs =~= prefix.push(runs.last()));
    lemma_joined_push(prefix, runs.last());
    if i == runs.len() - 1 {
        assert(joined(runs)[joined(prefix).len() + j] == runs[i]@[j]);
    } else {
        lemma_joined_member(prefix, i, j);
        let k = choose|k: int| 0 <= k < joined(prefix).len() && joined(prefix)[k] == runs[i]@[j];
        assert(joined(runs)[k] == runs[i]@[j]);
    }
}

proof fn lemma_run_has_one_tag(run: Seq<(DiffTag, String)>, j: int)
    requires
        0 <= j < run.len(),
        forall|k: int| 0 < k < run.len() ==> #[trigger] run[k].0 == run[k - 1].0,
    ensures
        run[j].0 == run[0].0,
    decreases j,
{
    if j > 0 {
        lemma_run_has_one_tag(run, j - 1);
    }
}

/// The old and the new line as coloured spans, from a character diff of the
/// two: kept text in red and green, deleted text black on red, inserted text
/// black on green, each side after its marker.
pub fn line_diff(old_line: &str, new_line: &str) -> (r: (Vec<Diff>, Vec<Diff>))
    ensures
        exists|runs: Seq<Vec<(DiffTag, String)>>|
            side_text(joined(runs), DiffTag::Insert) == old_line@ && side_text(joined(runs), DiffTag::Delete)
                == new_line@ && is_tag_runs(runs, joined(runs)) && shown(r.0@) == side_spans(runs, true)
                && shown(r.1@) == side_spans(runs, false),
        spans_nonempty(r.0@),
        spans_nonempty(r.1@),
{
    let changes = char_changes(old_line, new_line);
    diff_spans(changes)
}

} // verus!
