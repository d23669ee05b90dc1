use vstd::prelude::*;

use crate::event::{AppEvent, BackgroundProcessingEvent, EventHandlingResult, SearchResult};
use crate::parsed_fields::{relative_path, relative_path_from, ParsedFields};
use crate::fields::{text_after_key, CheckboxField, Field, FieldError, TextField};
use crate::keys::{KeyCode, KeyEvent, KeyEventKind, KeyModifiers};
use crate::pattern::{
    fancy_regex_accepts, fancy_regex_compile_error, regex_accepts, regex_compile_error, SearchType,
};

verus! {

/// Where the selection lands after moving down from `selected` in a list of
/// `len` items: one further, or back to the first after the last.
pub open spec fn selection_below(selected: int, len: int) -> int {
    if selected >= (if len > 0 { len - 1 } else { 0 }) {
        0
    } else {
        selected + 1
    }
}

/// Where the selection lands after moving up from `selected` in a list of
/// `len` items: one nearer the start, or to the last from the first.
pub open spec fn selection_above(selected: int, len: int) -> int {
    if selected == 0 {
        if len > 0 {
            len - 1
        } else {
            0
        }
    } else {
        selected - 1
    }
}

/// The selection after `k` moves down.
pub open spec fn moved_down(selected: int, len: int, k: nat) -> int
    decreases k,
{
    if k == 0 {
        selected
    } else {
        selection_below(moved_down(selected, len, (k - 1) as nat), len)
    }
}

/// The selection after `k` moves up.
pub open spec fn moved_up(selected: int, len: int, k: nat) -> int
    decreases k,
{
    if k == 0 {
        selected
    } else {
        selection_above(moved_up(selected, len, (k - 1) as nat), len)
    }
}

proof fn lemma_moved_down(selected: int, len: int, k: nat)
    requires
        0 <= selected < len,
        k <= len,
    ensures
        moved_down(selected, len, k) == if selected + k < len {
            selected + k
        } else {
            selected + k - len
        },
    decreases k,
{
    if k > 0 {
        lemma_moved_down(selected, len, (k - 1) as nat);
    }
}

proof fn lemma_moved_up(selected: int, len: int, k: nat)
    requires
        0 <= selected < len,
        k <= len,
    ensures
        moved_up(selected, len, k) == if selected >= k {
            selected - k
        } else {
            selected - k + len
        },
    decreases k,
{
    if k > 0 {
        lemma_moved_up(selected, len, (k - 1) as nat);
    }
}

/// Selection wrap: in a list of `len > 0` items, `len` moves down, or `len`
/// moves up, bring a valid selection back to where it was.
pub proof fn lemma_selection_wraps(selected: int, len: int)
    requires
        0 <= selected < len,
    ensures
        moved_down(selected, len, len as nat) == selected,
        moved_up(selected, len, len as nat) == selected,
{
    lemma_moved_down(selected, len, len as nat);
    lemma_moved_up(selected, len, len as nat);
}

/// `r` with its inclusion set to `included`.
pub open spec fn with_inclusion(r: SearchResult, included: bool) -> SearchResult {
    SearchResult { included, ..r }
}

/// Every match in `rs` is included.
pub open spec fn all_included(rs: Seq<SearchResult>) -> bool {
    forall|j: int| 0 <= j < rs.len() ==> #[trigger] rs[j].included
}

/// `b` is `a` with the inclusion of the selected match flipped, or, with no
/// match under the selection, with the selection moved onto the last match.
pub open spec fn toggled_selected(a: SearchState, b: SearchState) -> bool {
    if a.selected < a.results.len() {
        let i = a.selected as int;
        let r = a.results@[i];
        &&& b.selected == a.selected
        &&& b.results@ == a.results@.update(i, with_inclusion(r, !r.included))
    } else {
        &&& b.results == a.results
        &&& b.selected == if a.results.len() > 0 {
            a.results.len() - 1
        } else {
            0
        }
    }
}

/// Inclusion fold: `b` is `a` with every match included, or with every match
/// excluded where all of them were included.
pub open spec fn toggled_all(a: SearchState, b: SearchState) -> bool {
    &&& b.selected == a.selected
    &&& b.results.len() == a.results.len()
    &&& forall|i: int|
        0 <= i < a.results.len() ==> #[trigger] b.results@[i] == with_inclusion(
            a.results@[i],
            !all_included(a.results@),
        )
}

/// Inclusion fold: after toggling all, the matches are either all included
/// or all excluded, the latter exactly when all were included before.
pub proof fn lemma_toggle_all_uniform(a: SearchState, b: SearchState)
    requires
        toggled_all(a, b),
    ensures
        all_included(a.results@) ==> forall|i: int| 0 <= i < b.results.len() ==> !(#[trigger] b.results@[i]).included,
        !all_included(a.results@) ==> all_included(b.results@),
{
    assert forall|i: int| 0 <= i < b.results.len() implies (#[trigger] b.results@[i]).included == !all_included(a.results@) by {
        assert(b.results@[i] == with_inclusion(a.results@[i], !all_included(a.results@)));
    }
}

/// The matches of a search and the one under the cursor.
#[derive(Debug, PartialEq, Eq)]
pub struct SearchState {
    pub results: Vec<SearchResult>,
    pub selected: usize,
}

impl SearchState {
    /// The selection is 0 when there are no matches, and a match otherwise.
    pub open spec fn wf(&self) -> bool {
        if self.results.len() == 0 {
            self.selected == 0
        } else {
            self.selected < self.results.len()
        }
    }

    pub fn move_selected_up(&mut self)
        ensures
            final(self).results == old(self).results,
            final(self).selected == selection_above(old(self).selected as int, old(self).results.len() as int),
            old(self).wf() ==> final(self).wf(),
    {
        if self.selected == 0 {
            self.selected = self.results.len();
        }
        self.selected = self.selected.saturating_sub(1);
    }

    pub fn move_selected_down(&mut self)
        ensures
            final(self).results == old(self).results,
            final(self).selected == selection_below(old(self).selected as int, old(self).results.len() as int),
            final(self).wf(),
    {
        if self.selected >= self.results.len().saturating_sub(1) {
            self.selected = 0;
        } else {
            self.selected += 1;
        }
    }

    /// Flips whether the selected match takes part in the replacement; with
    /// no match under the selection, moves the selection onto the last match.
    pub fn toggle_selected_inclusion(&mut self)
        ensures
            toggled_selected(*old(self), *final(self)),
            old(self).wf() ==> final(self).wf(),
    {
        if self.selected < self.results.len() {
            let i = self.selected;
            let flipped = !self.results[i].included;
            self.results[i].included = flipped;
        } else {
            self.selected = self.results.len().saturating_sub(1);
        }
    }

    /// Includes every match unless all are included already, in which case
    /// excludes every match.
    pub fn toggle_all_selected(&mut self)
        ensures
            toggled_all(*old(self), *final(self)),
    {
        let n = self.results.len();
        let mut every_included = true;
        let mut i: usize = 0;
        while i < n
            invariant
                n == self.results.len(),
                i <= n,
                self.selected == old(self).selected,
                self.results@ == old(self).results@,
                every_included == forall|j: int| 0 <= j < i ==> #[trigger] self.results@[j].included,
            decreases n - i,
        {
            every_included = every_included && self.results[i].included;
            i += 1;
        }
        let ghost before = self.results@;
        let mut i: usize = 0;
        while i < n
            invariant
                n == self.results.len(),
                n == before.len(),
                before == old(self).results@,
                self.selected == old(self).selected,
                i <= n,
                every_included == all_included(before),
                forall|j: int| 0 <= j < i ==> #[trigger] self.results@[j] == with_inclusion(before[j], !every_included),
                forall|j: int| i <= j < n ==> #[trigger] self.results@[j] == before[j],
            decreases n - i,
        {
            self.results[i].included = !every_included;
            i += 1;
        }
    }
}

/// The outcome of a replacement: how many matches were replaced, how many the
/// user left out, the matches that failed, and the failed match at the top of
/// the list on screen.
#[derive(Debug, PartialEq, Eq)]
pub struct ReplaceState {
    pub num_successes: usize,
    pub num_ignored: usize,
    pub errors: Vec<SearchResult>,
    pub replacement_errors_pos: usize,
}

impl ReplaceState {
    pub fn scroll_replacement_errors_up(&mut self)
        ensures
            final(self).num_successes == old(self).num_successes,
            final(self).num_ignored == old(self).num_ignored,
            final(self).errors == old(self).errors,
            final(self).replacement_errors_pos == selection_above(old(self).replacement_errors_pos as int, old(self).errors.len() as int),
    {
        if self.replacement_errors_pos == 0 {
            self.replacement_errors_pos = self.errors.len();
        }
        self.replacement_errors_pos = self.replacement_errors_pos.saturating_sub(1);
    }

    pub fn scroll_replacement_errors_down(&mut self)
        ensures
            final(self).num_successes == old(self).num_successes,
            final(self).num_ignored == old(self).num_ignored,
            final(self).errors == old(self).errors,
            final(self).replacement_errors_pos == selection_below(old(self).replacement_errors_pos as int, old(self).errors.len() as int),
    {
        if self.replacement_errors_pos >= self.errors.len().saturating_sub(1) {
            self.replacement_errors_pos = 0;
        } else {
            self.replacement_errors_pos += 1;
        }
    }
}

/// The fields of the search form, in order.
#[derive(Clone, Copy, Debug, PartialEq, Eq, Structural)]
pub enum FieldName {
    Search,
    Replace,
    FixedStrings,
    PathPattern,
}

impl FieldName {
    /// The title shown above the field.
    pub fn title(&self) -> (r: &'static str)
        ensures
            r@ == match *self {
                FieldName::Search => "Search text"@,
                FieldName::Replace => "Replace text"@,
                FieldName::FixedStrings => "Fixed strings"@,
                FieldName::PathPattern => "Path pattern (regex)"@,
            },
    {
        match self {
            FieldName::Search => "Search text",
            FieldName::Replace => "Replace text",
            FieldName::FixedStrings => "Fixed strings",
            FieldName::PathPattern => "Path pattern (regex)",
        }
    }
}

pub const NUM_SEARCH_FIELDS: usize = 4;

/// The field that follows field `h` when the focus moves forward.
pub open spec fn next_focus(h: int) -> int {
    (h + 1) % (NUM_SEARCH_FIELDS as int)
}

/// The field before field `h` when the focus moves back.
pub open spec fn prev_focus(h: int) -> int {
    (h + NUM_SEARCH_FIELDS - 1) % (NUM_SEARCH_FIELDS as int)
}

/// The name of field number `h` of the form.
pub open spec fn field_name_at(h: int) -> FieldName {
    if h == 0 {
        FieldName::Search
    } else if h == 1 {
        FieldName::Replace
    } else if h == 2 {
        FieldName::FixedStrings
    } else {
        FieldName::PathPattern
    }
}

/// Focus wrap: moving the focus forward four times, or back four times,
/// returns it to the field it started on.
pub proof fn lemma_focus_wraps(h: int)
    requires
        0 <= h < NUM_SEARCH_FIELDS,
    ensures
        next_focus(next_focus(next_focus(next_focus(h)))) == h,
        prev_focus(prev_focus(prev_focus(prev_focus(h)))) == h,
{
}

/// The search form: the search text, the replacement, whether the search text
/// is a fixed string, and a regex that paths must match; which field has the
/// focus, and whether the validation popup is open.
#[derive(Debug)]
pub struct SearchFields {
    pub search: TextField,
    pub replace: TextField,
    pub fixed_strings: CheckboxField,
    pub path_pattern: TextField,
    pub highlighted: usize,
    pub show_error_popup: bool,
    pub advanced_regex: bool,
}

impl SearchFields {
    /// The focus is on one of the four fields.
    pub open spec fn wf(&self) -> bool {
        self.highlighted < NUM_SEARCH_FIELDS
    }

    /// Whether patterns are compiled for the engine with look-around.
    pub open spec fn advanced(&self) -> bool {
        self.advanced_regex
    }

    pub fn with_values(search: &str, replace: &str, fixed_strings: bool, filename_pattern: &str) -> (r: SearchFields)
        ensures
            r.wf(),
            r.search.chars() == search@ && r.search.cursor() == 0 && r.search.error_value() is None,
            r.replace.chars() == replace@ && r.replace.cursor() == 0 && r.replace.error_value() is None,
            r.fixed_strings.checked == fixed_strings && r.fixed_strings.error is None,
            r.path_pattern.chars() == filename_pattern@ && r.path_pattern.cursor() == 0
                && r.path_pattern.error_value() is None,
            r.highlighted == 0,
            !r.show_error_popup,
            !r.advanced(),
    {
        SearchFields {
            search: TextField::new(String::from_str(search)),
            replace: TextField::new(String::from_str(replace)),
            fixed_strings: CheckboxField::new(fixed_strings),
            path_pattern: TextField::new(String::from_str(filename_pattern)),
            highlighted: 0,
            show_error_popup: false,
            advanced_regex: false,
        }
    }

    pub fn with_advanced_regex(self, advanced_regex: bool) -> (r: SearchFields)
        ensures
            r == (SearchFields { advanced_regex: r.advanced_regex, ..self }),
            r.advanced() == advanced_regex,
    {
        SearchFields { advanced_regex, ..self }
    }

    pub fn advanced_regex(&self) -> (r: bool)
        ensures
            r == self.advanced(),
    {
        self.advanced_regex
    }

    pub fn search(&self) -> (r: &TextField)
        ensures
            *r == self.search,
    {
        &self.search
    }

    pub fn replace(&self) -> (r: &TextField)
        ensures
            *r == self.replace,
    {
        &self.replace
    }

    pub fn fixed_strings(&self) -> (r: &CheckboxField)
        ensures
            *r == self.fixed_strings,
    {
        &self.fixed_strings
    }

    pub fn path_pattern(&self) -> (r: &TextField)
        ensures
            *r == self.path_pattern,
    {
        &self.path_pattern
    }

    pub fn highlighted_field_name(&self) -> (r: FieldName)
        requires
            self.wf(),
        ensures
            r == field_name_at(self.highlighted as int),
    {
        if self.highlighted == 0 {
            FieldName::Search
        } else if self.highlighted == 1 {
            FieldName::Replace
        } else if self.highlighted == 2 {
            FieldName::FixedStrings
        } else {
            FieldName::PathPattern
        }
    }

    /// The field with the focus.
    pub open spec fn field_at(&self, h: int) -> Field {
        if h == 0 {
            Field::Text(self.search)
        } else if h == 1 {
            Field::Text(self.replace)
        } else if h == 2 {
            Field::Checkbox(self.fixed_strings)
        } else {
            Field::Text(self.path_pattern)
        }
    }

    /// A copy of the field with the focus, as it stands now.
    pub fn highlighted_field(&self) -> (r: Field)
        requires
            self.wf(),
        ensures
            r == self.field_at(self.highlighted as int),
    {
        if self.highlighted == 0 {
            Field::Text(self.search.clone())
        } else if self.highlighted == 1 {
            Field::Text(self.replace.clone())
        } else if self.highlighted == 2 {
            Field::Checkbox(self.fixed_strings.clone())
        } else {
            Field::Text(self.path_pattern.clone())
        }
    }

    pub fn focus_next(&mut self)
        requires
            old(self).wf(),
        ensures
            *final(self) == (SearchFields { highlighted: next_focus(old(self).highlighted as int) as usize, ..*old(self) }),
            final(self).wf(),
    {
        self.highlighted = (self.highlighted + 1) % NUM_SEARCH_FIELDS;
    }

    pub fn focus_prev(&mut self)
        requires
            old(self).wf(),
        ensures
            *final(self) == (SearchFields { highlighted: prev_focus(old(self).highlighted as int) as usize, ..*old(self) }),
            final(self).wf(),
    {
        self.highlighted = (self.highlighted + NUM_SEARCH_FIELDS - 1) % NUM_SEARCH_FIELDS;
    }

    /// The errors of the fields, each with the title of its field, in the
    /// order of the form.
    pub fn errors(&self) -> (r: Vec<(&'static str, FieldError)>)
        ensures
            r@.map_values(|e: (&'static str, FieldError)| e.1) == seq![
                self.search.error_value(),
                self.replace.error_value(),
                self.fixed_strings.error,
                self.path_pattern.error_value(),
            ].filter(|e: Option<FieldError>| e is Some).map_values(|e: Option<FieldError>| e->0),
    {
        let mut r: Vec<(&'static str, FieldError)> = Vec::new();
        let ghost all = seq![
            self.search.error_value(),
            self.replace.error_value(),
            self.fixed_strings.error,
            self.path_pattern.error_value(),
        ];
        if let Some(e) = self.search.error() {
            r.push((FieldName::Search.title(), e));
        }
        if let Some(e) = self.replace.error() {
            r.push((FieldName::Replace.title(), e));
        }
        if let Some(e) = self.fixed_strings.error.clone() {
            r.push((FieldName::FixedStrings.title(), e));
        }
        if let Some(e) = self.path_pattern.error() {
            r.push((FieldName::PathPattern.title(), e));
        }
        proof {
            reveal_with_fuel(Seq::filter, 5);
            assert(all.take(4) =~= all);
            assert(r@.map_values(|e: (&'static str, FieldError)| e.1) =~= all.filter(|e: Option<FieldError>| e is Some).map_values(|e: Option<FieldError>| e->0));
        }
        r
    }

    /// The search pattern as it compiles: the text itself with fixed strings,
    /// else a regex of the engine that the form was set up with; the error
    /// message where the regex does not compile.
    pub fn search_type(&self) -> (r: Result<SearchType, String>)
        ensures
            self.fixed_strings.checked ==> (r matches Ok(SearchType::Fixed(s)) && s@ == self.search.chars()),
            !self.fixed_strings.checked && self.advanced() ==> {
                &&& r is Ok <==> fancy_regex_accepts(self.search.chars())
                &&& r matches Ok(t) ==> (t matches SearchType::PatternAdvanced(re) && re.pattern() == self.search.chars())
                &&& r matches Err(e) ==> fancy_regex_compile_error(self.search.chars()) == Some(e@)
            },
            !self.fixed_strings.checked && !self.advanced() ==> {
                &&& r is Ok <==> regex_accepts(self.search.chars())
                &&& r matches Ok(t) ==> (t matches SearchType::Pattern(re) && re.pattern() == self.search.chars())
                &&& r matches Err(e) ==> regex_compile_error(self.search.chars()) == Some(e@)
            },
    {
        let text = self.search.text();
        if self.fixed_strings.checked {
            Ok(SearchType::Fixed(text))
        } else if self.advanced_regex {
            SearchType::advanced(text.as_str())
        } else {
            SearchType::basic(text.as_str())
        }
    }

    /// The path pattern as it compiles: none when empty, else a regex of the
    /// engine that the form was set up with; the error message where it does
    /// not compile.
    pub fn path_pattern_parsed(&self) -> (r: Result<Option<SearchType>, String>)
        ensures
            self.path_pattern.chars().len() == 0 ==> r matches Ok(None),
            self.path_pattern.chars().len() > 0 && self.advanced() ==> {
                &&& r is Ok <==> fancy_regex_accepts(self.path_pattern.chars())
                &&& r matches Ok(t) ==> (t matches Some(SearchType::PatternAdvanced(re)) && re.pattern() == self.path_pattern.chars())
                &&& r matches Err(e) ==> fancy_regex_compile_error(self.path_pattern.chars()) == Some(e@)
            },
            self.path_pattern.chars().len() > 0 && !self.advanced() ==> {
                &&& r is Ok <==> regex_accepts(self.path_pattern.chars())
                &&& r matches Ok(t) ==> (t matches Some(SearchType::Pattern(re)) && re.pattern() == self.path_pattern.chars())
                &&& r matches Err(e) ==> regex_compile_error(self.path_pattern.chars()) == Some(e@)
            },
    {
        let text = self.path_pattern.text();
        if text.as_str().unicode_len() == 0 {
            Ok(None)
        } else {
            let parsed = if self.advanced_regex {
                SearchType::advanced(text.as_str())
            } else {
                SearchType::basic(text.as_str())
            };
            match parsed {
                Ok(p) => Ok(Some(p)),
                Err(e) => Err(e),
            }
        }
    }


    /// Applies a key to the field with the focus, clearing that field's
    /// error; a key on the fixed-strings box also clears the error of the
    /// search text, which it may make valid.
    pub fn handle_keys(&mut self, code: KeyCode, modifiers: KeyModifiers)
        requires
            old(self).wf(),
        ensures
            final(self).wf(),
            final(self).highlighted == old(self).highlighted,
            final(self).show_error_popup == old(self).show_error_popup,
            final(self).advanced() == old(self).advanced(),
            old(self).highlighted == 0 ==> text_after_key(old(self).search, final(self).search, code, modifiers)
                && final(self).replace == old(self).replace && final(self).fixed_strings == old(self).fixed_strings
                && final(self).path_pattern == old(self).path_pattern,
            old(self).highlighted == 1 ==> text_after_key(old(self).replace, final(self).replace, code, modifiers)
                && final(self).search == old(self).search && final(self).fixed_strings == old(self).fixed_strings
                && final(self).path_pattern == old(self).path_pattern,
            old(self).highlighted == 2 ==> final(self).fixed_strings.checked == (old(self).fixed_strings.checked != (code == KeyCode::Char(' ')))
                && final(self).fixed_strings.error == old(self).fixed_strings.error
                && final(self).search.same_text(&old(self).search) && final(self).search.error_value() is None
                && final(self).replace == old(self).replace && final(self).path_pattern == old(self).path_pattern,
            old(self).highlighted == 3 ==> text_after_key(old(self).path_pattern, final(self).path_pattern, code, modifiers)
                && final(self).search == old(self).search && final(self).replace == old(self).replace
                && final(self).fixed_strings == old(self).fixed_strings,
    {
        if self.highlighted == 0 {
            self.search.clear_error();
            self.search.handle_keys(code, modifiers);
        } else if self.highlighted == 1 {
            self.replace.clear_error();
            self.replace.handle_keys(code, modifiers);
        } else if self.highlighted == 2 {
            self.search.clear_error();
            self.fixed_strings.handle_keys(code, modifiers);
        } else {
            self.path_pattern.clear_error();
            self.path_pattern.handle_keys(code, modifiers);
        }
    }
}

/// A key that moves a selection down: j, Down, or Ctrl-N.
pub open spec fn is_down_key(key: KeyEvent) -> bool {
    key.code == KeyCode::Char('j') || key.code == KeyCode::Down || (key.code == KeyCode::Char('n')
        && key.modifiers.is_only_control())
}

/// A key that moves a selection up: k, Up, or Ctrl-P.
pub open spec fn is_up_key(key: KeyEvent) -> bool {
    key.code == KeyCode::Char('k') || key.code == KeyCode::Up || (key.code == KeyCode::Char('p')
        && key.modifiers.is_only_control())
}

fn down_key(key: &KeyEvent) -> (r: bool)
    ensures
        r == is_down_key(*key),
{
    key.code == KeyCode::Char('j') || key.code == KeyCode::Down || (key.code == KeyCode::Char('n')
        && key.modifiers.only_control())
}

fn up_key(key: &KeyEvent) -> (r: bool)
    ensures
        r == is_up_key(*key),
{
    key.code == KeyCode::Char('k') || key.code == KeyCode::Up || (key.code == KeyCode::Char('p')
        && key.modifiers.only_control())
}

/// `b` is the list of matches `a` after a key on the selection screen that
/// neither confirms nor leaves it.
pub open spec fn selection_key_effect(key: KeyEvent, a: SearchState, b: SearchState) -> bool {
    if is_down_key(key) {
        b.results == a.results && b.selected == selection_below(a.selected as int, a.results.len() as int)
    } else if is_up_key(key) {
        b.results == a.results && b.selected == selection_above(a.selected as int, a.results.len() as int)
    } else if key.code == KeyCode::Char(' ') {
        toggled_selected(a, b)
    } else if key.code == KeyCode::Char('a') {
        toggled_all(a, b)
    } else {
        b == a
    }
}

impl SearchState {
    /// Applies a key of the selection screen that neither confirms nor leaves
    /// it.
    pub fn handle_selection_key(&mut self, key: &KeyEvent)
        ensures
            selection_key_effect(*key, *old(self), *final(self)),
    {
        if down_key(key) {
            self.move_selected_down();
        } else if up_key(key) {
            self.move_selected_up();
        } else if key.code == KeyCode::Char(' ') {
            self.toggle_selected_inclusion();
        } else if key.code == KeyCode::Char('a') {
            self.toggle_all_selected();
        }
    }
}

impl ReplaceState {
    /// Scrolls the error list with j, Down, Ctrl-N, k, Up or Ctrl-P; tells
    /// whether the key (Enter or q) ends the program.
    pub fn handle_key_results(&mut self, key: &KeyEvent) -> (exit: bool)
        ensures
            exit == (key.code == KeyCode::Enter || key.code == KeyCode::Char('q')),
            final(self).num_successes == old(self).num_successes,
            final(self).num_ignored == old(self).num_ignored,
            final(self).errors == old(self).errors,
            final(self).replacement_errors_pos == if is_down_key(*key) {
                selection_below(old(self).replacement_errors_pos as int, old(self).errors.len() as int)
            } else if is_up_key(*key) {
                selection_above(old(self).replacement_errors_pos as int, old(self).errors.len() as int)
            } else {
                old(self).replacement_errors_pos as int
            },
    {
        if down_key(key) {
            self.scroll_replacement_errors_down();
        } else if up_key(key) {
            self.scroll_replacement_errors_up();
        }
        key.code == KeyCode::Enter || key.code == KeyCode::Char('q')
    }
}

/// The first of `num_results` matches to show in a list with room for `rows`
/// of them: the selection stays near the middle of the list, which does not
/// scroll past its last match.
pub fn first_visible_result(selected: usize, num_results: usize, rows: usize) -> (r: usize)
    ensures
        r == vstd::math::min(
            if selected >= rows / 2 { selected - rows / 2 } else { 0 },
            if num_results >= rows { num_results - rows } else { 0 },
        ),
{
    let around_selection = selected.saturating_sub(rows / 2);
    let last_page = num_results.saturating_sub(rows);
    if around_selection < last_page {
        around_selection
    } else {
        last_page
    }
}

/// The least time, in milliseconds, between two redraws while matches stream
/// in.
pub const RERENDER_INTERVAL_MS: u64 = 100;

/// A search that is running: the matches so far, and when the screen was
/// last drawn (in milliseconds on the driver's clock).
#[derive(Debug)]
pub struct SearchInProgressState {
    pub search_state: SearchState,
    pub last_render: u64,
}

impl SearchInProgressState {
    pub fn new(now: u64) -> (r: SearchInProgressState)
        ensures
            r.search_state.results.len() == 0,
            r.search_state.selected == 0,
            r.last_render == now,
    {
        SearchInProgressState { search_state: SearchState { results: Vec::new(), selected: 0 }, last_render: now }
    }
}

/// A replacement that is running.
#[derive(Debug)]
pub struct PerformingReplacementState {}

impl PerformingReplacementState {
    pub fn new() -> (r: PerformingReplacementState) {
        PerformingReplacementState {}
    }
}

/// The screens of the application.
#[derive(Debug)]
pub enum Screen {
    SearchFields,
    SearchProgressing(SearchInProgressState),
    SearchComplete(SearchState),
    PerformingReplacement(PerformingReplacementState),
    Results(ReplaceState),
}

/// A screen whose background task is still running.
pub open spec fn in_progress(s: Screen) -> bool {
    s is SearchProgressing || s is PerformingReplacement
}

/// Work that the driver of the application does for the reducer.
#[derive(Debug)]
pub enum Effect {
    /// Hand the event back to the reducer through the event queue.
    SendAppEvent(AppEvent),
    /// Stop the background task of the screen that was left, and drop its
    /// channel.
    CancelWorker,
    /// Walk the root of the query and scan each file, sending one event per
    /// match and one when done.
    StartSearch(ParsedFields),
    /// Rewrite the files of the included matches, then send the tally.
    StartReplacement(SearchState),
}

/// `f` is the empty form, set up for the advanced engine or not.
pub open spec fn is_fresh_form(f: SearchFields, advanced: bool) -> bool {
    &&& f.search.chars().len() == 0 && f.search.cursor() == 0 && f.search.error_value() is None
    &&& f.replace.chars().len() == 0 && f.replace.cursor() == 0 && f.replace.error_value() is None
    &&& !f.fixed_strings.checked && f.fixed_strings.error is None
    &&& f.path_pattern.chars().len() == 0 && f.path_pattern.cursor() == 0
        && f.path_pattern.error_value() is None
    &&& f.highlighted == 0
    &&& !f.show_error_popup
    &&& f.advanced() == advanced
}

/// The search text of the form compiles.
pub open spec fn search_compiles(f: SearchFields) -> bool {
    f.fixed_strings.checked || (if f.advanced() {
        fancy_regex_accepts(f.search.chars())
    } else {
        regex_accepts(f.search.chars())
    })
}

/// The path pattern of the form is empty or compiles.
pub open spec fn path_compiles(f: SearchFields) -> bool {
    f.path_pattern.chars().len() == 0 || (if f.advanced() {
        fancy_regex_accepts(f.path_pattern.chars())
    } else {
        regex_accepts(f.path_pattern.chars())
    })
}

/// `p` is the query of form `f`, searching under `root`.
pub open spec fn query_of_form(p: ParsedFields, f: SearchFields, root: Seq<char>, include_hidden: bool) -> bool {
    &&& (if f.fixed_strings.checked {
        p.search_pattern matches SearchType::Fixed(s) && s@ == f.search.chars()
    } else if f.advanced() {
        p.search_pattern matches SearchType::PatternAdvanced(re) && re.pattern() == f.search.chars()
    } else {
        p.search_pattern matches SearchType::Pattern(re) && re.pattern() == f.search.chars()
    })
    &&& (if f.path_pattern.chars().len() == 0 {
        p.path_pattern is None
    } else if f.advanced() {
        p.path_pattern matches Some(SearchType::PatternAdvanced(re)) && re.pattern() == f.path_pattern.chars()
    } else {
        p.path_pattern matches Some(SearchType::Pattern(re)) && re.pattern() == f.path_pattern.chars()
    })
    &&& p.replace_string@ == f.replace.chars()
    &&& p.root_dir@ == root
    &&& p.include_hidden == include_hidden
}

/// The error text of the engine that the form was set up with, for a
/// pattern that it refuses.
pub open spec fn engine_error(pattern: Seq<char>, advanced: bool) -> Seq<char> {
    if advanced {
        fancy_regex_compile_error(pattern)->0
    } else {
        regex_compile_error(pattern)->0
    }
}

/// `e` is the error that validation puts on a field whose regex does not
/// compile: the short notice, and the engine's `message` as the long text.
pub open spec fn is_regex_error(e: Option<FieldError>, message: Seq<char>) -> bool {
    e matches Some(err) && err.short@ == REGEX_ERROR@ && err.long@ == message
}

/// The short error of a field whose regex does not compile.
pub const REGEX_ERROR: &'static str = "Couldn't parse regex";

/// The application state that the reducer owns: the screen, the form, where
/// to search, and the work queued for the driver.
#[derive(Debug)]
pub struct App {
    pub current_screen: Screen,
    pub search_fields: SearchFields,
    pub directory: String,
    pub include_hidden: bool,
    pub effects: Vec<Effect>,
}

/// `b` is `a` back on a fresh form, with the background task of an unfinished
/// screen cancelled.
pub open spec fn is_reset_of(a: App, b: App) -> bool {
    &&& b.current_screen is SearchFields
    &&& is_fresh_form(b.search_fields, a.search_fields.advanced())
    &&& b.directory == a.directory
    &&& b.include_hidden == a.include_hidden
    &&& b.effects@ == a.effects@ + if in_progress(a.current_screen) {
        seq![Effect::CancelWorker]
    } else {
        seq![]
    }
}

/// A key that leaves the program: Esc, or Ctrl-C.
pub open spec fn is_quit_key(key: KeyEvent) -> bool {
    key.code == KeyCode::Esc || (key.code == KeyCode::Char('c') && key.modifiers.is_only_control())
}

/// The key that starts over: Ctrl-R.
pub open spec fn is_reset_key(key: KeyEvent) -> bool {
    key.code == KeyCode::Char('r') && key.modifiers.is_only_control()
}

/// The key that goes back from the matches to the form: Ctrl-O.
pub open spec fn is_back_key(key: KeyEvent) -> bool {
    key.code == KeyCode::Char('o') && key.modifiers.is_only_control()
}

/// `b` is `a` after a key on the form.
pub open spec fn form_key_effect(key: KeyEvent, a: App, b: App) -> bool {
    &&& b.current_screen == a.current_screen
    &&& b.directory == a.directory
    &&& b.include_hidden == a.include_hidden
    &&& b.search_fields.wf()
    &&& if a.search_fields.show_error_popup {
        b.search_fields == (SearchFields { show_error_popup: false, ..a.search_fields })
            && b.effects == a.effects
    } else if key.code == KeyCode::Enter {
        b.search_fields == a.search_fields && b.effects@ == a.effects@.push(
            Effect::SendAppEvent(AppEvent::PerformSearch),
        )
    } else if key.code == KeyCode::BackTab || (key.code == KeyCode::Tab && key.modifiers.is_only_alt()) {
        b.search_fields == (SearchFields {
            highlighted: prev_focus(a.search_fields.highlighted as int) as usize,
            ..a.search_fields
        }) && b.effects == a.effects
    } else if key.code == KeyCode::Tab {
        b.search_fields == (SearchFields {
            highlighted: next_focus(a.search_fields.highlighted as int) as usize,
            ..a.search_fields
        }) && b.effects == a.effects
    } else {
        form_edit_effect(key, a.search_fields, b.search_fields) && b.effects == a.effects
    }
}

/// `b` is form `a` after a key applied to the field with the focus.
pub open spec fn form_edit_effect(key: KeyEvent, a: SearchFields, b: SearchFields) -> bool {
    &&& b.highlighted == a.highlighted
    &&& b.show_error_popup == a.show_error_popup
    &&& b.advanced() == a.advanced()
    &&& a.highlighted == 0 ==> text_after_key(a.search, b.search, key.code, key.modifiers)
        && b.replace == a.replace && b.fixed_strings == a.fixed_strings && b.path_pattern == a.path_pattern
    &&& a.highlighted == 1 ==> text_after_key(a.replace, b.replace, key.code, key.modifiers)
        && b.search == a.search && b.fixed_strings == a.fixed_strings && b.path_pattern == a.path_pattern
    &&& a.highlighted == 2 ==> b.fixed_strings.checked == (a.fixed_strings.checked != (key.code == KeyCode::Char(' ')))
        && b.fixed_strings.error == a.fixed_strings.error && b.search.same_text(&a.search)
        && b.search.error_value() is None && b.replace == a.replace && b.path_pattern == a.path_pattern
    &&& a.highlighted == 3 ==> text_after_key(a.path_pattern, b.path_pattern, key.code, key.modifiers)
        && b.search == a.search && b.replace == a.replace && b.fixed_strings == a.fixed_strings
}

/// The matches that a screen shows, if it shows any.
pub open spec fn shown_matches(s: Screen) -> Option<SearchState> {
    match s {
        Screen::SearchProgressing(p) => Some(p.search_state),
        Screen::SearchComplete(st) => Some(st),
        _ => None,
    }
}

/// `b` is `a` after a key on the screen of matches.
pub open spec fn confirmation_key_effect(key: KeyEvent, a: App, b: App) -> bool {
    &&& b.directory == a.directory
    &&& b.include_hidden == a.include_hidden
    &&& b.search_fields == a.search_fields
    &&& if key.code == KeyCode::Enter {
        match a.current_screen {
            Screen::SearchComplete(st) => b.current_screen is PerformingReplacement
                && b.effects@ == a.effects@.push(Effect::StartReplacement(st)),
            _ => b.current_screen == a.current_screen && b.effects == a.effects,
        }
    } else if is_back_key(key) {
        &&& b.current_screen is SearchFields
        &&& b.effects@ == a.effects@ + (if a.current_screen is SearchProgressing {
            seq![Effect::CancelWorker]
        } else {
            seq![]
        }) + seq![Effect::SendAppEvent(AppEvent::Rerender)]
    } else {
        &&& b.effects == a.effects
        &&& match (a.current_screen, b.current_screen) {
            (Screen::SearchProgressing(p), Screen::SearchProgressing(q)) => q.last_render == p.last_render
                && selection_key_effect(key, p.search_state, q.search_state),
            (Screen::SearchComplete(p), Screen::SearchComplete(q)) => selection_key_effect(key, p, q),
            _ => false,
        }
    }
}

impl App {
    pub open spec fn wf(&self) -> bool {
        self.search_fields.wf()
    }

    /// A new application on an empty form, searching under `directory`.
    pub fn new(directory: String, include_hidden: bool, advanced_regex: bool) -> (r: App)
        ensures
            r.wf(),
            r.current_screen is SearchFields,
            is_fresh_form(r.search_fields, advanced_regex),
            r.directory == directory,
            r.include_hidden == include_hidden,
            r.effects.len() == 0,
    {
        let search_fields = SearchFields::with_values("", "", false, "").with_advanced_regex(advanced_regex);
        proof {
            reveal_strlit("");
        }
        App {
            current_screen: Screen::SearchFields,
            search_fields,
            directory,
            include_hidden,
            effects: Vec::new(),
        }
    }

    /// `path` relative to the directory of the search.
    pub fn relative_path(&self, path: &str) -> (r: String)
        ensures
            r@ == relative_path(self.directory@, path@),
    {
        relative_path_from(self.directory.as_str(), path)
    }

    /// Hands the queued work to the driver and empties the queue.
    pub fn take_effects(&mut self) -> (r: Vec<Effect>)
        ensures
            r@ == old(self).effects@,
            final(self).effects.len() == 0,
            final(self).current_screen == old(self).current_screen,
            final(self).search_fields == old(self).search_fields,
            final(self).directory == old(self).directory,
            final(self).include_hidden == old(self).include_hidden,
    {
        let mut taken: Vec<Effect> = Vec::new();
        std::mem::swap(&mut taken, &mut self.effects);
        taken
    }

    /// Cancels a running search.
    pub fn cancel_search(&mut self)
        ensures
            final(self).current_screen == old(self).current_screen,
            final(self).search_fields == old(self).search_fields,
            final(self).directory == old(self).directory,
            final(self).include_hidden == old(self).include_hidden,
            final(self).effects@ == old(self).effects@ + if old(self).current_screen is SearchProgressing {
                seq![Effect::CancelWorker]
            } else {
                seq![]
            },
    {
        if let Screen::SearchProgressing(_) = &self.current_screen {
            self.effects.push(Effect::CancelWorker);
        }
        assert(self.effects@ =~= old(self).effects@ + if old(self).current_screen is SearchProgressing {
            seq![Effect::CancelWorker]
        } else {
            seq![]
        });
    }

    /// Cancels a running replacement.
    pub fn cancel_replacement(&mut self)
        ensures
            final(self).current_screen == old(self).current_screen,
            final(self).search_fields == old(self).search_fields,
            final(self).directory == old(self).directory,
            final(self).include_hidden == old(self).include_hidden,
            final(self).effects@ == old(self).effects@ + if old(self).current_screen is PerformingReplacement {
                seq![Effect::CancelWorker]
            } else {
                seq![]
            },
    {
        if let Screen::PerformingReplacement(_) = &self.current_screen {
            self.effects.push(Effect::CancelWorker);
        }
        assert(self.effects@ =~= old(self).effects@ + if old(self).current_screen is PerformingReplacement {
            seq![Effect::CancelWorker]
        } else {
            seq![]
        });
    }

    /// Cancels any background task and starts over on an empty form.
    pub fn reset(&mut self)
        ensures
            final(self).wf(),
            is_reset_of(*old(self), *final(self)),
    {
        self.cancel_search();
        self.cancel_replacement();
        let advanced = self.search_fields.advanced_regex;
        self.search_fields = SearchFields::with_values("", "", false, "").with_advanced_regex(advanced);
        self.current_screen = Screen::SearchFields;
        proof {
            reveal_strlit("");
        }
        assert(self.effects@ =~= old(self).effects@ + if in_progress(old(self).current_screen) {
            seq![Effect::CancelWorker]
        } else {
            seq![]
        });
    }

    /// Handles an event that the application sent itself.
    pub fn handle_app_event(&mut self, event: AppEvent, now: u64) -> (r: EventHandlingResult)
        requires
            old(self).wf(),
        ensures
            final(self).wf(),
            event == AppEvent::Rerender ==> *final(self) == *old(self),
            event == AppEvent::PerformSearch ==> searched(*old(self), *final(self), now),
            r == (EventHandlingResult { exit: false, rerender: true }),
    {
        match event {
            AppEvent::Rerender => EventHandlingResult { exit: false, rerender: true },
            AppEvent::PerformSearch => self.perform_search_if_valid(now),
        }
    }

    /// Validates the form: on success starts the search and shows its
    /// matches as they come; otherwise marks each field whose pattern does
    /// not compile and opens the error popup.
    pub fn perform_search_if_valid(&mut self, now: u64) -> (r: EventHandlingResult)
        requires
            old(self).wf(),
        ensures
            final(self).wf(),
            searched(*old(self), *final(self), now),
            r == (EventHandlingResult { exit: false, rerender: true }),
    {
        match self.validate_fields() {
            None => {
                self.current_screen = Screen::SearchFields;
            },
            Some(parsed_fields) => {
                self.effects.push(Effect::StartSearch(parsed_fields));
                self.current_screen = Screen::SearchProgressing(SearchInProgressState::new(now));
                assert(self.effects@.take(old(self).effects.len() as int) =~= old(self).effects@);
            },
        }
        EventHandlingResult { exit: false, rerender: true }
    }

    fn validate_fields(&mut self) -> (r: Option<ParsedFields>)
        requires
            old(self).wf(),
        ensures
            final(self).wf(),
            final(self).current_screen == old(self).current_screen,
            final(self).directory == old(self).directory,
            final(self).include_hidden == old(self).include_hidden,
            final(self).effects == old(self).effects,
            validated(old(self).search_fields, final(self).search_fields),
            r is Some <==> search_compiles(old(self).search_fields) && path_compiles(old(self).search_fields),
            r matches Some(p) ==> query_of_form(p, old(self).search_fields, old(self).directory@, old(self).include_hidden),
    {
        let search_pattern = match self.search_fields.search_type() {
            Err(e) => {
                self.search_fields.search.set_error(String::from_str(REGEX_ERROR), e);
                None
            },
            Ok(p) => Some(p),
        };
        let path_pattern = match self.search_fields.path_pattern_parsed() {
            Err(e) => {
                self.search_fields.path_pattern.set_error(String::from_str(REGEX_ERROR), e);
                None
            },
            Ok(p) => Some(p),
        };
        match (search_pattern, path_pattern) {
            (Some(s), Some(p)) => Some(
                ParsedFields::new(
                    s,
                    self.search_fields.replace.text(),
                    p,
                    self.directory.clone(),
                    self.include_hidden,
                ),
            ),
            _ => {
                self.search_fields.show_error_popup = true;
                None
            },
        }
    }

    /// Moves the matches of a finished search on to the replacement.
    pub fn trigger_replacement(&mut self)
        ensures
            final(self).search_fields == old(self).search_fields,
            final(self).directory == old(self).directory,
            final(self).include_hidden == old(self).include_hidden,
            match old(self).current_screen {
                Screen::SearchComplete(st) => final(self).current_screen is PerformingReplacement
                    && final(self).effects@ == old(self).effects@.push(Effect::StartReplacement(st)),
                _ => final(self).current_screen == old(self).current_screen && final(self).effects == old(self).effects,
            },
    {
        let mut screen = Screen::PerformingReplacement(PerformingReplacementState::new());
        std::mem::swap(&mut screen, &mut self.current_screen);
        match screen {
            Screen::SearchComplete(search_state) => {
                self.effects.push(Effect::StartReplacement(search_state));
            },
            other => {
                self.current_screen = other;
            },
        }
    }

    /// Handles an event of a background task. Matches are added only while
    /// their search is the screen shown; a redraw is asked for at most once
    /// per interval while they stream in.
    pub fn handle_background_processing_event(&mut self, event: BackgroundProcessingEvent, now: u64) -> (r: EventHandlingResult)
        ensures
            final(self).search_fields == old(self).search_fields,
            final(self).directory == old(self).directory,
            final(self).include_hidden == old(self).include_hidden,
            final(self).effects == old(self).effects,
            !r.exit,
            match event {
                BackgroundProcessingEvent::AddSearchResult(res) => match old(self).current_screen {
                    Screen::SearchProgressing(p) => {
                        let due = now >= p.last_render + RERENDER_INTERVAL_MS;
                        &&& final(self).current_screen matches Screen::SearchProgressing(q)
                        &&& q.search_state.results@ == p.search_state.results@.push(res)
                        &&& q.search_state.selected == p.search_state.selected
                        &&& q.last_render == if due { now } else { p.last_render }
                        &&& r.rerender == due
                    },
                    _ => final(self).current_screen == old(self).current_screen && !r.rerender,
                },
                BackgroundProcessingEvent::SearchCompleted => r.rerender && match old(self).current_screen {
                    Screen::SearchProgressing(p) => final(self).current_screen == Screen::SearchComplete(p.search_state),
                    _ => final(self).current_screen == old(self).current_screen,
                },
                BackgroundProcessingEvent::ReplacementCompleted(st) => r.rerender && if old(self).current_screen is PerformingReplacement {
                    final(self).current_screen == Screen::Results(st)
                } else {
                    final(self).current_screen == old(self).current_screen
                },
            },
    {
        match event {
            BackgroundProcessingEvent::AddSearchResult(result) => {
                let mut rerender = false;
                if let Screen::SearchProgressing(state) = &mut self.current_screen {
                    state.search_state.results.push(result);
                    if now >= state.last_render && now - state.last_render >= RERENDER_INTERVAL_MS {
                        rerender = true;
                        state.last_render = now;
                    }
                }
                EventHandlingResult { exit: false, rerender }
            },
            BackgroundProcessingEvent::SearchCompleted => {
                let mut screen = Screen::SearchFields;
                std::mem::swap(&mut screen, &mut self.current_screen);
                match screen {
                    Screen::SearchProgressing(state) => {
                        self.current_screen = Screen::SearchComplete(state.search_state);
                    },
                    other => {
                        self.current_screen = other;
                    },
                }
                EventHandlingResult { exit: false, rerender: true }
            },
            BackgroundProcessingEvent::ReplacementCompleted(replace_state) => {
                if let Screen::PerformingReplacement(_) = &self.current_screen {
                    self.current_screen = Screen::Results(replace_state);
                }
                EventHandlingResult { exit: false, rerender: true }
            },
        }
    }

    fn handle_key_searching(&mut self, key: &KeyEvent) -> (exit: bool)
        requires
            old(self).wf(),
            old(self).current_screen is SearchFields,
        ensures
            !exit,
            form_key_effect(*key, *old(self), *final(self)),
    {
        if self.search_fields.show_error_popup {
            self.search_fields.show_error_popup = false;
        } else if key.code == KeyCode::Enter {
            self.effects.push(Effect::SendAppEvent(AppEvent::PerformSearch));
        } else if key.code == KeyCode::BackTab || (key.code == KeyCode::Tab && key.modifiers.only_alt()) {
            self.search_fields.focus_prev();
        } else if key.code == KeyCode::Tab {
            self.search_fields.focus_next();
        } else {
            self.search_fields.handle_keys(key.code, key.modifiers);
        }
        false
    }

    fn handle_key_confirmation(&mut self, key: &KeyEvent) -> (exit: bool)
        requires
            old(self).current_screen is SearchProgressing || old(self).current_screen is SearchComplete,
        ensures
            !exit,
            confirmation_key_effect(*key, *old(self), *final(self)),
    {
        if key.code == KeyCode::Enter {
            self.trigger_replacement();
        } else if key.code == KeyCode::Char('o') && key.modifiers.only_control() {
            self.cancel_search();
            self.current_screen = Screen::SearchFields;
            self.effects.push(Effect::SendAppEvent(AppEvent::Rerender));
            assert(self.effects@ =~= old(self).effects@ + (if old(self).current_screen is SearchProgressing {
                seq![Effect::CancelWorker]
            } else {
                seq![]
            }) + seq![Effect::SendAppEvent(AppEvent::Rerender)]);
        } else {
            match &mut self.current_screen {
                Screen::SearchProgressing(state) => state.search_state.handle_selection_key(key),
                Screen::SearchComplete(state) => state.handle_selection_key(key),
                _ => {},
            }
        }
        false
    }

    /// Handles a key: Esc or Ctrl-C quit (unless the popup is open, which the
    /// key then closes), Ctrl-R starts over, and every other key goes to the
    /// screen shown.
    pub fn handle_key_events(&mut self, key: &KeyEvent) -> (r: EventHandlingResult)
        requires
            old(self).wf(),
        ensures
            final(self).wf(),
            r.rerender,
            key.kind == KeyEventKind::Release ==> *final(self) == *old(self) && !r.exit,
            key.kind != KeyEventKind::Release ==> {
                if is_quit_key(*key) && !old(self).search_fields.show_error_popup {
                    r.exit && is_reset_of(*old(self), *final(self))
                } else if is_reset_key(*key) {
                    !r.exit && is_reset_of(*old(self), *final(self))
                } else {
                    match old(self).current_screen {
                        Screen::SearchFields => !r.exit && form_key_effect(*key, *old(self), *final(self)),
                        Screen::SearchProgressing(_) => !r.exit && confirmation_key_effect(*key, *old(self), *final(self)),
                        Screen::SearchComplete(_) => !r.exit && confirmation_key_effect(*key, *old(self), *final(self)),
                        Screen::PerformingReplacement(_) => !r.exit && *final(self) == *old(self),
                        Screen::Results(a) => {
                            &&& r.exit == (key.code == KeyCode::Enter || key.code == KeyCode::Char('q'))
                            &&& final(self).search_fields == old(self).search_fields
                            &&& final(self).effects == old(self).effects
                            &&& final(self).current_screen matches Screen::Results(b)
                            &&& b.errors == a.errors && b.num_successes == a.num_successes
                                && b.num_ignored == a.num_ignored
                            &&& b.replacement_errors_pos == if is_down_key(*key) {
                                selection_below(a.replacement_errors_pos as int, a.errors.len() as int)
                            } else if is_up_key(*key) {
                                selection_above(a.replacement_errors_pos as int, a.errors.len() as int)
                            } else {
                                a.replacement_errors_pos as int
                            }
                        },
                    }
                }
            },
    {
        if key.kind == KeyEventKind::Release {
            return EventHandlingResult { exit: false, rerender: true };
        }
        let quit = key.code == KeyCode::Esc || (key.code == KeyCode::Char('c') && key.modifiers.only_control());
        if quit && !self.search_fields.show_error_popup {
            self.reset();
            return EventHandlingResult { exit: true, rerender: true };
        }
        if key.code == KeyCode::Char('r') && key.modifiers.only_control() {
            self.reset();
            return EventHandlingResult { exit: false, rerender: true };
        }
        let exit = match &mut self.current_screen {
            Screen::SearchFields => self.handle_key_searching(key),
            Screen::SearchProgressing(_) => self.handle_key_confirmation(key),
            Screen::SearchComplete(_) => self.handle_key_confirmation(key),
            Screen::PerformingReplacement(_) => false,
            Screen::Results(replace_state) => replace_state.handle_key_results(key),
        };
        EventHandlingResult { exit, rerender: true }
    }
}

/// `b` is form `a` after validation: each field whose pattern does not
/// compile carries the regex error, the popup opens if either does, and
/// nothing else changes.
pub open spec fn validated(a: SearchFields, b: SearchFields) -> bool {
    &&& b.wf()
    &&& b.replace == a.replace && b.fixed_strings == a.fixed_strings
    &&& b.highlighted == a.highlighted && b.advanced() == a.advanced()
    &&& b.search.same_text(&a.search) && b.path_pattern.same_text(&a.path_pattern)
    &&& if search_compiles(a) {
        b.search == a.search
    } else {
        is_regex_error(b.search.error_value(), engine_error(a.search.chars(), a.advanced()))
    }
    &&& if path_compiles(a) {
        b.path_pattern == a.path_pattern
    } else {
        is_regex_error(b.path_pattern.error_value(), engine_error(a.path_pattern.chars(), a.advanced()))
    }
    &&& b.show_error_popup == (a.show_error_popup || !search_compiles(a) || !path_compiles(a))
}

/// `b` is `a` after the form was submitted at time `now`: the search runs,
/// or the form shows why it cannot.
pub open spec fn searched(a: App, b: App, now: u64) -> bool {
    &&& b.directory == a.directory
    &&& b.include_hidden == a.include_hidden
    &&& validated(a.search_fields, b.search_fields)
    &&& if search_compiles(a.search_fields) && path_compiles(a.search_fields) {
        &&& b.current_screen matches Screen::SearchProgressing(p) && p.search_state.results.len() == 0
            && p.search_state.selected == 0 && p.last_render == now
        &&& b.effects.len() == a.effects.len() + 1
        &&& b.effects@.take(a.effects.len() as int) == a.effects@
        &&& b.effects@.last() matches Effect::StartSearch(q) && query_of_form(q, a.search_fields, a.directory@, a.include_hidden)
    } else {
        b.current_screen is SearchFields && b.effects == a.effects
    }
}

} // verus!
