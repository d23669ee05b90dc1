use vstd::prelude::*;

use crate::keys::{KeyCode, KeyModifiers};
use crate::text::{char_vec, push_char};

verus! {

/// A message attached to a field that failed validation: a short form for the
/// field itself and a long form for the popup.
#[derive(Debug)]
pub struct FieldError {
    pub short: String,
    pub long: String,
}

impl Clone for FieldError {
    fn clone(&self) -> (r: FieldError)
        ensures
            r == *self,
    {
        FieldError { short: self.short.clone(), long: self.long.clone() }
    }
}

/// Position `i` stepped back over the spaces that end at it.
pub open spec fn skip_spaces_back(s: Seq<char>, i: int) -> int
    decreases i,
{
    if i > 0 && s[i] == ' ' {
        skip_spaces_back(s, i - 1)
    } else {
        i
    }
}

/// Position `i` stepped back over the run of non-spaces just before it.
pub open spec fn skip_word_back(s: Seq<char>, i: int) -> int
    decreases i,
{
    if i > 0 && s[i - 1] != ' ' {
        skip_word_back(s, i - 1)
    } else {
        i
    }
}

/// Position `i` stepped forward over the run of non-spaces that starts there.
pub open spec fn skip_word_forward(s: Seq<char>, i: int) -> int
    decreases s.len() - i,
{
    if 0 <= i < s.len() && s[i] != ' ' {
        skip_word_forward(s, i + 1)
    } else {
        i
    }
}

/// Position `i` stepped forward over the spaces that start there.
pub open spec fn skip_spaces_forward(s: Seq<char>, i: int) -> int
    decreases s.len() - i,
{
    if 0 <= i < s.len() && s[i] == ' ' {
        skip_spaces_forward(s, i + 1)
    } else {
        i
    }
}

/// Where a backward word motion from cursor `c` lands: over the spaces to the
/// left of the cursor, then over the word before them.
pub open spec fn previous_word_start(s: Seq<char>, c: int) -> int {
    if c <= 0 {
        0
    } else {
        skip_word_back(s, skip_spaces_back(s, c - 1))
    }
}

/// Where a forward word motion from cursor `c` lands: over the word at the
/// cursor, then over the spaces after it.
pub open spec fn next_word_start(s: Seq<char>, c: int) -> int {
    skip_spaces_forward(s, skip_word_forward(s, c))
}

/// One editing action on a text field.
#[derive(Clone, Copy, Debug, PartialEq, Eq, Structural)]
pub enum TextEdit {
    DeleteWordBackward,
    Clear,
    DeleteChar,
    MoveBackWord,
    MoveStart,
    MoveLeft,
    MoveForwardWord,
    MoveEnd,
    MoveRight,
    DeleteWordForward,
    DeleteCharForward,
    Insert(char),
    Ignore,
}

/// The key bindings of a text field.
pub open spec fn text_edit_for_key(code: KeyCode, m: KeyModifiers) -> TextEdit {
    if (code == KeyCode::Char('w') && m.is_only_control()) || (code == KeyCode::Backspace
        && m.is_only_alt()) {
        TextEdit::DeleteWordBackward
    } else if (code == KeyCode::Char('u') && m.is_only_control()) || (code == KeyCode::Backspace
        && m.is_only_meta()) {
        TextEdit::Clear
    } else if code == KeyCode::Backspace {
        TextEdit::DeleteChar
    } else if (code == KeyCode::Left || code == KeyCode::Char('b') || code == KeyCode::Char('B'))
        && m.alt {
        TextEdit::MoveBackWord
    } else if code == KeyCode::Home {
        TextEdit::MoveStart
    } else if code == KeyCode::Left {
        TextEdit::MoveLeft
    } else if (code == KeyCode::Right || code == KeyCode::Char('f') || code == KeyCode::Char('F'))
        && m.alt {
        TextEdit::MoveForwardWord
    } else if code == KeyCode::Right && m.is_only_meta() {
        TextEdit::MoveEnd
    } else if code == KeyCode::End {
        TextEdit::MoveEnd
    } else if code == KeyCode::Right {
        TextEdit::MoveRight
    } else if (code == KeyCode::Char('d') || code == KeyCode::Delete) && m.is_only_alt() {
        TextEdit::DeleteWordForward
    } else if code == KeyCode::Delete {
        TextEdit::DeleteCharForward
    } else {
        match code {
            KeyCode::Char(ch) => TextEdit::Insert(ch),
            _ => TextEdit::Ignore,
        }
    }
}

/// The text after edit `e` on text `s` with the cursor at `c`.
pub open spec fn edited_text(e: TextEdit, s: Seq<char>, c: int) -> Seq<char> {
    match e {
        TextEdit::DeleteWordBackward => s.take(previous_word_start(s, c)) + s.skip(c),
        TextEdit::Clear => Seq::empty(),
        TextEdit::DeleteChar => if c == 0 {
            s
        } else {
            s.take(c - 1) + s.skip(c)
        },
        TextEdit::DeleteWordForward => s.take(c) + s.skip(next_word_start(s, c)),
        TextEdit::DeleteCharForward => if c < s.len() {
            s.take(c) + s.skip(c + 1)
        } else {
            s
        },
        TextEdit::Insert(ch) => s.insert(c, ch),
        _ => s,
    }
}

/// The cursor after edit `e` on text `s` with the cursor at `c`.
pub open spec fn edited_cursor(e: TextEdit, s: Seq<char>, c: int) -> int {
    match e {
        TextEdit::DeleteWordBackward => previous_word_start(s, c),
        TextEdit::Clear => 0,
        TextEdit::DeleteChar => if c == 0 {
            0
        } else {
            c - 1
        },
        TextEdit::MoveBackWord => previous_word_start(s, c),
        TextEdit::MoveStart => 0,
        TextEdit::MoveLeft => if c == 0 {
            0
        } else {
            c - 1
        },
        TextEdit::MoveForwardWord => next_word_start(s, c),
        TextEdit::MoveEnd => s.len() as int,
        TextEdit::MoveRight => if c < s.len() {
            c + 1
        } else {
            s.len() as int
        },
        TextEdit::Insert(_) => c + 1,
        _ => c,
    }
}

/// An editable line: its characters, a cursor between 0 and the number of
/// characters, and the error of the last validation, if any.
#[derive(Debug)]
pub struct TextField {
    text: String,
    cursor_idx: usize,
    error: Option<FieldError>,
}

impl Default for TextField {
    fn default() -> (r: TextField)
        ensures
            r.wf(),
            r.chars() == Seq::<char>::empty(),
            r.cursor() == 0,
            r.error_value() is None,
    {
        TextField { text: String::new(), cursor_idx: 0, error: None }
    }
}

impl Clone for TextField {
    fn clone(&self) -> (r: TextField)
        ensures
            r == *self,
    {
        proof {
            use_type_invariant(self);
        }
        TextField { text: self.text.clone(), cursor_idx: self.cursor_idx, error: self.error.clone() }
    }
}

impl TextField {
    #[verifier::type_invariant]
    spec fn cursor_in_text(self) -> bool {
        self.cursor_idx <= self.text@.len()
    }

    /// The characters of the field.
    pub closed spec fn chars(&self) -> Seq<char> {
        self.text@
    }

    /// The cursor, as a character position.
    pub closed spec fn cursor(&self) -> int {
        self.cursor_idx as int
    }

    /// The error attached to the field.
    pub closed spec fn error_value(&self) -> Option<FieldError> {
        self.error
    }

    /// `self` has the text and the cursor of `other`.
    pub open spec fn same_text(&self, other: &TextField) -> bool {
        self.chars() == other.chars() && self.cursor() == other.cursor()
    }

    /// The cursor lies between the start and the end of the text.
    pub open spec fn wf(&self) -> bool {
        0 <= self.cursor() <= self.chars().len()
    }

    pub fn new(initial: String) -> (r: TextField)
        ensures
            r.wf(),
            r.chars() == initial@,
            r.cursor() == 0,
            r.error_value() is None,
    {
        TextField { text: initial, cursor_idx: 0, error: None }
    }

    pub fn text(&self) -> (r: String)
        ensures
            r@ == self.chars(),
    {
        self.text.clone()
    }

    pub fn cursor_idx(&self) -> (r: usize)
        ensures
            r == self.cursor(),
    {
        self.cursor_idx
    }

    pub fn error(&self) -> (r: Option<FieldError>)
        ensures
            r == self.error_value(),
    {
        self.error.clone()
    }

    pub fn move_cursor_left(&mut self)
        ensures
            final(self).wf(),
            final(self).chars() == old(self).chars(),
            final(self).error_value() == old(self).error_value(),
            final(self).cursor() == edited_cursor(TextEdit::MoveLeft, old(self).chars(), old(self).cursor()),
    {
        proof {
            use_type_invariant(&*self);
        }
        self.move_cursor_left_by(1)
    }

    pub fn move_cursor_start(&mut self)
        ensures
            final(self).wf(),
            final(self).chars() == old(self).chars(),
            final(self).error_value() == old(self).error_value(),
            final(self).cursor() == 0,
    {
        proof {
            use_type_invariant(&*self);
        }
        self.cursor_idx = 0;
    }

    fn move_cursor_left_by(&mut self, n: usize)
        ensures
            final(self).wf(),
            final(self).chars() == old(self).chars(),
            final(self).error_value() == old(self).error_value(),
            final(self).cursor() == if old(self).cursor() >= n {
                old(self).cursor() - n
            } else {
                0
            },
    {
        proof {
            use_type_invariant(&*self);
        }
        let moved = self.cursor_idx.saturating_sub(n);
        self.cursor_idx = self.clamp_cursor(moved);
    }

    pub fn move_cursor_right(&mut self)
        ensures
            final(self).wf(),
            final(self).chars() == old(self).chars(),
            final(self).error_value() == old(self).error_value(),
            final(self).cursor() == edited_cursor(TextEdit::MoveRight, old(self).chars(), old(self).cursor()),
    {
        proof {
            use_type_invariant(&*self);
        }
        self.move_cursor_right_by(1)
    }

    fn move_cursor_right_by(&mut self, n: usize)
        ensures
            final(self).wf(),
            final(self).chars() == old(self).chars(),
            final(self).error_value() == old(self).error_value(),
            final(self).cursor() == if old(self).cursor() + n <= old(self).chars().len() {
                old(self).cursor() + n
            } else {
                old(self).chars().len() as int
            },
    {
        proof {
            use_type_invariant(&*self);
        }
        let moved = if n > usize::MAX - self.cursor_idx {
            usize::MAX
        } else {
            self.cursor_idx + n
        };
        self.cursor_idx = self.clamp_cursor(moved);
    }

    pub fn move_cursor_end(&mut self)
        ensures
            final(self).wf(),
            final(self).chars() == old(self).chars(),
            final(self).error_value() == old(self).error_value(),
            final(self).cursor() == old(self).chars().len(),
    {
        proof {
            use_type_invariant(&*self);
        }
        self.cursor_idx = self.text.as_str().unicode_len();
    }

    /// Inserts `new_char` at the cursor and moves the cursor past it.
    pub fn enter_char(&mut self, new_char: char)
        ensures
            final(self).wf(),
            final(self).chars() == old(self).chars().insert(old(self).cursor(), new_char),
            final(self).cursor() == old(self).cursor() + 1,
            final(self).error_value() == old(self).error_value(),
    {
        proof {
            use_type_invariant(&*self);
        }
        let n = self.text.as_str().unicode_len();
        let c = self.cursor_idx;
        let mut t = String::from_str(self.text.as_str().substring_char(0, c));
        push_char(&mut t, new_char);
        t.append(self.text.as_str().substring_char(c, n));
        assert(t@ =~= self.text@.insert(c as int, new_char));
        self.text = t;
        self.move_cursor_right();
    }

    /// Deletes the character before the cursor.
    pub fn delete_char(&mut self)
        ensures
            final(self).wf(),
            final(self).chars() == edited_text(TextEdit::DeleteChar, old(self).chars(), old(self).cursor()),
            final(self).cursor() == edited_cursor(TextEdit::DeleteChar, old(self).chars(), old(self).cursor()),
            final(self).error_value() == old(self).error_value(),
    {
        proof {
            use_type_invariant(&*self);
        }
        if self.cursor_idx == 0 {
            return;
        }
        let c = self.cursor_idx;
        let t = self.without_range(c - 1, c);
        self.move_cursor_left();
        self.text = t;
    }

    /// Deletes the character under the cursor.
    pub fn delete_char_forward(&mut self)
        ensures
            final(self).wf(),
            final(self).chars() == edited_text(TextEdit::DeleteCharForward, old(self).chars(), old(self).cursor()),
            final(self).cursor() == old(self).cursor(),
            final(self).error_value() == old(self).error_value(),
    {
        proof {
            use_type_invariant(&*self);
        }
        let n = self.text.as_str().unicode_len();
        let c = self.cursor_idx;
        if c < n {
            self.text = self.without_range(c, c + 1);
        }
    }

    /// The text with the characters from `from` up to `to` taken out.
    fn without_range(&self, from: usize, to: usize) -> (r: String)
        requires
            from <= to <= self.chars().len(),
        ensures
            r@ == self.chars().take(from as int) + self.chars().skip(to as int),
    {
        let n = self.text.as_str().unicode_len();
        let head = String::from_str(self.text.as_str().substring_char(0, from));
        let r = head.concat(self.text.as_str().substring_char(to, n));
        assert(r@ =~= self.text@.take(from as int) + self.text@.skip(to as int));
        r
    }

    fn previous_word_start(&self) -> (r: usize)
        ensures
            r == previous_word_start(self.chars(), self.cursor()),
            r <= self.cursor(),
    {
        proof {
            use_type_invariant(self);
        }
        if self.cursor_idx == 0 {
            return 0;
        }
        let chars = char_vec(self.text.as_str());
        let ghost s = chars@;
        let mut idx = self.cursor_idx - 1;
        while idx > 0 && chars[idx] == ' '
            invariant
                idx < chars.len(),
                idx < self.cursor_idx,
                s == chars@,
                skip_spaces_back(s, idx as int) == skip_spaces_back(s, self.cursor_idx - 1),
            decreases idx,
        {
            idx -= 1;
        }
        let ghost mid = idx as int;
        while idx > 0 && chars[idx - 1] != ' '
            invariant
                idx <= mid < chars.len(),
                s == chars@,
                skip_word_back(s, idx as int) == skip_word_back(s, mid),
            decreases idx,
        {
            idx -= 1;
        }
        idx
    }

    /// Moves the cursor to the start of the word before it.
    pub fn move_cursor_back_word(&mut self)
        ensures
            final(self).wf(),
            final(self).chars() == old(self).chars(),
            final(self).error_value() == old(self).error_value(),
            final(self).cursor() == previous_word_start(old(self).chars(), old(self).cursor()),
    {
        proof {
            use_type_invariant(&*self);
        }
        self.cursor_idx = self.previous_word_start();
    }

    /// Deletes from the start of the word before the cursor up to the cursor.
    pub fn delete_word_backward(&mut self)
        ensures
            final(self).wf(),
            final(self).chars() == edited_text(TextEdit::DeleteWordBackward, old(self).chars(), old(self).cursor()),
            final(self).cursor() == previous_word_start(old(self).chars(), old(self).cursor()),
            final(self).error_value() == old(self).error_value(),
    {
        proof {
            use_type_invariant(&*self);
        }
        let p = self.previous_word_start();
        let t = self.without_range(p, self.cursor_idx);
        self.cursor_idx = p;
        self.text = t;
    }

    fn next_word_start(&self) -> (r: usize)
        ensures
            r == next_word_start(self.chars(), self.cursor()),
            self.cursor() <= r <= self.chars().len(),
    {
        proof {
            use_type_invariant(self);
        }
        let chars = char_vec(self.text.as_str());
        let ghost s = chars@;
        let n = chars.len();
        let mut idx = self.cursor_idx;
        while idx < n && chars[idx] != ' '
            invariant
                self.cursor_idx <= idx <= n,
                n == chars.len(),
                s == chars@,
                skip_word_forward(s, idx as int) == skip_word_forward(s, self.cursor_idx as int),
            decreases n - idx,
        {
            idx += 1;
        }
        let ghost mid = idx as int;
        while idx < n && chars[idx] == ' '
            invariant
                self.cursor_idx <= mid <= idx <= n,
                n == chars.len(),
                s == chars@,
                skip_spaces_forward(s, idx as int) == skip_spaces_forward(s, mid),
            decreases n - idx,
        {
            idx += 1;
        }
        idx
    }

    /// Moves the cursor past the word at the cursor and the spaces after it.
    pub fn move_cursor_forward_word(&mut self)
        ensures
            final(self).wf(),
            final(self).chars() == old(self).chars(),
            final(self).error_value() == old(self).error_value(),
            final(self).cursor() == next_word_start(old(self).chars(), old(self).cursor()),
    {
        proof {
            use_type_invariant(&*self);
        }
        self.cursor_idx = self.next_word_start();
    }

    /// Deletes from the cursor up to the start of the next word.
    pub fn delete_word_forward(&mut self)
        ensures
            final(self).wf(),
            final(self).chars() == edited_text(TextEdit::DeleteWordForward, old(self).chars(), old(self).cursor()),
            final(self).cursor() == old(self).cursor(),
            final(self).error_value() == old(self).error_value(),
    {
        proof {
            use_type_invariant(&*self);
        }
        let e = self.next_word_start();
        self.text = self.without_range(self.cursor_idx, e);
    }

    fn clamp_cursor(&self, new_cursor_pos: usize) -> (r: usize)
        ensures
            self.chars().len() <= usize::MAX,
            r == if new_cursor_pos <= self.chars().len() {
                new_cursor_pos as int
            } else {
                self.chars().len() as int
            },
    {
        let n = self.text.as_str().unicode_len();
        if new_cursor_pos > n {
            n
        } else {
            new_cursor_pos
        }
    }

    /// Empties the field.
    pub fn clear(&mut self)
        ensures
            final(self).wf(),
            final(self).chars() == Seq::<char>::empty(),
            final(self).cursor() == 0,
            final(self).error_value() == old(self).error_value(),
    {
        proof {
            use_type_invariant(&*self);
        }
        self.cursor_idx = 0;
        self.text = String::new();
    }

    pub fn set_error(&mut self, short: String, long: String)
        ensures
            final(self).wf(),
            final(self).same_text(old(self)),
            final(self).error_value() == Some(FieldError { short, long }),
    {
        proof {
            use_type_invariant(&*self);
        }
        self.error = Some(FieldError { short, long });
    }

    pub fn clear_error(&mut self)
        ensures
            final(self).wf(),
            final(self).same_text(old(self)),
            final(self).error_value() is None,
    {
        proof {
            use_type_invariant(&*self);
        }
        self.error = None;
    }

    /// Applies the action bound to the key.
    pub(crate) fn handle_keys(&mut self, code: KeyCode, modifiers: KeyModifiers)
        ensures
            final(self).wf(),
            final(self).chars() == edited_text(text_edit_for_key(code, modifiers), old(self).chars(), old(self).cursor()),
            final(self).cursor() == edited_cursor(text_edit_for_key(code, modifiers), old(self).chars(), old(self).cursor()),
            final(self).error_value() == old(self).error_value(),
    {
        proof {
            use_type_invariant(&*self);
        }
        let is_char = |c: char| -> (r: bool)
            ensures r == (code == KeyCode::Char(c)),
        { code == KeyCode::Char(c) };
        if (is_char('w') && modifiers.only_control()) || (code == KeyCode::Backspace && modifiers.only_alt()) {
            self.delete_word_backward();
        } else if (is_char('u') && modifiers.only_control()) || (code == KeyCode::Backspace && modifiers.only_meta()) {
            self.clear();
        } else if code == KeyCode::Backspace {
            self.delete_char();
        } else if (code == KeyCode::Left || is_char('b') || is_char('B')) && modifiers.alt {
            self.move_cursor_back_word();
        } else if code == KeyCode::Home {
            self.move_cursor_start();
        } else if code == KeyCode::Left {
            self.move_cursor_left();
        } else if (code == KeyCode::Right || is_char('f') || is_char('F')) && modifiers.alt {
            self.move_cursor_forward_word();
        } else if code == KeyCode::Right && modifiers.only_meta() {
            self.move_cursor_end();
        } else if code == KeyCode::End {
            self.move_cursor_end();
        } else if code == KeyCode::Right {
            self.move_cursor_right();
        } else if (is_char('d') || code == KeyCode::Delete) && modifiers.only_alt() {
            self.delete_word_forward();
        } else if code == KeyCode::Delete {
            self.delete_char_forward();
        } else {
            match code {
                KeyCode::Char(value) => self.enter_char(value),
                _ => {},
            }
        }
    }
}


/// `b` is the text field `a` after the key, with its error cleared.
pub open spec fn text_after_key(a: TextField, b: TextField, code: KeyCode, m: KeyModifiers) -> bool {
    &&& b.wf()
    &&& b.chars() == edited_text(text_edit_for_key(code, m), a.chars(), a.cursor())
    &&& b.cursor() == edited_cursor(text_edit_for_key(code, m), a.chars(), a.cursor())
    &&& b.error_value() is None
}

/// A field that is either checked or not.
#[derive(Debug)]
pub struct CheckboxField {
    pub checked: bool,
    pub error: Option<FieldError>,
}

impl Clone for CheckboxField {
    fn clone(&self) -> (r: CheckboxField)
        ensures
            r == *self,
    {
        CheckboxField { checked: self.checked, error: self.error.clone() }
    }
}

impl CheckboxField {
    pub fn new(initial: bool) -> (r: CheckboxField)
        ensures
            r.checked == initial,
            r.error is None,
    {
        CheckboxField { checked: initial, error: None }
    }

    /// Space flips the box; every other key leaves it as it is.
    pub fn handle_keys(&mut self, code: KeyCode, _modifiers: KeyModifiers)
        ensures
            final(self).checked == (old(self).checked != (code == KeyCode::Char(' '))),
            final(self).error == old(self).error,
    {
        if code == KeyCode::Char(' ') {
            self.checked = !self.checked;
        }
    }
}

/// A field of the search form.
#[derive(Debug)]
pub enum Field {
    Text(TextField),
    Checkbox(CheckboxField),
}

impl Clone for Field {
    fn clone(&self) -> (r: Field)
        ensures
            r == *self,
    {
        match self {
            Field::Text(f) => Field::Text(f.clone()),
            Field::Checkbox(f) => Field::Checkbox(f.clone()),
        }
    }
}

impl Field {
    pub fn text(initial: &str) -> (r: Field)
        ensures
            r matches Field::Text(f) && f.wf() && f.chars() == initial@ && f.cursor() == 0
                && f.error_value() is None,
    {
        Field::Text(TextField::new(String::from_str(initial)))
    }

    pub fn checkbox(initial: bool) -> (r: Field)
        ensures
            r matches Field::Checkbox(f) && f.checked == initial && f.error is None,
    {
        Field::Checkbox(CheckboxField::new(initial))
    }

    /// Clears the field's error, then applies the key to the field.
    pub fn handle_keys(&mut self, code: KeyCode, modifiers: KeyModifiers)
        ensures
            match (*old(self), *final(self)) {
                (Field::Text(a), Field::Text(b)) => text_after_key(a, b, code, modifiers),
                (Field::Checkbox(a), Field::Checkbox(b)) => {
                    &&& b.checked == (a.checked != (code == KeyCode::Char(' ')))
                    &&& b.error == a.error
                },
                _ => false,
            },
    {
        self.clear_error();
        match self {
            Field::Text(f) => f.handle_keys(code, modifiers),
            Field::Checkbox(f) => f.handle_keys(code, modifiers),
        }
    }

    pub fn cursor_idx(&self) -> (r: Option<usize>)
        ensures
            match *self {
                Field::Text(f) => r == Some(f.cursor() as usize),
                Field::Checkbox(_) => r is None,
            },
    {
        match self {
            Field::Text(f) => Some(f.cursor_idx()),
            Field::Checkbox(_) => None,
        }
    }

    /// Removes the error of a text field; a checkbox keeps its own.
    pub fn clear_error(&mut self)
        ensures
            match (*old(self), *final(self)) {
                (Field::Text(a), Field::Text(b)) => b.wf() && b.same_text(&a) && b.error_value() is None,
                (Field::Checkbox(a), Field::Checkbox(b)) => b == a,
                _ => false,
            },
    {
        match self {
            Field::Text(f) => f.clear_error(),
            Field::Checkbox(_) => {},
        }
    }

    pub fn error(&self) -> (r: Option<FieldError>)
        ensures
            r == match *self {
                Field::Text(f) => f.error_value(),
                Field::Checkbox(f) => f.error,
            },
    {
        match self {
            Field::Text(f) => f.error(),
            Field::Checkbox(f) => f.error.clone(),
        }
    }
}

/// The text and cursor after `edits`, applied in order from text `s` with the
/// cursor at `c`.
pub open spec fn apply_edits(edits: Seq<TextEdit>, s: Seq<char>, c: int) -> (Seq<char>, int)
    decreases edits.len(),
{
    if edits.len() == 0 {
        (s, c)
    } else {
        apply_edits(
            edits.drop_first(),
            edited_text(edits[0], s, c),
            edited_cursor(edits[0], s, c),
        )
    }
}

proof fn lemma_skip_spaces_back(s: Seq<char>, i: int)
    requires
        0 <= i < s.len(),
    ensures
        0 <= skip_spaces_back(s, i) <= i,
    decreases i,
{
    if i > 0 && s[i] == ' ' {
        lemma_skip_spaces_back(s, i - 1);
    }
}

proof fn lemma_skip_word_back(s: Seq<char>, i: int)
    requires
        0 <= i <= s.len(),
    ensures
        0 <= skip_word_back(s, i) <= i,
        skip_word_back(s, i) == 0 || s[skip_word_back(s, i) - 1] == ' ',
        forall|k: int| skip_word_back(s, i) <= k < i ==> s[k] != ' ',
    decreases i,
{
    if i > 0 && s[i - 1] != ' ' {
        lemma_skip_word_back(s, i - 1);
    }
}

proof fn lemma_skip_word_forward(s: Seq<char>, i: int)
    requires
        0 <= i <= s.len(),
    ensures
        i <= skip_word_forward(s, i) <= s.len(),
        skip_word_forward(s, i) == s.len() || s[skip_word_forward(s, i)] == ' ',
        forall|k: int| i <= k < skip_word_forward(s, i) ==> s[k] != ' ',
    decreases s.len() - i,
{
    if 0 <= i < s.len() && s[i] != ' ' {
        lemma_skip_word_forward(s, i + 1);
    }
}

proof fn lemma_skip_spaces_forward(s: Seq<char>, i: int)
    requires
        0 <= i <= s.len(),
    ensures
        i <= skip_spaces_forward(s, i) <= s.len(),
        skip_spaces_forward(s, i) == s.len() || s[skip_spaces_forward(s, i)] != ' ',
        forall|k: int| i <= k < skip_spaces_forward(s, i) ==> s[k] == ' ',
    decreases s.len() - i,
{
    if 0 <= i < s.len() && s[i] == ' ' {
        lemma_skip_spaces_forward(s, i + 1);
    }
}

proof fn lemma_previous_word_start_in_range(s: Seq<char>, c: int)
    requires
        0 <= c <= s.len(),
    ensures
        0 <= previous_word_start(s, c) <= c,
{
    if c > 0 {
        lemma_skip_spaces_back(s, c - 1);
        lemma_skip_word_back(s, skip_spaces_back(s, c - 1));
    }
}

proof fn lemma_next_word_start_in_range(s: Seq<char>, c: int)
    requires
        0 <= c <= s.len(),
    ensures
        c <= next_word_start(s, c) <= s.len(),
{
    lemma_skip_word_forward(s, c);
    lemma_skip_spaces_forward(s, skip_word_forward(s, c));
}

/// Every edit leaves the cursor between the start and the end of the text.
pub proof fn lemma_edit_keeps_cursor_in_range(e: TextEdit, s: Seq<char>, c: int)
    requires
        0 <= c <= s.len(),
    ensures
        0 <= edited_cursor(e, s, c) <= edited_text(e, s, c).len(),
{
    lemma_previous_word_start_in_range(s, c);
    lemma_next_word_start_in_range(s, c);
}

/// Cursor clamp: whatever edits are applied, in whatever order, to a text with
/// its cursor in range, the cursor stays between the start and the end of the
/// text.
pub proof fn lemma_edits_keep_cursor_in_range(edits: Seq<TextEdit>, s: Seq<char>, c: int)
    requires
        0 <= c <= s.len(),
    ensures
        0 <= apply_edits(edits, s, c).1 <= apply_edits(edits, s, c).0.len(),
    decreases edits.len(),
{
    if edits.len() > 0 {
        lemma_edit_keeps_cursor_in_range(edits[0], s, c);
        lemma_edits_keep_cursor_in_range(
            edits.drop_first(),
            edited_text(edits[0], s, c),
            edited_cursor(edits[0], s, c),
        );
    }
}

/// Typing a character and then deleting it with backspace gives back the text
/// and the cursor that were there before.
pub proof fn lemma_insert_then_backspace(s: Seq<char>, c: int, ch: char)
    requires
        0 <= c <= s.len(),
    ensures
        edited_text(TextEdit::DeleteChar, edited_text(TextEdit::Insert(ch), s, c), edited_cursor(TextEdit::Insert(ch), s, c)) == s,
        edited_cursor(TextEdit::DeleteChar, edited_text(TextEdit::Insert(ch), s, c), edited_cursor(TextEdit::Insert(ch), s, c)) == c,
{
    assert(s.insert(c, ch).take(c) + s.insert(c, ch).skip(c + 1) =~= s);
}

/// A forward word motion followed by a backward one, from a cursor on a
/// non-space character, lands on the start of the word under the cursor: the
/// nearest position at or before the cursor that begins the text or follows a
/// space, with no space from there up to the cursor.
pub proof fn lemma_word_motion_round_trip(s: Seq<char>, c: int)
    requires
        0 <= c < s.len(),
        s[c] != ' ',
    ensures
        previous_word_start(s, next_word_start(s, c)) == skip_word_back(s, c),
        skip_word_back(s, c) <= c,
        skip_word_back(s, c) == 0 || s[skip_word_back(s, c) - 1] == ' ',
        forall|k: int| skip_word_back(s, c) <= k <= c ==> s[k] != ' ',
{
    let e = skip_word_forward(s, c);
    lemma_skip_word_forward(s, c);
    let n = skip_spaces_forward(s, e);
    lemma_skip_spaces_forward(s, e);
    assert(e > c);
    lemma_spaces_back_to(s, e - 1, n - 1);
    lemma_word_back_through(s, c, e - 1);
    lemma_skip_word_back(s, c);
}

proof fn lemma_spaces_back_to(s: Seq<char>, j: int, i: int)
    requires
        0 <= j <= i < s.len(),
        s[j] != ' ',
        forall|k: int| j < k <= i ==> s[k] == ' ',
    ensures
        skip_spaces_back(s, i) == j,
    decreases i - j,
{
    if i > j {
        lemma_spaces_back_to(s, j, i - 1);
    }
}

proof fn lemma_word_back_through(s: Seq<char>, c: int, i: int)
    requires
        0 <= c <= i <= s.len(),
        forall|k: int| c <= k < i ==> s[k] != ' ',
    ensures
        skip_word_back(s, i) == skip_word_back(s, c),
    decreases i - c,
{
    if i > c {
        lemma_word_back_through(s, c, i - 1);
    }
}

/// Where the forward word motion lands: the first position `e` at or after
/// the cursor that is the end or a space, then the first position at or
/// after `e` that is the end or not a space.
pub proof fn lemma_next_word_start_is_first_after_spaces(s: Seq<char>, c: int)
    requires
        0 <= c <= s.len(),
    ensures
        ({
            let e = skip_word_forward(s, c);
            let n = next_word_start(s, c);
            &&& c <= e <= n <= s.len()
            &&& e == s.len() || s[e] == ' '
            &&& forall|k: int| c <= k < e ==> s[k] != ' '
            &&& n == s.len() || s[n] != ' '
            &&& forall|k: int| e <= k < n ==> s[k] == ' '
        }),
{
    lemma_skip_word_forward(s, c);
    lemma_skip_spaces_forward(s, skip_word_forward(s, c));
}

/// At the ends of the text the word motions stay put: forward from the end and
/// backward from the start.
pub proof fn lemma_word_motion_at_ends(s: Seq<char>)
    ensures
        next_word_start(s, s.len() as int) == s.len(),
        previous_word_start(s, 0) == 0,
{
}

} // verus!
