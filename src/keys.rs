use vstd::prelude::*;

verus! {

/// A key as the terminal reports it.
#[derive(Clone, Copy, Debug, PartialEq, Eq, Structural)]
pub enum KeyCode {
    Backspace,
    Enter,
    Left,
    Right,
    Up,
    Down,
    Home,
    End,
    PageUp,
    PageDown,
    Tab,
    BackTab,
    Delete,
    Insert,
    F(u8),
    Char(char),
    Null,
    Esc,
    /// Any key that the editor does not tell apart from the others.
    Other,
}

/// The modifier keys held down with a key.
#[derive(Clone, Copy, Debug, PartialEq, Eq, Structural)]
pub struct KeyModifiers {
    pub shift: bool,
    pub control: bool,
    pub alt: bool,
    pub super_key: bool,
    pub hyper: bool,
    pub meta: bool,
}

impl KeyModifiers {
    pub open spec fn none() -> KeyModifiers {
        KeyModifiers {
            shift: false,
            control: false,
            alt: false,
            super_key: false,
            hyper: false,
            meta: false,
        }
    }

    /// No modifier held.
    pub fn empty() -> (r: KeyModifiers)
        ensures
            r == KeyModifiers::none(),
    {
        KeyModifiers {
            shift: false,
            control: false,
            alt: false,
            super_key: false,
            hyper: false,
            meta: false,
        }
    }

    /// Control alone.
    pub fn control() -> (r: KeyModifiers)
        ensures
            r == (KeyModifiers { control: true, ..KeyModifiers::none() }),
    {
        KeyModifiers { control: true, ..KeyModifiers::empty() }
    }

    /// Alt alone.
    pub fn alt() -> (r: KeyModifiers)
        ensures
            r == (KeyModifiers { alt: true, ..KeyModifiers::none() }),
    {
        KeyModifiers { alt: true, ..KeyModifiers::empty() }
    }

    /// Shift alone.
    pub fn shift() -> (r: KeyModifiers)
        ensures
            r == (KeyModifiers { shift: true, ..KeyModifiers::none() }),
    {
        KeyModifiers { shift: true, ..KeyModifiers::empty() }
    }

    /// Meta alone.
    pub fn meta() -> (r: KeyModifiers)
        ensures
            r == (KeyModifiers { meta: true, ..KeyModifiers::none() }),
    {
        KeyModifiers { meta: true, ..KeyModifiers::empty() }
    }

    pub open spec fn is_only_control(self) -> bool {
        self == (KeyModifiers { control: true, ..KeyModifiers::none() })
    }

    pub open spec fn is_only_alt(self) -> bool {
        self == (KeyModifiers { alt: true, ..KeyModifiers::none() })
    }

    pub open spec fn is_only_meta(self) -> bool {
        self == (KeyModifiers { meta: true, ..KeyModifiers::none() })
    }

    /// Exactly Control is held.
    pub fn only_control(&self) -> (r: bool)
        ensures
            r == self.is_only_control(),
    {
        self.control && !self.shift && !self.alt && !self.super_key && !self.hyper && !self.meta
    }

    /// Exactly Alt is held.
    pub fn only_alt(&self) -> (r: bool)
        ensures
            r == self.is_only_alt(),
    {
        self.alt && !self.shift && !self.control && !self.super_key && !self.hyper && !self.meta
    }

    /// Exactly Meta is held.
    pub fn only_meta(&self) -> (r: bool)
        ensures
            r == self.is_only_meta(),
    {
        self.meta && !self.shift && !self.control && !self.alt && !self.super_key && !self.hyper
    }
}

/// Whether a key went down, repeats, or went up.
#[derive(Clone, Copy, Debug, PartialEq, Eq, Structural)]
pub enum KeyEventKind {
    Press,
    Repeat,
    Release,
}

/// One key event.
#[derive(Clone, Copy, Debug, PartialEq, Eq, Structural)]
pub struct KeyEvent {
    pub code: KeyCode,
    pub modifiers: KeyModifiers,
    pub kind: KeyEventKind,
}

} // verus!
