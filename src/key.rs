use vstd::prelude::*;

verus! {

/// The key that was pressed.
#[derive(PartialEq, Eq, Structural, Clone, Copy, Debug)]
pub enum KeyCode {
    Char(char),
    Backspace,
    Tab,
    Esc,
    /// Any other key; no component reacts to it.
    Other,
}

/// The modifier keys held down with it.
#[derive(PartialEq, Eq, Structural, Clone, Copy, Debug)]
pub enum KeyModifiers {
    Plain,
    Control,
    Shift,
    /// Any other combination of modifiers.
    Other,
}

/// One key press, as the terminal reports it.
#[derive(PartialEq, Eq, Structural, Clone, Copy, Debug)]
pub struct KeyEvent {
    pub code: KeyCode,
    pub modifiers: KeyModifiers,
}

impl KeyEvent {
    pub fn new(code: KeyCode, modifiers: KeyModifiers) -> (r: KeyEvent)
        ensures
            r.code == code,
            r.modifiers == modifiers,
    {
        KeyEvent { code, modifiers }
    }

    /// The quit key.
    pub open spec fn is_quit(self) -> bool {
        self.code == KeyCode::Esc
    }

    pub fn quits(&self) -> (r: bool)
        ensures
            r == self.is_quit(),
    {
        match self.code {
            KeyCode::Esc => true,
            _ => false,
        }
    }

    /// A control-modified navigation key, or `Tab`: the keys that move the
    /// activation from one component to another.
    pub open spec fn is_focus_key(self) -> bool {
        ||| (self.modifiers == KeyModifiers::Control && (self.code == KeyCode::Char('j')
            || self.code == KeyCode::Char('k')))
        ||| (self.modifiers != KeyModifiers::Control && self.code == KeyCode::Tab)
    }

    pub fn moves_focus(&self) -> (r: bool)
        ensures
            r == self.is_focus_key(),
    {
        match (self.modifiers, self.code) {
            (KeyModifiers::Control, KeyCode::Char(c)) => c == 'j' || c == 'k',
            (KeyModifiers::Control, _) => false,
            (_, KeyCode::Tab) => true,
            _ => false,
        }
    }
}

} // verus!
