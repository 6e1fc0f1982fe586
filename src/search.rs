use vstd::prelude::*;

use crate::action::Action;
use crate::event::Event;
use crate::focus::Focus;
use crate::key::{KeyCode, KeyEvent, KeyModifiers};

verus! {

/// The last position of `c` in `s`, or -1 where `s` does not hold it.
pub open spec fn last_index_of(s: Seq<char>, c: char) -> int
    decreases s.len(),
{
    if s.len() == 0 {
        -1
    } else if s.last() == c {
        s.len() - 1
    } else {
        last_index_of(s.drop_last(), c)
    }
}

/// The text before the last space; empty where there is no space.
pub open spec fn without_last_word(s: Seq<char>) -> Seq<char> {
    let i = last_index_of(s, ' ');
    if i < 0 {
        Seq::empty()
    } else {
        s.subrange(0, i)
    }
}

/// The search text after `key`, or `None` where the key does not edit it:
/// a plain character is appended, backspace removes the last character, and
/// control-`w` removes the last word with the space before it.
pub open spec fn text_after_key(text: Seq<char>, key: KeyEvent) -> Option<Seq<char>> {
    if key.modifiers == KeyModifiers::Plain {
        match key.code {
            KeyCode::Char(c) => Some(text.push(c)),
            KeyCode::Backspace => Some(
                if text.len() > 0 {
                    text.drop_last()
                } else {
                    text
                },
            ),
            _ => None,
        }
    } else if key.modifiers == KeyModifiers::Control && key.code == KeyCode::Char('w') {
        Some(without_last_word(text))
    } else {
        None
    }
}

proof fn lemma_last_index_at(s: Seq<char>, c: char, k: int)
    requires
        -1 <= k < s.len(),
        k >= 0 ==> s[k] == c,
        forall|j: int| k < j < s.len() ==> s[j] != c,
    ensures
        last_index_of(s, c) == k,
    decreases s.len(),
{
    if s.len() > 0 && s.len() - 1 != k {
        assert(s.last() != c);
        let t = s.drop_last();
        assert forall|j: int| k < j < t.len() implies t[j] != c by {
            assert(t[j] == s[j]);
        }
        if k >= 0 {
            assert(t[k] == s[k]);
        }
        lemma_last_index_at(t, c, k);
    }
}

/// Relies on `String::push`: the character is appended to the string.
#[verifier::external_body]
fn push_char(s: &mut String, c: char)
    ensures
        final(s)@ == old(s)@.push(c),
{
    s.push(c)
}

/// The search input: the text typed so far.
pub struct PackageSearch {
    pub text: String,
    pub active: bool,
}

impl PackageSearch {
    /// The text after `key`, or `None` where the input ignores the key.
    pub open spec fn edit_after_key(&self, key: KeyEvent) -> Option<Seq<char>> {
        if self.active {
            text_after_key(self.text@, key)
        } else {
            None
        }
    }

    /// An empty input that holds the activation.
    pub fn new() -> (r: PackageSearch)
        ensures
            r.text@ == Seq::<char>::empty(),
            r.active,
    {
        PackageSearch { text: String::new(), active: true }
    }

    /// Removes the last character, if there is one.
    fn delete_char(&mut self)
        ensures
            final(self).active == old(self).active,
            final(self).text@ == (if old(self).text@.len() > 0 {
                old(self).text@.drop_last()
            } else {
                old(self).text@
            }),
    {
        let len = self.text.as_str().unicode_len();
        if len > 0 {
            self.text = self.text.as_str().substring_char(0, len - 1).to_owned();
        }
    }

    /// Removes the last word and the space before it; with no space left,
    /// the text becomes empty.
    fn delete_word(&mut self)
        ensures
            final(self).active == old(self).active,
            final(self).text@ == without_last_word(old(self).text@),
    {
        let ghost s = self.text@;
        let len = self.text.as_str().unicode_len();
        let mut i: usize = len;
        while i > 0
            invariant
                *self == *old(self),
                s == self.text@,
                len == s.len(),
                i <= len,
                forall|j: int| i <= j < len ==> s[j] != ' ',
            decreases i,
        {
            if self.text.as_str().get_char(i - 1) == ' ' {
                proof {
                    lemma_last_index_at(s, ' ', i - 1);
                }
                self.text = self.text.as_str().substring_char(0, i - 1).to_owned();
                return;
            }
            i -= 1;
        }
        proof {
            lemma_last_index_at(s, ' ', -1);
        }
        self.text = String::new();
    }

    /// Edits the text when the input holds the activation, and asks for a
    /// search of the new text after each edit.
    pub fn handle_key_event(&mut self, key: &KeyEvent) -> (actions: Vec<Action>)
        ensures
            final(self).active == old(self).active,
            match old(self).edit_after_key(*key) {
                Some(t) => {
                    &&& final(self).text@ == t
                    &&& actions@ == seq![Action::SearchPackage(final(self).text)]
                },
                None => {
                    &&& final(self).text == old(self).text
                    &&& actions@.len() == 0
                },
            },
    {
        let mut actions: Vec<Action> = Vec::new();
        if !self.active {
            return actions;
        }
        match key.modifiers {
            KeyModifiers::Plain => match key.code {
                KeyCode::Char(c) => {
                    push_char(&mut self.text, c);
                    actions.push(Action::SearchPackage(self.text.clone()));
                },
                KeyCode::Backspace => {
                    self.delete_char();
                    actions.push(Action::SearchPackage(self.text.clone()));
                },
                _ => {},
            },
            KeyModifiers::Control => match key.code {
                KeyCode::Char('w') => {
                    self.delete_word();
                    actions.push(Action::SearchPackage(self.text.clone()));
                },
                _ => {},
            },
            _ => {},
        }
        assert(actions@.len() > 0 ==> actions@ =~= seq![Action::SearchPackage(self.text)]);
        actions
    }

    /// Applies a broadcast event: a focus change gives the input the
    /// activation exactly when it is the target; other events leave it as
    /// it is.
    pub fn update(&mut self, event: &Event)
        ensures
            final(self).text == old(self).text,
            final(self).active == (match *event {
                Event::FocusChanged(f) => f == Focus::Search,
                _ => old(self).active,
            }),
    {
        if let Event::FocusChanged(f) = event {
            self.active = match f {
                Focus::Search => true,
                Focus::Table => false,
            };
        }
    }
}

impl Default for PackageSearch {
    fn default() -> (r: PackageSearch)
        ensures
            r.text@ == Seq::<char>::empty(),
            r.active,
    {
        PackageSearch::new()
    }
}

} // verus!
