use vstd::prelude::*;

use crate::action::Action;
use crate::event::Event;
use crate::key::{KeyCode, KeyEvent, KeyModifiers};

verus! {

/// The input-capable components, exactly one of which receives
/// character and navigation keys at any time.
#[derive(PartialEq, Eq, Structural, Clone, Copy, Debug)]
pub enum Focus {
    Search,
    Table,
}

impl Focus {
    /// The other component.
    pub open spec fn toggled(self) -> Focus {
        match self {
            Focus::Search => Focus::Table,
            Focus::Table => Focus::Search,
        }
    }

    /// The focus target that a control-modified navigation key names:
    /// `j` moves down to the table, `k` up to the search input.
    pub fn from(value: char) -> (r: Focus)
        requires
            value == 'j' || value == 'k',
        ensures
            value == 'j' ==> r == Focus::Table,
            value == 'k' ==> r == Focus::Search,
    {
        if value == 'j' {
            Focus::Table
        } else {
            Focus::Search
        }
    }
}

/// Where the activation goes on `key`: control-`j` to the table,
/// control-`k` to the search input, `Tab` to the other component; any
/// other key leaves it where it is.
pub open spec fn focus_after_key(focus: Focus, key: KeyEvent) -> Focus {
    if key.modifiers == KeyModifiers::Control {
        if key.code == KeyCode::Char('j') {
            Focus::Table
        } else if key.code == KeyCode::Char('k') {
            Focus::Search
        } else {
            focus
        }
    } else if key.code == KeyCode::Tab {
        focus.toggled()
    } else {
        focus
    }
}

/// The component that holds the activation after a sequence of broadcast
/// events: the target of the last focus change among them, or `focus` where
/// there is none.
pub open spec fn focus_after_events(focus: Focus, events: Seq<Event>) -> Focus
    decreases events.len(),
{
    if events.len() == 0 {
        focus
    } else {
        match events.last() {
            Event::FocusChanged(f) => f,
            _ => focus_after_events(focus, events.drop_last()),
        }
    }
}

/// Toggling the activation twice gives it back to the component that held
/// it, and one toggle always moves it.
pub proof fn lemma_toggle_twice(focus: Focus, key: KeyEvent)
    requires
        key.modifiers != KeyModifiers::Control,
        key.code == KeyCode::Tab,
    ensures
        focus_after_key(focus, key) != focus,
        focus_after_key(focus_after_key(focus, key), key) == focus,
{
}

/// The focus after `n` toggles from `focus`.
pub open spec fn toggled_times(focus: Focus, n: nat) -> Focus
    decreases n,
{
    if n == 0 {
        focus
    } else {
        toggled_times(focus, (n - 1) as nat).toggled()
    }
}

/// After any number of toggles exactly one component holds the activation:
/// the one that started with it after an even number, the other after an
/// odd number.
pub proof fn lemma_toggles_parity(focus: Focus, n: nat)
    ensures
        toggled_times(focus, n) == (if n % 2 == 0 {
            focus
        } else {
            focus.toggled()
        }),
    decreases n,
{
    if n > 0 {
        lemma_toggles_parity(focus, (n - 1) as nat);
    }
}

/// Decides which component holds the activation.
pub struct HomeComponent {
    pub focus: Focus,
}

impl HomeComponent {
    /// The search input starts with the activation.
    pub fn new() -> (r: HomeComponent)
        ensures
            r.focus == Focus::Search,
    {
        HomeComponent { focus: Focus::Search }
    }

    /// Moves the activation to `item`, and asks for the change to be made
    /// known where it is a change.
    pub fn set_focus(&mut self, item: Focus) -> (r: Option<Action>)
        ensures
            final(self).focus == item,
            r == (if old(self).focus == item {
                None
            } else {
                Some(Action::Focus(item))
            }),
    {
        if self.focus == item {
            return None;
        }
        self.focus = item;
        Some(Action::Focus(item))
    }

    /// Moves the activation to the other component.
    pub fn toggle_focus(&mut self) -> (r: Action)
        ensures
            final(self).focus == old(self).focus.toggled(),
            r == Action::Focus(final(self).focus),
    {
        let target = match self.focus {
            Focus::Search => Focus::Table,
            Focus::Table => Focus::Search,
        };
        self.focus = target;
        Action::Focus(target)
    }

    /// Moves the activation on a focus key, and asks for the change to be
    /// made known where the activation moved.
    pub fn handle_key_event(&mut self, key: &KeyEvent) -> (actions: Vec<Action>)
        ensures
            final(self).focus == focus_after_key(old(self).focus, *key),
            actions@ == (if final(self).focus == old(self).focus {
                Seq::empty()
            } else {
                seq![Action::Focus(final(self).focus)]
            }),
    {
        let mut actions: Vec<Action> = Vec::new();
        match (key.modifiers, key.code) {
            (KeyModifiers::Control, KeyCode::Char(c)) => {
                if c == 'j' || c == 'k' {
                    if let Some(a) = self.set_focus(Focus::from(c)) {
                        actions.push(a);
                    }
                }
            },
            (KeyModifiers::Control, _) => {},
            (_, KeyCode::Tab) => {
                let a = self.toggle_focus();
                actions.push(a);
            },
            _ => {},
        }
        assert(actions@ =~= (if self.focus == old(self).focus {
            Seq::empty()
        } else {
            seq![Action::Focus(self.focus)]
        }));
        actions
    }
}

impl Default for HomeComponent {
    fn default() -> (r: HomeComponent)
        ensures
            r.focus == Focus::Search,
    {
        HomeComponent::new()
    }
}

} // verus!
