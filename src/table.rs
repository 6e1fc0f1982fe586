use vstd::prelude::*;

use crate::action::Action;
use crate::event::Event;
use crate::focus::Focus;
use crate::key::{KeyCode, KeyEvent, KeyModifiers};
use crate::package::Package;

verus! {

/// The position after `i` in a list of `len` items, wrapping to the first.
pub open spec fn next_index(i: int, len: int) -> int {
    (i + 1) % len
}

/// The position before `i` in a list of `len` items, wrapping to the last.
pub open spec fn previous_index(i: int, len: int) -> int {
    (i + len - 1) % len
}

/// `i` is the first position in `packages` whose name is `name`.
pub open spec fn is_first_named(packages: Seq<Package>, i: int, name: Seq<char>) -> bool {
    &&& 0 <= i < packages.len()
    &&& packages[i].name@ == name
    &&& forall|j: int| 0 <= j < i ==> packages[j].name@ != name
}

/// No package in `packages` is named `name`.
pub open spec fn none_named(packages: Seq<Package>, name: Seq<char>) -> bool {
    forall|j: int| 0 <= j < packages.len() ==> packages[j].name@ != name
}

/// The packages with the installed flag of the first one named `name`, if
/// any, set to `installed`; every other record stays as it was.
pub open spec fn mark_first_named(packages: Seq<Package>, name: Seq<char>, installed: bool) -> Seq<
    Package,
> {
    if exists|i: int| is_first_named(packages, i, name) {
        let i = choose|i: int| is_first_named(packages, i, name);
        packages.update(i, packages[i].with_installed(installed))
    } else {
        packages
    }
}

/// The list and the cursor after one broadcast event.
pub open spec fn listing_after_event(
    packages: Seq<Package>,
    selected: Option<usize>,
    event: Event,
) -> (Seq<Package>, Option<usize>) {
    match event {
        Event::FoundPackages(list) => (
            list@,
            if list@.len() > 0 {
                Some(0usize)
            } else {
                None
            },
        ),
        Event::PackageInstalled(name) => (mark_first_named(packages, name@, true), selected),
        Event::PackageRemoved(name) => (mark_first_named(packages, name@, false), selected),
        _ => (packages, selected),
    }
}

/// The list and the cursor after a sequence of broadcast events, applied in
/// order.
pub open spec fn listing_after_events(
    packages: Seq<Package>,
    selected: Option<usize>,
    events: Seq<Event>,
) -> (Seq<Package>, Option<usize>)
    decreases events.len(),
{
    if events.len() == 0 {
        (packages, selected)
    } else {
        let prior = listing_after_events(packages, selected, events.drop_last());
        listing_after_event(prior.0, prior.1, events.last())
    }
}

/// Moving the cursor down and then up, or up and then down, brings it back
/// to where it was, at every position of every non-empty list.
pub proof fn lemma_next_previous_inverse(i: int, len: int)
    requires
        0 <= i < len,
    ensures
        0 <= next_index(i, len) < len,
        0 <= previous_index(i, len) < len,
        previous_index(next_index(i, len), len) == i,
        next_index(previous_index(i, len), len) == i,
{
    if i + 1 < len {
        vstd::arithmetic::div_mod::lemma_small_mod((i + 1) as nat, len as nat);
        vstd::arithmetic::div_mod::lemma_small_mod(i as nat, len as nat);
        assert(i + 1 + len - 1 == i + len);
        vstd::arithmetic::div_mod::lemma_mod_add_multiples_vanish(i, len);
    } else {
        vstd::arithmetic::div_mod::lemma_mod_self_0(len);
        vstd::arithmetic::div_mod::lemma_small_mod((len - 1) as nat, len as nat);
    }
    if i == 0 {
        vstd::arithmetic::div_mod::lemma_small_mod((len - 1) as nat, len as nat);
        vstd::arithmetic::div_mod::lemma_mod_self_0(len);
    } else {
        vstd::arithmetic::div_mod::lemma_mod_add_multiples_vanish(i - 1, len);
        vstd::arithmetic::div_mod::lemma_small_mod((i - 1) as nat, len as nat);
        vstd::arithmetic::div_mod::lemma_small_mod(i as nat, len as nat);
    }
}

/// On the table that holds the activation, the key that moves the cursor
/// down followed by the key that moves it up (or the other way round)
/// leaves the cursor where it was.
pub proof fn lemma_down_up_returns(table: PackagesTable, down: KeyEvent, up: KeyEvent)
    requires
        table.wf(),
        table.active,
        down.modifiers == KeyModifiers::Plain,
        down.code == KeyCode::Char('j'),
        up.modifiers == KeyModifiers::Plain,
        up.code == KeyCode::Char('k'),
    ensures
        table.with_selection(table.selection_after_key(down)).selection_after_key(up)
            == table.selected,
        table.with_selection(table.selection_after_key(up)).selection_after_key(down)
            == table.selected,
{
    if table.packages.len() > 0 {
        lemma_next_previous_inverse(table.selected.unwrap() as int, table.packages.len() as int);
    }
}

/// A copy of a list of packages.
pub fn clone_packages(packages: &Vec<Package>) -> (r: Vec<Package>)
    ensures
        r@ == packages@,
{
    let r = packages.clone();
    assert(r@ =~= packages@);
    r
}

/// The list of packages found by the last search, with a selection cursor.
pub struct PackagesTable {
    pub selected: Option<usize>,
    pub packages: Vec<Package>,
    pub active: bool,
}

impl PackagesTable {
    /// The cursor points into the list exactly when the list is not empty.
    pub open spec fn wf(&self) -> bool {
        match self.selected {
            Some(i) => i < self.packages.len(),
            None => self.packages.len() == 0,
        }
    }

    /// The same table with the cursor at `selected`.
    pub open spec fn with_selection(self, selected: Option<usize>) -> PackagesTable {
        PackagesTable { selected: selected, ..self }
    }

    /// The package under the cursor.
    pub open spec fn selected_spec(&self) -> Option<Package> {
        match self.selected {
            Some(i) => Some(self.packages@[i as int]),
            None => None,
        }
    }

    /// Where the cursor stands after `key`.
    pub open spec fn selection_after_key(&self, key: KeyEvent) -> Option<usize> {
        let len = self.packages.len() as int;
        let i = self.selected.unwrap() as int;
        if !self.active || len == 0 {
            self.selected
        } else if key.modifiers == KeyModifiers::Plain && key.code == KeyCode::Char('j') {
            Some(next_index(i, len) as usize)
        } else if key.modifiers == KeyModifiers::Plain && key.code == KeyCode::Char('k') {
            Some(previous_index(i, len) as usize)
        } else if key.modifiers == KeyModifiers::Plain && key.code == KeyCode::Char('g') {
            Some(0)
        } else if key.modifiers == KeyModifiers::Shift && key.code == KeyCode::Char('G') {
            Some((len - 1) as usize)
        } else {
            self.selected
        }
    }

    /// The actions that `key` produces, once the cursor has moved to
    /// `selected`: moving the cursor selects the package under it, and the
    /// install, remove and update keys act on that package.
    pub open spec fn actions_for_key(&self, key: KeyEvent, selected: Option<usize>) -> Seq<Action> {
        let plain = key.modifiers == KeyModifiers::Plain;
        let shift = key.modifiers == KeyModifiers::Shift;
        if !self.active || selected is None {
            Seq::empty()
        } else {
            let p = self.packages@[selected.unwrap() as int];
            if plain && (key.code == KeyCode::Char('j') || key.code == KeyCode::Char('k')) {
                seq![Action::SelectPackage(p)]
            } else if plain && key.code == KeyCode::Char('i') {
                seq![Action::InstallPackage(p.name)]
            } else if plain && key.code == KeyCode::Char('r') {
                seq![Action::RemovePackage(p.name)]
            } else if shift && key.code == KeyCode::Char('I') {
                seq![Action::UpdateInstallPackage(p.name)]
            } else {
                Seq::empty()
            }
        }
    }

    pub fn new() -> (r: PackagesTable)
        ensures
            r.wf(),
            r.selected is None,
            r.packages@.len() == 0,
            !r.active,
    {
        PackagesTable { selected: None, packages: Vec::new(), active: false }
    }

    /// Moves the cursor one down, from the last package to the first.
    fn next(&mut self)
        requires
            old(self).wf(),
        ensures
            final(self).wf(),
            final(self).packages == old(self).packages,
            final(self).active == old(self).active,
            final(self).selected == (match old(self).selected {
                Some(i) => Some(next_index(i as int, old(self).packages.len() as int) as usize),
                None => None,
            }),
    {
        if let Some(i) = self.selected {
            let len = self.packages.len();
            let n = if i >= len - 1 {
                0
            } else {
                i + 1
            };
            assert(n as int == next_index(i as int, len as int)) by {
                if i + 1 < len {
                    vstd::arithmetic::div_mod::lemma_small_mod((i + 1) as nat, len as nat);
                } else {
                    vstd::arithmetic::div_mod::lemma_mod_self_0(len as int);
                }
            }
            self.selected = Some(n);
        }
    }

    /// Moves the cursor one up, from the first package to the last.
    fn previous(&mut self)
        requires
            old(self).wf(),
        ensures
            final(self).wf(),
            final(self).packages == old(self).packages,
            final(self).active == old(self).active,
            final(self).selected == (match old(self).selected {
                Some(i) => Some(previous_index(i as int, old(self).packages.len() as int) as usize),
                None => None,
            }),
    {
        if let Some(i) = self.selected {
            let len = self.packages.len();
            let p = if i == 0 {
                len - 1
            } else {
                i - 1
            };
            assert(p as int == previous_index(i as int, len as int)) by {
                if i == 0 {
                    vstd::arithmetic::div_mod::lemma_small_mod((len - 1) as nat, len as nat);
                } else {
                    vstd::arithmetic::div_mod::lemma_mod_add_multiples_vanish(
                        (i - 1) as int,
                        len as int,
                    );
                    vstd::arithmetic::div_mod::lemma_small_mod((i - 1) as nat, len as nat);
                }
            }
            self.selected = Some(p);
        }
    }

    /// The package under the cursor, if the list is not empty.
    pub fn get_selected_package(&self) -> (r: Option<&Package>)
        requires
            self.wf(),
        ensures
            r matches Some(p) ==> self.selected_spec() == Some(*p),
            r is None ==> self.selected_spec() is None,
    {
        match self.selected {
            Some(i) => Some(&self.packages[i]),
            None => None,
        }
    }

    /// Puts the cursor on the first package, or clears it when the list is
    /// empty.
    pub fn reset(&mut self)
        ensures
            final(self).wf(),
            final(self).packages == old(self).packages,
            final(self).active == old(self).active,
            final(self).selected == (if old(self).packages.len() > 0 {
                Some(0usize)
            } else {
                None
            }),
    {
        if self.packages.len() > 0 {
            self.selected = Some(0);
        } else {
            self.selected = None;
        }
    }
    /// The first position whose package is named `name`.
    pub fn position_of(&self, name: &String) -> (r: Option<usize>)
        ensures
            r matches Some(i) ==> is_first_named(self.packages@, i as int, name@),
            r is None ==> none_named(self.packages@, name@),
    {
        let mut i: usize = 0;
        while i < self.packages.len()
            invariant
                i <= self.packages.len(),
                forall|j: int| 0 <= j < i ==> self.packages@[j].name@ != name@,
            decreases self.packages.len() - i,
        {
            if self.packages[i].name == *name {
                return Some(i);
            }
            i += 1;
        }
        None
    }

    /// Sets the installed flag of the first package named `name`.
    fn mark_installed(&mut self, name: &String, installed: bool)
        requires
            old(self).wf(),
        ensures
            final(self).wf(),
            final(self).selected == old(self).selected,
            final(self).active == old(self).active,
            final(self).packages@ == mark_first_named(old(self).packages@, name@, installed),
    {
        let pos = self.position_of(name);
        match pos {
            Some(i) => {
                let mut p = self.packages[i].clone();
                p.installed = installed;
                self.packages.set(i, p);
                proof {
                    let ps = old(self).packages@;
                    assert(is_first_named(ps, i as int, name@));
                    let c = choose|c: int| is_first_named(ps, c, name@);
                    assert(c == i as int) by {
                        if c < i {
                            assert(ps[c].name@ != name@);
                        } else if c > i {
                            assert(ps[i as int].name@ != name@);
                        }
                    }
                    assert(self.packages@ =~= mark_first_named(ps, name@, installed));
                }
            },
            None => {
                assert(!exists|c: int| is_first_named(self.packages@, c, name@));
            },
        }
    }

    /// Reacts to a key press when the table holds the activation: `j` and
    /// `k` move the cursor down and up, wrapping at both ends, and select
    /// the package under it; `g` and `G` jump to the first and the last
    /// package; `i`, `r` and `I` ask to install, remove or update and
    /// install the package under the cursor. An empty list ignores them all.
    pub fn handle_key_event(&mut self, key: &KeyEvent) -> (actions: Vec<Action>)
        requires
            old(self).wf(),
        ensures
            final(self).wf(),
            final(self).packages == old(self).packages,
            final(self).active == old(self).active,
            final(self).selected == old(self).selection_after_key(*key),
            actions@ == old(self).actions_for_key(*key, final(self).selected),
    {
        let mut actions: Vec<Action> = Vec::new();
        if !self.active || self.packages.len() == 0 {
            return actions;
        }
        match key.modifiers {
            KeyModifiers::Plain => match key.code {
                KeyCode::Char('j') => {
                    self.next();
                    if let Some(p) = self.get_selected_package() {
                        actions.push(Action::SelectPackage(p.clone()));
                    }
                },
                KeyCode::Char('k') => {
                    self.previous();
                    if let Some(p) = self.get_selected_package() {
                        actions.push(Action::SelectPackage(p.clone()));
                    }
                },
                KeyCode::Char('g') => {
                    self.selected = Some(0);
                },
                KeyCode::Char('i') => {
                    if let Some(p) = self.get_selected_package() {
                        actions.push(Action::InstallPackage(p.name.clone()));
                    }
                },
                KeyCode::Char('r') => {
                    if let Some(p) = self.get_selected_package() {
                        actions.push(Action::RemovePackage(p.name.clone()));
                    }
                },
                _ => {},
            },
            KeyModifiers::Shift => match key.code {
                KeyCode::Char('G') => {
                    self.selected = Some(self.packages.len() - 1);
                },
                KeyCode::Char('I') => {
                    if let Some(p) = self.get_selected_package() {
                        actions.push(Action::UpdateInstallPackage(p.name.clone()));
                    }
                },
                _ => {},
            },
            _ => {},
        }
        assert(actions@ =~= old(self).actions_for_key(*key, self.selected));
        actions
    }

    /// Applies a broadcast event: a search result replaces the list and
    /// puts the cursor on its first package (or clears it when the result
    /// is empty); an install or a removal sets or clears the installed flag
    /// of the first package with that name; a focus change gives the table
    /// the activation exactly when it is the target.
    pub fn update(&mut self, event: &Event)
        requires
            old(self).wf(),
        ensures
            final(self).wf(),
            match *event {
                Event::FoundPackages(list) => {
                    &&& final(self).packages@ == list@
                    &&& final(self).selected == (if list@.len() > 0 {
                        Some(0usize)
                    } else {
                        None
                    })
                    &&& final(self).active == old(self).active
                },
                Event::PackageInstalled(name) => {
                    &&& final(self).packages@ == mark_first_named(old(self).packages@, name@, true)
                    &&& final(self).selected == old(self).selected
                    &&& final(self).active == old(self).active
                },
                Event::PackageRemoved(name) => {
                    &&& final(self).packages@ == mark_first_named(old(self).packages@, name@, false)
                    &&& final(self).selected == old(self).selected
                    &&& final(self).active == old(self).active
                },
                Event::FocusChanged(f) => {
                    &&& final(self).packages == old(self).packages
                    &&& final(self).selected == old(self).selected
                    &&& final(self).active == (f == Focus::Table)
                },
                Event::PackageSelected(_) => *final(self) == *old(self),
            },
    {
        match event {
            Event::FoundPackages(list) => {
                self.packages = clone_packages(list);
                self.reset();
            },
            Event::PackageInstalled(name) => {
                self.mark_installed(name, true);
            },
            Event::PackageRemoved(name) => {
                self.mark_installed(name, false);
            },
            Event::FocusChanged(f) => {
                self.active = match f {
                    Focus::Table => true,
                    Focus::Search => false,
                };
            },
            Event::PackageSelected(_) => {},
        }
    }
}

} // verus!
