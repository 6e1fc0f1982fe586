use vstd::prelude::*;

use crate::action::Action;
use crate::event::Event;
use crate::focus::{focus_after_events, focus_after_key, Focus, HomeComponent};
use crate::info::{shown_after_events, PackageInfo};
use crate::key::KeyEvent;
use crate::package::Package;
use crate::search::PackageSearch;
use crate::table::{listing_after_events, PackagesTable};

verus! {

/// A call to make to the package backend.
pub enum BackendRequest {
    Search(String),
    Install(String),
    UpdateInstall(String),
    Remove(String),
}

/// What came back from the package backend.
pub enum BackendOutcome {
    /// A search returned these packages.
    Found(Vec<Package>),
    /// An install, update or removal succeeded.
    Succeeded,
    /// The call failed.
    Failed,
}

/// How an action is resolved: into events at once, or by a call to the
/// package backend whose outcome gives the events.
pub enum Resolution {
    Done(Vec<Event>),
    Backend(BackendRequest),
}

/// The events that `outcome` of `request` gives: the packages found by a
/// search, or the installation or removal that succeeded; a failure gives
/// none, and so does an outcome of the wrong kind.
pub open spec fn events_for(request: BackendRequest, outcome: BackendOutcome) -> Seq<Event> {
    match (request, outcome) {
        (BackendRequest::Search(_), BackendOutcome::Found(list)) => seq![
            Event::FoundPackages(list),
        ],
        (BackendRequest::Install(id), BackendOutcome::Succeeded) => seq![
            Event::PackageInstalled(id),
        ],
        (BackendRequest::UpdateInstall(id), BackendOutcome::Succeeded) => seq![
            Event::PackageInstalled(id),
        ],
        (BackendRequest::Remove(id), BackendOutcome::Succeeded) => seq![Event::PackageRemoved(id)],
        _ => Seq::empty(),
    }
}

impl BackendRequest {
    /// An install, an update or a removal may prompt on the terminal, so it
    /// runs with the terminal suspended; a search does not.
    pub fn needs_terminal(&self) -> (r: bool)
        ensures
            r == !(*self is Search),
    {
        match self {
            BackendRequest::Search(_) => false,
            _ => true,
        }
    }

    /// The pacman flag that carries out an install (`-S`), an update and
    /// install (`-Syu`) or a removal (`-R`).
    pub open spec fn pacman_flag(self) -> Seq<char> {
        match self {
            BackendRequest::Install(_) => "-S"@,
            BackendRequest::UpdateInstall(_) => "-Syu"@,
            BackendRequest::Remove(_) => "-R"@,
            BackendRequest::Search(_) => Seq::empty(),
        }
    }

    /// The arguments of the privileged `pacman` command that carries out an
    /// install, an update or a removal: `pacman`, the flag, the package.
    /// A search runs no command.
    pub fn pacman_arguments(&self) -> (r: Option<Vec<String>>)
        ensures
            *self is Search <==> r is None,
            r matches Some(args) ==> {
                &&& args@.len() == 3
                &&& args@[0]@ == "pacman"@
                &&& args@[1]@ == self.pacman_flag()
                &&& args@[2] == match *self {
                    BackendRequest::Install(id) => id,
                    BackendRequest::UpdateInstall(id) => id,
                    BackendRequest::Remove(id) => id,
                    BackendRequest::Search(q) => q,
                }
            },
    {
        let (flag, id) = match self {
            BackendRequest::Search(_) => {
                return None;
            },
            BackendRequest::Install(id) => ("-S", id),
            BackendRequest::UpdateInstall(id) => ("-Syu", id),
            BackendRequest::Remove(id) => ("-R", id),
        };
        let mut args: Vec<String> = Vec::new();
        args.push("pacman".to_owned());
        args.push(flag.to_owned());
        args.push(id.clone());
        Some(args)
    }
}

fn one_event(e: Event) -> (r: Vec<Event>)
    ensures
        r@ == seq![e],
{
    let mut r: Vec<Event> = Vec::new();
    r.push(e);
    assert(r@ =~= seq![e]);
    r
}

/// The state of the dispatch loop: the focus coordinator, the components in
/// their fixed order, and whether the quit key has been seen.
pub struct App {
    pub home: HomeComponent,
    pub search: PackageSearch,
    pub table: PackagesTable,
    pub info: PackageInfo,
    pub should_exit: bool,
}

impl App {
    /// Exactly one of the input components holds the activation, and the
    /// table's cursor points into its list.
    pub open spec fn wf(&self) -> bool {
        &&& self.table.wf()
        &&& self.search.active != self.table.active
    }

    /// The component that holds the activation.
    pub open spec fn active_focus(&self) -> Focus {
        if self.search.active {
            Focus::Search
        } else {
            Focus::Table
        }
    }

    /// The search input holds the activation, and there is nothing to show.
    pub fn new() -> (r: App)
        ensures
            r.wf(),
            r.home.focus == Focus::Search,
            r.active_focus() == Focus::Search,
            r.search.text@ == Seq::<char>::empty(),
            r.table.packages@.len() == 0,
            r.table.selected is None,
            !r.should_exit,
    {
        App {
            home: HomeComponent::new(),
            search: PackageSearch::new(),
            table: PackagesTable::new(),
            info: PackageInfo::new(),
            should_exit: false,
        }
    }

    pub fn should_exit(&self) -> (r: bool)
        ensures
            r == self.should_exit,
    {
        self.should_exit
    }

    /// Turns a key press into actions. The quit key ends the loop and
    /// reaches no component. A focus key goes to the focus coordinator
    /// alone. Any other key goes to each component in order, and their
    /// actions are joined in that order.
    pub fn handle_key_event(&mut self, key: &KeyEvent) -> (actions: Vec<Action>)
        requires
            old(self).wf(),
        ensures
            final(self).wf(),
            final(self).info == old(self).info,
            final(self).search.active == old(self).search.active,
            final(self).table.active == old(self).table.active,
            final(self).table.packages == old(self).table.packages,
            key.is_quit() ==> {
                &&& final(self).should_exit
                &&& final(self).home == old(self).home
                &&& final(self).search == old(self).search
                &&& final(self).table == old(self).table
                &&& actions@.len() == 0
            },
            !key.is_quit() ==> final(self).should_exit == old(self).should_exit,
            !key.is_quit() && key.is_focus_key() ==> {
                &&& final(self).home.focus == focus_after_key(old(self).home.focus, *key)
                &&& final(self).search == old(self).search
                &&& final(self).table == old(self).table
                &&& actions@ == (if final(self).home.focus == old(self).home.focus {
                    Seq::empty()
                } else {
                    seq![Action::Focus(final(self).home.focus)]
                })
            },
            !key.is_quit() && !key.is_focus_key() ==> {
                &&& final(self).home == old(self).home
                &&& final(self).table.selected == old(self).table.selection_after_key(*key)
                &&& match old(self).search.edit_after_key(*key) {
                    Some(t) => {
                        &&& final(self).search.text@ == t
                        &&& actions@ == seq![Action::SearchPackage(final(self).search.text)]
                            + old(self).table.actions_for_key(*key, final(self).table.selected)
                    },
                    None => {
                        &&& final(self).search.text == old(self).search.text
                        &&& actions@ == old(self).table.actions_for_key(
                            *key,
                            final(self).table.selected,
                        )
                    },
                }
            },
    {
        if key.quits() {
            self.should_exit = true;
            return Vec::new();
        }
        if key.moves_focus() {
            return self.home.handle_key_event(key);
        }
        let mut actions = self.search.handle_key_event(key);
        let mut table_actions = self.table.handle_key_event(key);
        actions.append(&mut table_actions);
        actions
    }

    /// Resolves one action. A selection passes through as an event; a focus
    /// change moves the coordinator's focus and is made known as an event;
    /// a search, an install, an update or a removal becomes a call to the
    /// package backend.
    pub fn handle_action(&mut self, action: &Action) -> (r: Resolution)
        requires
            old(self).wf(),
        ensures
            final(self).wf(),
            final(self).search == old(self).search,
            final(self).table == old(self).table,
            final(self).info == old(self).info,
            final(self).should_exit == old(self).should_exit,
            match *action {
                Action::Focus(f) => final(self).home.focus == f,
                _ => final(self).home == old(self).home,
            },
            match *action {
                Action::SearchPackage(q) => r == Resolution::Backend(BackendRequest::Search(q)),
                Action::InstallPackage(id) => r == Resolution::Backend(
                    BackendRequest::Install(id),
                ),
                Action::UpdateInstallPackage(id) => r == Resolution::Backend(
                    BackendRequest::UpdateInstall(id),
                ),
                Action::RemovePackage(id) => r == Resolution::Backend(BackendRequest::Remove(id)),
                Action::SelectPackage(p) => r matches Resolution::Done(events) && events@ == seq![
                    Event::PackageSelected(p),
                ],
                Action::Focus(f) => r matches Resolution::Done(events) && events@ == seq![
                    Event::FocusChanged(f),
                ],
            },
    {
        match action {
            Action::SearchPackage(q) => Resolution::Backend(BackendRequest::Search(q.clone())),
            Action::InstallPackage(id) => Resolution::Backend(BackendRequest::Install(id.clone())),
            Action::UpdateInstallPackage(id) => Resolution::Backend(
                BackendRequest::UpdateInstall(id.clone()),
            ),
            Action::RemovePackage(id) => Resolution::Backend(BackendRequest::Remove(id.clone())),
            Action::SelectPackage(p) => Resolution::Done(one_event(Event::PackageSelected(p.clone()))),
            Action::Focus(f) => {
                let _ = self.home.set_focus(*f);
                Resolution::Done(one_event(Event::FocusChanged(*f)))
            },
        }
    }

    /// The events that the backend's outcome for `request` gives: the
    /// packages found by a search, or the package installed or removed; a
    /// failed call gives none, and the loop goes on.
    pub fn complete(request: &BackendRequest, outcome: BackendOutcome) -> (events: Vec<Event>)
        ensures
            events@ == events_for(*request, outcome),
    {
        match (request, outcome) {
            (BackendRequest::Search(_), BackendOutcome::Found(list)) => one_event(
                Event::FoundPackages(list),
            ),
            (BackendRequest::Install(id), BackendOutcome::Succeeded) => one_event(
                Event::PackageInstalled(id.clone()),
            ),
            (BackendRequest::UpdateInstall(id), BackendOutcome::Succeeded) => one_event(
                Event::PackageInstalled(id.clone()),
            ),
            (BackendRequest::Remove(id), BackendOutcome::Succeeded) => one_event(
                Event::PackageRemoved(id.clone()),
            ),
            _ => Vec::new(),
        }
    }

    /// Tells every component of every event: the events in the order in
    /// which they came, each to the components in their fixed order.
    pub fn handle_events(&mut self, events: &Vec<Event>)
        requires
            old(self).wf(),
        ensures
            final(self).wf(),
            final(self).home == old(self).home,
            final(self).should_exit == old(self).should_exit,
            final(self).search.text == old(self).search.text,
            final(self).active_focus() == focus_after_events(old(self).active_focus(), events@),
            (final(self).table.packages@, final(self).table.selected) == listing_after_events(
                old(self).table.packages@,
                old(self).table.selected,
                events@,
            ),
            final(self).info.package == shown_after_events(old(self).info.package, events@),
    {
        let mut i: usize = 0;
        while i < events.len()
            invariant
                0 <= i <= events.len(),
                self.wf(),
                self.home == old(self).home,
                self.should_exit == old(self).should_exit,
                self.search.text == old(self).search.text,
                self.active_focus() == focus_after_events(
                    old(self).active_focus(),
                    events@.subrange(0, i as int),
                ),
                (self.table.packages@, self.table.selected) == listing_after_events(
                    old(self).table.packages@,
                    old(self).table.selected,
                    events@.subrange(0, i as int),
                ),
                self.info.package == shown_after_events(
                    old(self).info.package,
                    events@.subrange(0, i as int),
                ),
            decreases events.len() - i,
        {
            let event = &events[i];
            self.search.update(event);
            self.table.update(event);
            self.info.update(event);
            proof {
                let prefix = events@.subrange(0, i + 1);
                assert(prefix.drop_last() =~= events@.subrange(0, i as int));
                assert(prefix.last() == *event);
            }
            i += 1;
        }
        assert(events@.subrange(0, i as int) =~= events@);
    }
}

} // verus!
