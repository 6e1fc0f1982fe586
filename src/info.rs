use vstd::prelude::*;

use crate::event::Event;
use crate::package::Package;

verus! {

/// The package shown after a sequence of broadcast events: the one of the
/// last selection among them, or `shown` where none selects one.
pub open spec fn shown_after_events(shown: Package, events: Seq<Event>) -> Package
    decreases events.len(),
{
    if events.len() == 0 {
        shown
    } else {
        match events.last() {
            Event::PackageSelected(p) => p,
            _ => shown_after_events(shown, events.drop_last()),
        }
    }
}

/// The detail panel: the metadata of the selected package.
pub struct PackageInfo {
    pub package: Package,
}

impl PackageInfo {
    pub fn new() -> (r: PackageInfo)
        ensures
            r.package.name@ == Seq::<char>::empty(),
            r.package.source@ == Seq::<char>::empty(),
            r.package.description@ == Seq::<char>::empty(),
            !r.package.installed,
    {
        PackageInfo { package: Package::empty() }
    }

    /// Applies a broadcast event: a selection replaces the package shown.
    pub fn update(&mut self, event: &Event)
        ensures
            final(self).package == (match *event {
                Event::PackageSelected(p) => p,
                _ => old(self).package,
            }),
    {
        if let Event::PackageSelected(p) = event {
            self.package = p.clone();
        }
    }
}

} // verus!
