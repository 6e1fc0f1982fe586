use vstd::prelude::*;

use crate::focus::Focus;
use crate::package::Package;

verus! {

/// What came of an action; every component is told of each one.
pub enum Event {
    FoundPackages(Vec<Package>),
    PackageSelected(Package),
    PackageInstalled(String),
    PackageRemoved(String),
    FocusChanged(Focus),
}

} // verus!
