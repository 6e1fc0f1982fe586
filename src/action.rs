use vstd::prelude::*;

use crate::focus::Focus;
use crate::package::Package;

verus! {

/// A request that a component makes in answer to a key press; nothing has
/// been done yet.
pub enum Action {
    SearchPackage(String),
    InstallPackage(String),
    UpdateInstallPackage(String),
    RemovePackage(String),
    SelectPackage(Package),
    Focus(Focus),
}

} // verus!
