//! The core of a terminal front-end for searching, installing, updating and
//! removing packages: the components and their key handling, the focus
//! coordinator, the dispatch of actions into backend calls and events, and
//! the record of who owns the terminal.
use vstd::prelude::*;

pub mod action;
pub mod dispatch;
pub mod event;
pub mod focus;
pub mod info;
pub mod key;
pub mod package;
pub mod search;
pub mod table;
pub mod terminal;

verus! {

} // verus!
