//! A terminal note and task organizer: the editing engine for note bodies,
//! wrap-around list selection, the note file format, key classification by
//! mode and view, and the reducer that applies one message at a time.
use vstd::prelude::*;

pub mod calendar;
pub mod keys;
pub mod machine;
pub mod nav;
pub mod persist;
pub mod search;
pub mod state;
pub mod strutil;
pub mod tagset;
pub mod text;

verus! {

} // verus!
