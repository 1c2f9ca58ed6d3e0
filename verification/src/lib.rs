//! Interval-tagging engine: named, colored tags over half-open byte ranges of
//! an editable text buffer, kept consistent under single-event edits.

pub mod color;
pub mod document;
pub mod interval;
pub mod persist;
pub mod ranges;
pub mod reconcile;
pub mod tags;
pub mod validator;

use vstd::prelude::*;

verus! {

} // verus!
