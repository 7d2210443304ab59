//! Text-backed form fields for identifier and calendar values: each field
//! keeps the raw text that the user edits, a baseline text for change
//! detection and the error of the last validation.

pub mod signal;
pub mod identifiers;
pub mod calendar;

use vstd::prelude::*;

verus! {

} // verus!
