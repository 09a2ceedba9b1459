//! Physical HMI buttons on the Wingman cluster face.
//!
//! ```text
//!   LEFT                    RIGHT
//!   ┌─────────┐             ┌─────────┐
//!   │ Previous│             │  Back   │
//!   ├─────────┤             ├─────────┤
//!   │  Next   │             │ Select  │
//!   └─────────┘             └─────────┘
//! ```
//!
//! On Connectivity / Updates, Previous/Next move the focus highlight (leaving
//! at the first/last row continues to the adjacent window). Select activates;
//! Back leaves a list or returns to Systems.

use vstd::prelude::*;

verus! {

/// Left column, upper button: previous window / item.
pub const PREV: &'static str = "previous";
/// Left column, lower button: next window / item.
pub const NEXT: &'static str = "next";
/// Right column, upper button: back / exit to ride (Systems).
pub const BACK: &'static str = "back";
/// Right column, lower button: select / confirm.
pub const SELECT: &'static str = "select";

} // verus!
