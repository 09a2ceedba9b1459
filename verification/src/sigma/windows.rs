//! Window index table.
//!
//! | Index | Window        | Tier        |
//! |-------|---------------|-------------|
//! | 0     | Systems       | left panel  |
//! | 1     | Navigation    | left panel  |
//! | 2     | Compass/GPS   | left panel  |
//! | 3     | Diagnostics   | left panel  |
//! | 4     | Camera        | left panel  |
//! | 5     | Connectivity  | full-screen |
//! | 6     | Maintenance   | full-screen |
//! | 7     | Fuel          | full-screen |
//! | 8     | Security      | full-screen |
//! | 9     | Updates       | full-screen |

use vstd::prelude::*;

verus! {

/// Last index of glanceable left-panel windows (while moving).
pub const PANEL_MAX: i32 = 4;

/// Total window count.
pub const COUNT: i32 = 10;

} // verus!
