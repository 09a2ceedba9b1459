//! Riding-mode camera panel: front/rear feed selection.

use vstd::prelude::*;

use crate::ui::Dashboard;

verus! {

/// Window index for the camera view.
pub const WINDOW: i32 = 4;

/// Toggle the camera feed between front and rear.
pub fn toggle_feed(ui: &mut Dashboard)
    ensures
        final(ui).camera_front == !old(ui).camera_front,
        final(ui).current_window == old(ui).current_window,
        final(ui).conn == old(ui).conn,
        final(ui).updates == old(ui).updates,
        final(ui).speed == old(ui).speed,
{
    ui.camera_front = !ui.camera_front;
}

} // verus!
