//! The dashboard's bound properties, as the cluster logic reads and writes them.

use vstd::prelude::*;

use crate::sigma::connectivity::{ConnItem, ConnItemView};

verus! {

/// Properties of the Connectivity window.
pub struct ConnProps {
    pub screen: i32,
    pub busy: bool,
    pub bt_powered: bool,
    pub bt_connected: bool,
    pub bt_device: String,
    pub bt_battery: i32,
    pub wifi_powered: bool,
    pub wifi_connected: bool,
    pub wifi_ssid: String,
    pub status: String,
    pub items: Vec<ConnItem>,
}

/// Mathematical view of [`ConnProps`].
pub struct ConnPropsView {
    pub screen: i32,
    pub busy: bool,
    pub bt_powered: bool,
    pub bt_connected: bool,
    pub bt_device: Seq<char>,
    pub bt_battery: i32,
    pub wifi_powered: bool,
    pub wifi_connected: bool,
    pub wifi_ssid: Seq<char>,
    pub status: Seq<char>,
    pub items: Seq<ConnItemView>,
}

impl View for ConnProps {
    type V = ConnPropsView;

    open spec fn view(&self) -> ConnPropsView {
        ConnPropsView {
            screen: self.screen,
            busy: self.busy,
            bt_powered: self.bt_powered,
            bt_connected: self.bt_connected,
            bt_device: self.bt_device@,
            bt_battery: self.bt_battery,
            wifi_powered: self.wifi_powered,
            wifi_connected: self.wifi_connected,
            wifi_ssid: self.wifi_ssid@,
            status: self.status@,
            items: self.items@.map_values(|it: ConnItem| it@),
        }
    }
}

/// Properties of the Updates window.
pub struct UpdateProps {
    pub channel: String,
    pub current_version: String,
    pub available: bool,
    pub available_version: String,
    pub notes: String,
    pub busy: bool,
    pub status: String,
    pub focus: i32,
}

/// The speed value and its three digit cells.
pub struct SpeedProps {
    pub speed: i32,
    pub hundreds: String,
    pub tens: String,
    pub ones: String,
}

/// The dashboard surface: every property the cluster logic sets or reads.
pub struct Dashboard {
    pub current_window: i32,
    pub camera_front: bool,
    pub conn: ConnProps,
    pub updates: UpdateProps,
    pub speed: SpeedProps,
}

impl Dashboard {
    /// A freshly created dashboard: every number zero, every flag off, every text empty.
    pub fn new() -> (ui: Dashboard)
        ensures
            ui.current_window == 0,
            !ui.camera_front,
            ui.conn@ == (ConnPropsView {
                screen: 0,
                busy: false,
                bt_powered: false,
                bt_connected: false,
                bt_device: Seq::empty(),
                bt_battery: 0,
                wifi_powered: false,
                wifi_connected: false,
                wifi_ssid: Seq::empty(),
                status: Seq::empty(),
                items: Seq::empty(),
            }),
            ui.updates.channel@ == Seq::<char>::empty(),
            ui.updates.current_version@ == Seq::<char>::empty(),
            !ui.updates.available,
            ui.updates.available_version@ == Seq::<char>::empty(),
            ui.updates.notes@ == Seq::<char>::empty(),
            !ui.updates.busy,
            ui.updates.status@ == Seq::<char>::empty(),
            ui.updates.focus == 0,
            ui.speed.speed == 0,
            ui.speed.hundreds@ == Seq::<char>::empty(),
            ui.speed.tens@ == Seq::<char>::empty(),
            ui.speed.ones@ == Seq::<char>::empty(),
    {
        let items: Vec<ConnItem> = Vec::new();
        let ui = Dashboard {
            current_window: 0,
            camera_front: false,
            conn: ConnProps {
                screen: 0,
                busy: false,
                bt_powered: false,
                bt_connected: false,
                bt_device: String::new(),
                bt_battery: 0,
                wifi_powered: false,
                wifi_connected: false,
                wifi_ssid: String::new(),
                status: String::new(),
                items,
            },
            updates: UpdateProps {
                channel: String::new(),
                current_version: String::new(),
                available: false,
                available_version: String::new(),
                notes: String::new(),
                busy: false,
                status: String::new(),
                focus: 0,
            },
            speed: SpeedProps {
                speed: 0,
                hundreds: String::new(),
                tens: String::new(),
                ones: String::new(),
            },
        };
        assert(ui.conn@.items =~= Seq::<ConnItemView>::empty());
        ui
    }
}

} // verus!
