//! Desktop / testbed Connectivity simulator (no BlueZ / connman required),
//! and the testbed's window navigation.

use vstd::prelude::*;

use crate::sigma::camera;
use crate::sigma::connectivity::{
    self, clamp_int, conn_props, Action, BackResult, Controller, DeviceRow, DeviceRowView, Menu,
    NetworkRow, NetworkRowView, Screen, Snapshot, SnapshotView, WINDOW as CONN_WINDOW,
};
use crate::sigma::updates::{
    self as updates_nav, focus_moved, focused_request, UpdatesRequest, WINDOW as UPDATES_WINDOW,
};
use crate::sigma::windows;
use crate::text::same_text;
use crate::ui::{Dashboard, UpdateProps};

verus! {

/// `on` or `off`.
pub open spec fn on_off(on: bool) -> Seq<char> {
    if on {
        "on"@
    } else {
        "off"@
    }
}

/// A device row after another device took the connection.
pub open spec fn released_device(d: DeviceRowView) -> DeviceRowView {
    if d.connected {
        DeviceRowView {
            connected: false,
            badge: if d.paired {
                "PAIRED"@
            } else {
                "AVAIL"@
            },
            ..d
        }
    } else {
        d
    }
}

/// A network row after another network took the connection.
pub open spec fn released_network(n: NetworkRowView) -> NetworkRowView {
    if n.connected {
        NetworkRowView {
            connected: false,
            badge: if n.favorite {
                "SAVED"@
            } else {
                n.badge
            },
            ..n
        }
    } else {
        n
    }
}

/// What a simulated radio action does to the snapshot.
pub open spec fn sim_effect(action: Action, s: SnapshotView) -> SnapshotView {
    match action {
        Action::ToggleBt => {
            let on = !s.bt_powered;
            SnapshotView {
                bt_powered: on,
                bt_connected: if on {
                    s.bt_connected
                } else {
                    false
                },
                status: "Bluetooth "@ + on_off(on),
                ..s
            }
        },
        Action::ToggleWifi => {
            let on = !s.wifi_powered;
            SnapshotView {
                wifi_powered: on,
                wifi_connected: if on {
                    s.wifi_connected
                } else {
                    false
                },
                wifi_ssid: if on {
                    s.wifi_ssid
                } else {
                    Seq::empty()
                },
                status: "Wi-Fi "@ + on_off(on),
                ..s
            }
        },
        Action::OpenBtList | Action::BtScan => SnapshotView {
            status: "Scan complete (simulated)"@,
            ..s
        },
        Action::OpenWifiList | Action::WifiScan => SnapshotView {
            status: "Wi-Fi scan complete (simulated)"@,
            ..s
        },
        Action::SelectDevice(i) => {
            if i >= s.devices.len() {
                s
            } else if s.devices[i as int].connected {
                let d = s.devices[i as int];
                SnapshotView {
                    devices: s.devices.update(
                        i as int,
                        DeviceRowView {
                            connected: false,
                            badge: if d.paired {
                                "PAIRED"@
                            } else {
                                "AVAIL"@
                            },
                            ..d
                        },
                    ),
                    bt_connected: false,
                    status: "Disconnected "@ + d.title,
                    ..s
                }
            } else {
                let d = s.devices[i as int];
                SnapshotView {
                    devices: Seq::new(
                        s.devices.len(),
                        |k: int|
                            if k == i {
                                DeviceRowView {
                                    connected: true,
                                    paired: true,
                                    badge: "CONNECTED"@,
                                    ..d
                                }
                            } else {
                                released_device(s.devices[k])
                            },
                    ),
                    bt_connected: true,
                    bt_powered: true,
                    bt_device: d.title,
                    bt_battery: 78,
                    status: "Connected "@ + d.title,
                    ..s
                }
            }
        },
        Action::SelectNetwork(i) => {
            if i >= s.networks.len() {
                s
            } else {
                let n = s.networks[i as int];
                if n.badge == "SECURE"@ && !n.favorite {
                    SnapshotView {
                        status: "Password required — provision with connmanctl first"@,
                        ..s
                    }
                } else if n.connected {
                    SnapshotView {
                        networks: s.networks.update(
                            i as int,
                            NetworkRowView {
                                connected: false,
                                badge: if n.favorite {
                                    "SAVED"@
                                } else {
                                    "OPEN"@
                                },
                                ..n
                            },
                        ),
                        wifi_connected: false,
                        wifi_ssid: Seq::empty(),
                        status: "Disconnected "@ + n.title,
                        ..s
                    }
                } else {
                    SnapshotView {
                        networks: Seq::new(
                            s.networks.len(),
                            |k: int|
                                if k == i {
                                    NetworkRowView { connected: true, badge: "ONLINE"@, ..n }
                                } else {
                                    released_network(s.networks[k])
                                },
                        ),
                        wifi_powered: true,
                        wifi_connected: true,
                        wifi_ssid: n.title,
                        status: "Connected "@ + n.title,
                        ..s
                    }
                }
            }
        },
    }
}

/// The simulated radios the testbed starts with.
pub open spec fn sim_snapshot_view() -> SnapshotView {
    SnapshotView {
        bt_powered: true,
        bt_connected: true,
        bt_device: "Cardo Packtalk"@,
        bt_battery: 78,
        wifi_powered: false,
        wifi_connected: false,
        wifi_ssid: Seq::empty(),
        devices: seq![
            DeviceRowView {
                path: "sim/cardo"@,
                title: "Cardo Packtalk"@,
                detail: "AA:BB:CC:DD:EE:01"@,
                badge: "CONNECTED"@,
                connected: true,
                paired: true,
            },
            DeviceRowView {
                path: "sim/sena"@,
                title: "Sena 50S"@,
                detail: "AA:BB:CC:DD:EE:02"@,
                badge: "PAIRED"@,
                connected: false,
                paired: true,
            },
        ],
        networks: seq![
            NetworkRowView {
                path: "sim/home"@,
                title: "Garage-AP"@,
                detail: "****  idle"@,
                badge: "SAVED"@,
                connected: false,
                favorite: true,
            },
            NetworkRowView {
                path: "sim/open"@,
                title: "TrackDay-Guest"@,
                detail: "***  idle"@,
                badge: "OPEN"@,
                connected: false,
                favorite: false,
            },
            NetworkRowView {
                path: "sim/secure"@,
                title: "CafeWifi"@,
                detail: "**  idle"@,
                badge: "SECURE"@,
                connected: false,
                favorite: false,
            },
        ],
        status: "Simulated radios (testbed)"@,
        busy: false,
        available: true,
    }
}

fn device(
    path: &str,
    title: &str,
    detail: &str,
    badge: &str,
    connected: bool,
    paired: bool,
) -> (d: DeviceRow)
    ensures
        d@ == (DeviceRowView {
            path: path@,
            title: title@,
            detail: detail@,
            badge: badge@,
            connected,
            paired,
        }),
{
    DeviceRow {
        path: String::from_str(path),
        title: String::from_str(title),
        detail: String::from_str(detail),
        badge: String::from_str(badge),
        connected,
        paired,
    }
}

fn network(
    path: &str,
    title: &str,
    detail: &str,
    badge: &str,
    connected: bool,
    favorite: bool,
) -> (n: NetworkRow)
    ensures
        n@ == (NetworkRowView {
            path: path@,
            title: title@,
            detail: detail@,
            badge: badge@,
            connected,
            favorite,
        }),
{
    NetworkRow {
        path: String::from_str(path),
        title: String::from_str(title),
        detail: String::from_str(detail),
        badge: String::from_str(badge),
        connected,
        favorite,
    }
}

pub fn sim_snapshot() -> (snap: Snapshot)
    ensures
        snap@ == sim_snapshot_view(),
{
    let mut devices: Vec<DeviceRow> = Vec::new();
    devices.push(
        device("sim/cardo", "Cardo Packtalk", "AA:BB:CC:DD:EE:01", "CONNECTED", true, true),
    );
    devices.push(device("sim/sena", "Sena 50S", "AA:BB:CC:DD:EE:02", "PAIRED", false, true));
    let mut networks: Vec<NetworkRow> = Vec::new();
    networks.push(network("sim/home", "Garage-AP", "****  idle", "SAVED", false, true));
    networks.push(network("sim/open", "TrackDay-Guest", "***  idle", "OPEN", false, false));
    networks.push(network("sim/secure", "CafeWifi", "**  idle", "SECURE", false, false));
    let snap = Snapshot {
        bt_powered: true,
        bt_connected: true,
        bt_device: String::from_str("Cardo Packtalk"),
        bt_battery: 78,
        wifi_powered: false,
        wifi_connected: false,
        wifi_ssid: String::new(),
        devices,
        networks,
        status: String::from_str("Simulated radios (testbed)"),
        busy: false,
        available: true,
    };
    assert(snap@.devices =~= sim_snapshot_view().devices);
    assert(snap@.networks =~= sim_snapshot_view().networks);
    snap
}

/// `PAIRED` or `AVAIL`.
fn paired_badge(paired: bool) -> (r: String)
    ensures
        r@ == (if paired {
            "PAIRED"@
        } else {
            "AVAIL"@
        }),
{
    if paired {
        String::from_str("PAIRED")
    } else {
        String::from_str("AVAIL")
    }
}

fn select_device(i: usize, snap: &mut Snapshot)
    ensures
        final(snap)@ == sim_effect(Action::SelectDevice(i), old(snap)@),
{
    let ghost s = snap@;
    let n = snap.devices.len();
    if i >= n {
        return;
    }
    if snap.devices[i].connected {
        let mut dev = snap.devices[i].clone();
        let title = dev.title.clone();
        dev.connected = false;
        dev.badge = paired_badge(dev.paired);
        snap.devices.set(i, dev);
        snap.bt_connected = false;
        snap.status = String::from_str("Disconnected ").concat(title.as_str());
        assert(snap@.devices =~= sim_effect(Action::SelectDevice(i), s).devices);
        return;
    }
    let mut devs: Vec<DeviceRow> = Vec::new();
    let mut k: usize = 0;
    while k < n
        invariant
            n == snap.devices@.len(),
            s.devices.len() == n,
            i < n,
            !s.devices[i as int].connected,
            snap@ == s,
            k <= n,
            devs@.len() == k,
            forall|j: int| 0 <= j < k ==> #[trigger] devs@[j]@ == released_device(s.devices[j]),
        decreases n - k,
    {
        let mut d = snap.devices[k].clone();
        if d.connected {
            d.connected = false;
            d.badge = paired_badge(d.paired);
        }
        devs.push(d);
        k = k + 1;
    }
    let ghost rel = devs@;
    assert(rel[i as int]@ == s.devices[i as int]);
    snap.devices = devs;
    let mut dev = snap.devices[i].clone();
    let title = dev.title.clone();
    dev.connected = true;
    dev.paired = true;
    dev.badge = String::from_str("CONNECTED");
    snap.devices.set(i, dev);
    snap.bt_connected = true;
    snap.bt_powered = true;
    snap.bt_device = title.clone();
    snap.bt_battery = 78;
    snap.status = String::from_str("Connected ").concat(title.as_str());
    assert forall|j: int| 0 <= j < n implies #[trigger] snap@.devices[j] == sim_effect(
        Action::SelectDevice(i),
        s,
    ).devices[j] by {
        assert(rel[j]@ == released_device(s.devices[j]));
        if j != i {
            assert(snap.devices@[j] == rel[j]);
        }
    }
    assert(snap@.devices =~= sim_effect(Action::SelectDevice(i), s).devices);
}

fn select_network(i: usize, snap: &mut Snapshot)
    ensures
        final(snap)@ == sim_effect(Action::SelectNetwork(i), old(snap)@),
{
    let ghost s = snap@;
    let n = snap.networks.len();
    if i >= n {
        return;
    }
    let secure = same_text(snap.networks[i].badge.as_str(), "SECURE");
    if secure && !snap.networks[i].favorite {
        snap.status = String::from_str("Password required — provision with connmanctl first");
        return;
    }
    if snap.networks[i].connected {
        let mut net = snap.networks[i].clone();
        let title = net.title.clone();
        net.connected = false;
        net.badge = if net.favorite {
            String::from_str("SAVED")
        } else {
            String::from_str("OPEN")
        };
        snap.networks.set(i, net);
        snap.wifi_connected = false;
        snap.wifi_ssid = String::new();
        snap.status = String::from_str("Disconnected ").concat(title.as_str());
        assert(snap@.networks =~= sim_effect(Action::SelectNetwork(i), s).networks);
        return;
    }
    let title = snap.networks[i].title.clone();
    let mut nets: Vec<NetworkRow> = Vec::new();
    let mut k: usize = 0;
    while k < n
        invariant
            n == snap.networks@.len(),
            s.networks.len() == n,
            i < n,
            !s.networks[i as int].connected,
            snap@ == s,
            k <= n,
            nets@.len() == k,
            forall|j: int| 0 <= j < k ==> #[trigger] nets@[j]@ == released_network(s.networks[j]),
        decreases n - k,
    {
        let mut net = snap.networks[k].clone();
        if net.connected {
            net.connected = false;
            if net.favorite {
                net.badge = String::from_str("SAVED");
            }
        }
        nets.push(net);
        k = k + 1;
    }
    let ghost rel = nets@;
    snap.networks = nets;
    let mut net = snap.networks[i].clone();
    net.connected = true;
    net.badge = String::from_str("ONLINE");
    snap.networks.set(i, net);
    snap.wifi_powered = true;
    snap.wifi_connected = true;
    snap.wifi_ssid = title.clone();
    snap.status = String::from_str("Connected ").concat(title.as_str());
    assert forall|j: int| 0 <= j < n implies #[trigger] snap@.networks[j] == sim_effect(
        Action::SelectNetwork(i),
        s,
    ).networks[j] by {
        assert(rel[j]@ == released_network(s.networks[j]));
        if j != i {
            assert(snap.networks@[j] == rel[j]);
        }
    }
    assert(snap@.networks =~= sim_effect(Action::SelectNetwork(i), s).networks);
}

pub fn run_sim_action(action: Action, snap: &mut Snapshot)
    ensures
        final(snap)@ == sim_effect(action, old(snap)@),
{
    match action {
        Action::ToggleBt => {
            snap.bt_powered = !snap.bt_powered;
            if !snap.bt_powered {
                snap.bt_connected = false;
            }
            let word = if snap.bt_powered {
                "on"
            } else {
                "off"
            };
            snap.status = String::from_str("Bluetooth ").concat(word);
        },
        Action::ToggleWifi => {
            snap.wifi_powered = !snap.wifi_powered;
            if !snap.wifi_powered {
                snap.wifi_connected = false;
                snap.wifi_ssid = String::new();
            }
            let word = if snap.wifi_powered {
                "on"
            } else {
                "off"
            };
            snap.status = String::from_str("Wi-Fi ").concat(word);
        },
        Action::OpenBtList | Action::BtScan => {
            snap.status = String::from_str("Scan complete (simulated)");
        },
        Action::OpenWifiList | Action::WifiScan => {
            snap.status = String::from_str("Wi-Fi scan complete (simulated)");
        },
        Action::SelectDevice(i) => select_device(i, snap),
        Action::SelectNetwork(i) => select_network(i, snap),
    }
}

/// The menu on the main screen with the first row focused.
pub open spec fn home_menu() -> Menu {
    Menu { screen: Screen::Main, focus: 0 }
}

/// The highest window Previous/Next may reach: any window when stopped, only
/// the glanceable left-panel windows while moving.
pub open spec fn nav_limit(stopped: bool) -> int {
    if stopped {
        windows::COUNT - 1
    } else {
        windows::PANEL_MAX as int
    }
}

/// The window Previous/Next reaches from an ordinary window: every window in
/// a ring when stopped; while moving, only the left-panel windows in a ring.
pub open spec fn ring_step(cur: i32, stopped: bool, delta: i32) -> int {
    if stopped {
        (cur + delta) % (windows::COUNT as int)
    } else {
        (clamp_int(cur as int, 0, windows::PANEL_MAX as int) + delta) % (windows::PANEL_MAX + 1)
    }
}

/// The Updates properties with the focus back on Check.
pub open spec fn focus_reset(u: UpdateProps) -> UpdateProps {
    UpdateProps { focus: updates_nav::FOCUS_CHECK, ..u }
}

/// What one Previous (`delta` = -1) or Next (`delta` = 1) press does to the
/// navigation state and the dashboard.
pub open spec fn step_post(
    nav: NavState,
    ui: Dashboard,
    nav2: NavState,
    ui2: Dashboard,
    stopped: bool,
    delta: i32,
) -> bool {
    let cur = nav.window;
    let snap = nav.ctrl.snap;
    &&& nav2.ctrl.snap == snap
    &&& ui2.camera_front == ui.camera_front
    &&& ui2.speed == ui.speed
    &&& if cur == CONN_WINDOW {
        let (leave, menu) = nav.ctrl.menu.moved(snap@, delta);
        match leave {
            Some(l) => {
                let next = clamp_int(CONN_WINDOW + l, 0, nav_limit(stopped));
                &&& nav2.window == next
                &&& ui2.current_window == next
                &&& nav2.ctrl.menu == home_menu()
                &&& ui2.conn == ui.conn
                &&& ui2.updates == if next == UPDATES_WINDOW {
                    focus_reset(ui.updates)
                } else {
                    ui.updates
                }
            },
            None => {
                &&& nav2.window == cur
                &&& ui2.current_window == ui.current_window
                &&& nav2.ctrl.menu == menu
                &&& ui2.conn@ == conn_props(menu, snap@)
                &&& ui2.updates == ui.updates
            },
        }
    } else if cur == UPDATES_WINDOW {
        let (leave, focus) = focus_moved(ui.updates.focus, delta);
        match leave {
            Some(l) => {
                let next = clamp_int(UPDATES_WINDOW + l, 0, nav_limit(stopped));
                &&& nav2.window == next
                &&& ui2.current_window == next
                &&& ui2.updates == focus_reset(ui.updates)
                &&& if next == CONN_WINDOW {
                    &&& nav2.ctrl.menu == home_menu()
                    &&& ui2.conn@ == conn_props(home_menu(), snap@)
                } else {
                    &&& nav2.ctrl.menu == nav.ctrl.menu
                    &&& ui2.conn == ui.conn
                }
            },
            None => {
                &&& nav2.window == cur
                &&& ui2.current_window == ui.current_window
                &&& nav2.ctrl.menu == nav.ctrl.menu
                &&& ui2.conn == ui.conn
                &&& ui2.updates == (UpdateProps { focus, ..ui.updates })
            },
        }
    } else {
        let next = ring_step(cur, stopped, delta);
        &&& nav2.window == next
        &&& ui2.current_window == next
        &&& ui2.updates == if next == UPDATES_WINDOW {
            focus_reset(ui.updates)
        } else {
            ui.updates
        }
        &&& if next == CONN_WINDOW {
            &&& nav2.ctrl.menu == home_menu()
            &&& ui2.conn@ == conn_props(home_menu(), snap@)
        } else {
            &&& nav2.ctrl.menu == nav.ctrl.menu
            &&& ui2.conn == ui.conn
        }
    }
}

/// Shared nav + connectivity state for the testbed harness.
pub struct NavState {
    pub window: i32,
    pub ctrl: Controller,
}

impl NavState {
    /// The window is one of the dashboard's windows, and the focus and list
    /// sizes fit the dashboard's 32-bit row numbers.
    pub open spec fn wf(self) -> bool {
        &&& 0 <= self.window < windows::COUNT
        &&& self.ctrl.menu.focus < i32::MAX
        &&& self.ctrl.snap.devices@.len() < i32::MAX
        &&& self.ctrl.snap.networks@.len() < i32::MAX
    }

    pub fn paint(&self, ui: &mut Dashboard)
        ensures
            final(ui).conn@ == conn_props(self.ctrl.menu, self.ctrl.snap@),
            final(ui).current_window == self.window,
            final(ui).camera_front == old(ui).camera_front,
            final(ui).updates == old(ui).updates,
            final(ui).speed == old(ui).speed,
    {
        self.ctrl.paint(ui);
        ui.current_window = self.window;
    }

    pub fn nav_next(&mut self, ui: &mut Dashboard, stopped: bool)
        requires
            old(self).wf(),
        ensures
            final(self).wf(),
            step_post(*old(self), *old(ui), *final(self), *final(ui), stopped, 1),
    {
        self.step(ui, stopped, 1);
    }

    pub fn nav_prev(&mut self, ui: &mut Dashboard, stopped: bool)
        requires
            old(self).wf(),
        ensures
            final(self).wf(),
            step_post(*old(self), *old(ui), *final(self), *final(ui), stopped, -1i32),
    {
        self.step(ui, stopped, -1);
    }

    /// Back: on a Connectivity list, return to its main menu and stay;
    /// otherwise go home to window 0, resetting the Connectivity menu or the
    /// Updates focus when leaving those windows.
    pub fn nav_back(&mut self, ui: &mut Dashboard)
        requires
            old(self).wf(),
        ensures
            final(self).wf(),
            final(self).ctrl.snap == old(self).ctrl.snap,
            final(ui).camera_front == old(ui).camera_front,
            final(ui).speed == old(ui).speed,
            if old(self).window == CONN_WINDOW && old(self).ctrl.menu.screen != Screen::Main {
                &&& final(self).window == old(self).window
                &&& final(ui).current_window == old(ui).current_window
                &&& final(self).ctrl.menu == home_menu()
                &&& final(ui).conn@ == conn_props(home_menu(), old(self).ctrl.snap@)
                &&& final(ui).updates == old(ui).updates
            } else {
                &&& final(self).window == 0
                &&& final(ui).current_window == 0
                &&& final(self).ctrl.menu == if old(self).window == CONN_WINDOW {
                    home_menu()
                } else {
                    old(self).ctrl.menu
                }
                &&& final(ui).conn == old(ui).conn
                &&& final(ui).updates == if old(self).window == UPDATES_WINDOW {
                    focus_reset(old(ui).updates)
                } else {
                    old(ui).updates
                }
            },
    {
        let cur = self.window;
        if cur == CONN_WINDOW {
            match self.ctrl.menu.back() {
                BackResult::Stay => {
                    self.ctrl.paint(ui);
                    return;
                },
                BackResult::LeaveWindow => self.ctrl.menu.reset(),
            }
        }
        if cur == UPDATES_WINDOW {
            updates_nav::reset_focus(ui);
        }
        self.window = 0;
        ui.current_window = 0;
    }

    /// Select: on Connectivity, activate the focused row against the simulated
    /// radios and repaint; on Updates, answer the request to run; on the camera
    /// window, flip the feed.
    pub fn nav_select(&mut self, ui: &mut Dashboard) -> (req: Option<UpdatesRequest>)
        requires
            old(self).wf(),
        ensures
            final(self).wf(),
            final(self).window == old(self).window,
            final(ui).current_window == old(ui).current_window,
            final(ui).speed == old(ui).speed,
            final(ui).updates == old(ui).updates,
            if old(self).window == CONN_WINDOW {
                let menu = old(self).ctrl.menu;
                let snap = old(self).ctrl.snap@;
                let after = match menu.selected(snap) {
                    Some(a) => sim_effect(a, snap),
                    None => snap,
                };
                &&& req is None
                &&& final(self).ctrl.menu == menu.after_select()
                &&& final(self).ctrl.snap@ == after
                &&& final(ui).conn@ == conn_props(menu.after_select(), after)
                &&& final(ui).camera_front == old(ui).camera_front
            } else if old(self).window == UPDATES_WINDOW {
                &&& req == Some(focused_request(old(ui).updates.focus))
                &&& final(self).ctrl == old(self).ctrl
                &&& final(ui).conn == old(ui).conn
                &&& final(ui).camera_front == old(ui).camera_front
            } else {
                &&& req is None
                &&& final(self).ctrl == old(self).ctrl
                &&& final(ui).conn == old(ui).conn
                &&& final(ui).camera_front == (old(ui).camera_front != (old(self).window
                    == camera::WINDOW))
            },
    {
        let cur = self.window;
        if cur == CONN_WINDOW {
            let snap = self.ctrl.snap.clone();
            if let Some(action) = self.ctrl.menu.select(&snap) {
                run_sim_action(action, &mut self.ctrl.snap);
            }
            self.ctrl.paint(ui);
            return None;
        }
        if cur == UPDATES_WINDOW {
            return Some(updates_nav::activate_focused(ui));
        }
        if cur == camera::WINDOW {
            camera::toggle_feed(ui);
        }
        None
    }

    fn step(&mut self, ui: &mut Dashboard, stopped: bool, delta: i32)
        requires
            old(self).wf(),
            delta == 1 || delta == -1,
        ensures
            final(self).wf(),
            step_post(*old(self), *old(ui), *final(self), *final(ui), stopped, delta),
    {
        let max = if stopped {
            windows::COUNT - 1
        } else {
            windows::PANEL_MAX
        };
        let cur = self.window;
        if cur == CONN_WINDOW {
            let snap = self.ctrl.snap.clone();
            if let Some(leave) = self.ctrl.menu.move_focus(&snap, delta) {
                let next = clamp_i32(CONN_WINDOW + leave, 0, max);
                self.ctrl.menu.reset();
                self.window = next;
                ui.current_window = next;
                if next == UPDATES_WINDOW {
                    updates_nav::reset_focus(ui);
                }
                return;
            }
            self.ctrl.paint(ui);
            return;
        }
        if cur == UPDATES_WINDOW {
            if let Some(leave) = updates_nav::move_focus(ui, delta) {
                let next = clamp_i32(UPDATES_WINDOW + leave, 0, max);
                updates_nav::reset_focus(ui);
                self.window = next;
                ui.current_window = next;
                if next == CONN_WINDOW {
                    self.ctrl.menu.reset();
                    self.ctrl.paint(ui);
                }
                return;
            }
            return;
        }
        let next = if stopped {
            wrap_index(cur + delta, windows::COUNT)
        } else {
            wrap_index(clamp_i32(cur, 0, windows::PANEL_MAX) + delta, windows::PANEL_MAX + 1)
        };
        if next == CONN_WINDOW {
            self.ctrl.menu.reset();
        }
        if next == UPDATES_WINDOW {
            updates_nav::reset_focus(ui);
        }
        self.window = next;
        ui.current_window = next;
        if next == CONN_WINDOW {
            self.ctrl.paint(ui);
        }
    }
}

fn clamp_i32(x: i32, lo: i32, hi: i32) -> (r: i32)
    requires
        lo <= hi,
    ensures
        r == clamp_int(x as int, lo as int, hi as int),
{
    if x < lo {
        lo
    } else if x > hi {
        hi
    } else {
        x
    }
}

/// `x` modulo `n`, always in `0..n`.
fn wrap_index(x: i32, n: i32) -> (r: i32)
    requires
        n > 0,
        -n <= x,
    ensures
        r == (x as int) % (n as int),
{
    if x < 0 {
        assert((x as int) % (n as int) == x + n) by (nonlinear_arith)
            requires
                -n <= x < 0,
                n > 0,
        ;
        x + n
    } else if x >= n {
        x % n
    } else {
        assert((x as int) % (n as int) == x) by (nonlinear_arith)
            requires
                0 <= x < n,
        ;
        x
    }
}

impl Default for NavState {
    fn default() -> (nav: Self)
        ensures
            nav.wf(),
            nav.window == 0,
            nav.ctrl.menu == home_menu(),
            nav.ctrl.snap@ == sim_snapshot_view(),
    {
        let mut ctrl = Controller::new();
        ctrl.snap = sim_snapshot();
        ctrl.snap.available = true;
        ctrl.snap.status = String::from_str("Simulated radios (testbed)");
        assert(ctrl.snap@ == sim_snapshot_view());
        assert(ctrl.snap.devices@.len() == ctrl.snap@.devices.len());
        assert(ctrl.snap.networks@.len() == ctrl.snap@.networks.len());
        NavState { window: 0, ctrl }
    }
}

/// Apply initial simulated connectivity props.
pub fn init(ui: &mut Dashboard, nav: &NavState)
    ensures
        final(ui).conn@ == conn_props(nav.ctrl.menu, nav.ctrl.snap@),
        final(ui).current_window == old(ui).current_window,
        final(ui).camera_front == old(ui).camera_front,
        final(ui).updates == old(ui).updates,
        final(ui).speed == old(ui).speed,
{
    connectivity::apply_idle(ui);
    nav.ctrl.paint(ui);
}

/// While moving, a Previous or Next press that changes the window always lands
/// on one of the glanceable left-panel windows.
pub proof fn lemma_moving_lands_on_panel(
    nav: NavState,
    ui: Dashboard,
    nav2: NavState,
    ui2: Dashboard,
    delta: i32,
)
    requires
        nav.wf(),
        delta == 1 || delta == -1,
        step_post(nav, ui, nav2, ui2, false, delta),
        nav2.window != nav.window,
    ensures
        0 <= nav2.window <= windows::PANEL_MAX,
{
}

/// Next followed by Previous returns to the window it started from, from any
/// window but Connectivity and Updates (which use the presses to move their
/// own focus) when stopped, and from any left-panel window while moving.
pub proof fn lemma_next_then_prev_returns(
    nav0: NavState,
    ui0: Dashboard,
    nav1: NavState,
    ui1: Dashboard,
    nav2: NavState,
    ui2: Dashboard,
    stopped: bool,
)
    requires
        nav0.wf(),
        nav0.window != CONN_WINDOW,
        nav0.window != UPDATES_WINDOW,
        stopped || nav0.window <= windows::PANEL_MAX,
        step_post(nav0, ui0, nav1, ui1, stopped, 1),
        step_post(nav1, ui1, nav2, ui2, stopped, -1i32),
    ensures
        nav2.window == nav0.window,
{
    let cur = nav0.window as int;
    if stopped {
        assert((cur + 1) % 10 == if cur == 9 { 0 } else { cur + 1 }) by (nonlinear_arith)
            requires
                0 <= cur < 10,
        ;
        let mid = nav1.window as int;
        assert((mid - 1) % 10 == if mid == 0 { 9 } else { mid - 1 }) by (nonlinear_arith)
            requires
                0 <= mid < 10,
        ;
    } else {
        assert((cur + 1) % 5 == if cur == 4 { 0 } else { cur + 1 }) by (nonlinear_arith)
            requires
                0 <= cur <= 4,
        ;
        let mid = nav1.window as int;
        assert((mid - 1) % 5 == if mid == 0 { 4 } else { mid - 1 }) by (nonlinear_arith)
            requires
                0 <= mid <= 4,
        ;
    }
}

/// No simulated radio action ever leaves two devices, or two networks,
/// connected at once, when at most one of each was connected before.
pub proof fn lemma_sim_keeps_single_connection(action: Action, s: SnapshotView)
    requires
        forall|i: int, j: int|
            0 <= i < s.devices.len() && 0 <= j < s.devices.len() && s.devices[i].connected
                && s.devices[j].connected ==> i == j,
        forall|i: int, j: int|
            0 <= i < s.networks.len() && 0 <= j < s.networks.len() && s.networks[i].connected
                && s.networks[j].connected ==> i == j,
    ensures
        ({
            let t = sim_effect(action, s);
            &&& forall|i: int, j: int|
                0 <= i < t.devices.len() && 0 <= j < t.devices.len() && t.devices[i].connected
                    && t.devices[j].connected ==> i == j
            &&& forall|i: int, j: int|
                0 <= i < t.networks.len() && 0 <= j < t.networks.len() && t.networks[i].connected
                    && t.networks[j].connected ==> i == j
        }),
{
}

/// Every device row's badge agrees with its state: `CONNECTED` on the
/// connected row, and on every other row `PAIRED` for a paired device and
/// `AVAIL` otherwise.
pub open spec fn device_badges_agree(s: SnapshotView) -> bool {
    forall|i: int|
        0 <= i < s.devices.len() ==> #[trigger] s.devices[i].badge == if s.devices[i].connected {
            "CONNECTED"@
        } else if s.devices[i].paired {
            "PAIRED"@
        } else {
            "AVAIL"@
        }
}

/// The simulated radios start with device badges that agree with their state,
/// and every simulated action keeps them so: a headset disconnected by hand or
/// displaced by another shows `PAIRED` (or `AVAIL`), the one connected shows
/// `CONNECTED`.
pub proof fn lemma_device_badges_stay_true(action: Action, s: SnapshotView)
    requires
        device_badges_agree(s),
    ensures
        device_badges_agree(sim_snapshot_view()),
        device_badges_agree(sim_effect(action, s)),
{
    let d0 = sim_snapshot_view().devices[0];
    let d1 = sim_snapshot_view().devices[1];
    assert(d0.connected && d0.badge == "CONNECTED"@);
    assert(!d1.connected && d1.paired && d1.badge == "PAIRED"@);
    let t = sim_effect(action, s);
    assert forall|i: int| 0 <= i < t.devices.len() implies #[trigger] t.devices[i].badge == if t.devices[i].connected {
        "CONNECTED"@
    } else if t.devices[i].paired {
        "PAIRED"@
    } else {
        "AVAIL"@
    } by {
        assert(s.devices[i].badge == if s.devices[i].connected {
            "CONNECTED"@
        } else if s.devices[i].paired {
            "PAIRED"@
        } else {
            "AVAIL"@
        });
    }
}

/// Selecting a headset that is not connected connects exactly that headset:
/// it becomes the Bluetooth device, Bluetooth is on and connected, and every
/// other headset is disconnected. Selecting the connected headset disconnects
/// it and leaves Bluetooth unconnected.
pub proof fn lemma_select_device_connects_only_it(i: usize, s: SnapshotView)
    requires
        i < s.devices.len(),
    ensures
        ({
            let t = sim_effect(Action::SelectDevice(i), s);
            &&& t.devices.len() == s.devices.len()
            &&& !s.devices[i as int].connected ==> {
                &&& t.devices[i as int].connected
                &&& t.bt_connected && t.bt_powered
                &&& t.bt_device == s.devices[i as int].title
                &&& forall|j: int| 0 <= j < t.devices.len() && j != i ==> !#[trigger] t.devices[j].connected
            }
            &&& s.devices[i as int].connected ==> !t.devices[i as int].connected && !t.bt_connected
        }),
{
}

/// Joining a network that is not joined (and not a locked secure one) makes it
/// the only joined network, with Wi-Fi on and its name as the SSID; selecting
/// the joined network leaves it, clearing the SSID.
pub proof fn lemma_select_network_joins_only_it(i: usize, s: SnapshotView)
    requires
        i < s.networks.len(),
    ensures
        ({
            let n = s.networks[i as int];
            let t = sim_effect(Action::SelectNetwork(i), s);
            &&& t.networks.len() == s.networks.len()
            &&& !(n.badge == "SECURE"@ && !n.favorite) && !n.connected ==> {
                &&& t.networks[i as int].connected
                &&& t.wifi_connected && t.wifi_powered
                &&& t.wifi_ssid == n.title
                &&& forall|j: int| 0 <= j < t.networks.len() && j != i ==> !#[trigger] t.networks[j].connected
            }
            &&& !(n.badge == "SECURE"@ && !n.favorite) && n.connected ==> {
                &&& !t.networks[i as int].connected
                &&& !t.wifi_connected
                &&& t.wifi_ssid.len() == 0
            }
            &&& n.badge == "SECURE"@ && !n.favorite ==> t.networks == s.networks && t.wifi_connected
                == s.wifi_connected
        }),
{
}

/// Toggling a radio flips its power; switching it off drops its connection
/// (and for Wi-Fi the SSID). A radio toggle never touches the other radio.
pub proof fn lemma_toggles_flip_power(s: SnapshotView)
    ensures
        sim_effect(Action::ToggleBt, s).bt_powered == !s.bt_powered,
        s.bt_powered ==> !sim_effect(Action::ToggleBt, s).bt_connected,
        sim_effect(Action::ToggleBt, s).wifi_powered == s.wifi_powered,
        sim_effect(Action::ToggleBt, s).devices == s.devices,
        sim_effect(Action::ToggleWifi, s).wifi_powered == !s.wifi_powered,
        s.wifi_powered ==> !sim_effect(Action::ToggleWifi, s).wifi_connected
            && sim_effect(Action::ToggleWifi, s).wifi_ssid.len() == 0,
        sim_effect(Action::ToggleWifi, s).bt_powered == s.bt_powered,
        sim_effect(Action::ToggleWifi, s).networks == s.networks,
{
}

} // verus!
