//! Connectivity window focus model and the properties it paints.
//!
//! Face buttons on the Connectivity window:
//! - Previous / Next move the focus highlight (edge Previous/Next leave the window)
//! - Select activates the focused row
//! - Back leaves a list to the main menu, or returns home from the main menu

use vstd::prelude::*;

use crate::ui::{ConnPropsView, Dashboard};

verus! {

/// Window index for Connectivity (see the window table in `windows`).
pub const WINDOW: i32 = 5;

/// Fixed main-menu rows.
pub const MAIN_BT_POWER: usize = 0;
pub const MAIN_BT_DEVICES: usize = 1;
pub const MAIN_WIFI_POWER: usize = 2;
pub const MAIN_WIFI_NETWORKS: usize = 3;
pub const MAIN_COUNT: usize = 4;

/// Main menu / Bluetooth list / Wi-Fi list.
#[derive(Debug, Clone, Copy, PartialEq, Eq, Structural)]
pub enum Screen {
    Main,
    BtList,
    WifiList,
}

impl Screen {
    /// The number the dashboard uses for this screen.
    pub open spec fn index(self) -> i32 {
        match self {
            Screen::Main => 0,
            Screen::BtList => 1,
            Screen::WifiList => 2,
        }
    }

    pub fn as_i32(self) -> (r: i32)
        ensures
            r == self.index(),
    {
        match self {
            Screen::Main => 0,
            Screen::BtList => 1,
            Screen::WifiList => 2,
        }
    }
}

impl Default for Screen {
    fn default() -> (r: Screen)
        ensures
            r == Screen::Main,
    {
        Screen::Main
    }
}

/// One Bluetooth device row.
#[derive(Debug)]
pub struct DeviceRow {
    pub path: String,
    pub title: String,
    pub detail: String,
    pub badge: String,
    pub connected: bool,
    pub paired: bool,
}

/// Mathematical view of a [`DeviceRow`].
pub struct DeviceRowView {
    pub path: Seq<char>,
    pub title: Seq<char>,
    pub detail: Seq<char>,
    pub badge: Seq<char>,
    pub connected: bool,
    pub paired: bool,
}

impl View for DeviceRow {
    type V = DeviceRowView;

    open spec fn view(&self) -> DeviceRowView {
        DeviceRowView {
            path: self.path@,
            title: self.title@,
            detail: self.detail@,
            badge: self.badge@,
            connected: self.connected,
            paired: self.paired,
        }
    }
}

impl Clone for DeviceRow {
    fn clone(&self) -> (r: Self)
        ensures
            r == *self,
    {
        DeviceRow {
            path: self.path.clone(),
            title: self.title.clone(),
            detail: self.detail.clone(),
            badge: self.badge.clone(),
            connected: self.connected,
            paired: self.paired,
        }
    }
}

impl Default for DeviceRow {
    fn default() -> (r: Self)
        ensures
            r@ == (DeviceRowView {
                path: Seq::empty(),
                title: Seq::empty(),
                detail: Seq::empty(),
                badge: Seq::empty(),
                connected: false,
                paired: false,
            }),
    {
        DeviceRow {
            path: String::new(),
            title: String::new(),
            detail: String::new(),
            badge: String::new(),
            connected: false,
            paired: false,
        }
    }
}

/// One Wi-Fi network row.
#[derive(Debug)]
pub struct NetworkRow {
    pub path: String,
    pub title: String,
    pub detail: String,
    pub badge: String,
    pub connected: bool,
    pub favorite: bool,
}

/// Mathematical view of a [`NetworkRow`].
pub struct NetworkRowView {
    pub path: Seq<char>,
    pub title: Seq<char>,
    pub detail: Seq<char>,
    pub badge: Seq<char>,
    pub connected: bool,
    pub favorite: bool,
}

impl View for NetworkRow {
    type V = NetworkRowView;

    open spec fn view(&self) -> NetworkRowView {
        NetworkRowView {
            path: self.path@,
            title: self.title@,
            detail: self.detail@,
            badge: self.badge@,
            connected: self.connected,
            favorite: self.favorite,
        }
    }
}

impl Clone for NetworkRow {
    fn clone(&self) -> (r: Self)
        ensures
            r == *self,
    {
        NetworkRow {
            path: self.path.clone(),
            title: self.title.clone(),
            detail: self.detail.clone(),
            badge: self.badge.clone(),
            connected: self.connected,
            favorite: self.favorite,
        }
    }
}

impl Default for NetworkRow {
    fn default() -> (r: Self)
        ensures
            r@ == (NetworkRowView {
                path: Seq::empty(),
                title: Seq::empty(),
                detail: Seq::empty(),
                badge: Seq::empty(),
                connected: false,
                favorite: false,
            }),
    {
        NetworkRow {
            path: String::new(),
            title: String::new(),
            detail: String::new(),
            badge: String::new(),
            connected: false,
            favorite: false,
        }
    }
}

/// Radio state as last polled.
#[derive(Debug)]
pub struct Snapshot {
    pub bt_powered: bool,
    pub bt_connected: bool,
    pub bt_device: String,
    pub bt_battery: i32,
    pub wifi_powered: bool,
    pub wifi_connected: bool,
    pub wifi_ssid: String,
    pub devices: Vec<DeviceRow>,
    pub networks: Vec<NetworkRow>,
    pub status: String,
    pub busy: bool,
    pub available: bool,
}

/// Mathematical view of a [`Snapshot`].
pub struct SnapshotView {
    pub bt_powered: bool,
    pub bt_connected: bool,
    pub bt_device: Seq<char>,
    pub bt_battery: i32,
    pub wifi_powered: bool,
    pub wifi_connected: bool,
    pub wifi_ssid: Seq<char>,
    pub devices: Seq<DeviceRowView>,
    pub networks: Seq<NetworkRowView>,
    pub status: Seq<char>,
    pub busy: bool,
    pub available: bool,
}

impl View for Snapshot {
    type V = SnapshotView;

    open spec fn view(&self) -> SnapshotView {
        SnapshotView {
            bt_powered: self.bt_powered,
            bt_connected: self.bt_connected,
            bt_device: self.bt_device@,
            bt_battery: self.bt_battery,
            wifi_powered: self.wifi_powered,
            wifi_connected: self.wifi_connected,
            wifi_ssid: self.wifi_ssid@,
            devices: self.devices@.map_values(|d: DeviceRow| d@),
            networks: self.networks@.map_values(|n: NetworkRow| n@),
            status: self.status@,
            busy: self.busy,
            available: self.available,
        }
    }
}

/// The snapshot view in which every flag is off, every text empty and both lists empty.
pub open spec fn empty_snapshot_view(bt_battery: i32, status: Seq<char>) -> SnapshotView {
    SnapshotView {
        bt_powered: false,
        bt_connected: false,
        bt_device: Seq::empty(),
        bt_battery,
        wifi_powered: false,
        wifi_connected: false,
        wifi_ssid: Seq::empty(),
        devices: Seq::empty(),
        networks: Seq::empty(),
        status,
        busy: false,
        available: false,
    }
}

impl Clone for Snapshot {
    fn clone(&self) -> (r: Self)
        ensures
            r@ == self@,
    {
        let devices = self.devices.clone();
        let networks = self.networks.clone();
        assert(devices@ =~= self.devices@);
        assert(networks@ =~= self.networks@);
        Snapshot {
            bt_powered: self.bt_powered,
            bt_connected: self.bt_connected,
            bt_device: self.bt_device.clone(),
            bt_battery: self.bt_battery,
            wifi_powered: self.wifi_powered,
            wifi_connected: self.wifi_connected,
            wifi_ssid: self.wifi_ssid.clone(),
            devices,
            networks,
            status: self.status.clone(),
            busy: self.busy,
            available: self.available,
        }
    }
}

impl Default for Snapshot {
    fn default() -> (r: Self)
        ensures
            r@ == empty_snapshot_view(0, Seq::empty()),
    {
        let r = Snapshot {
            bt_powered: false,
            bt_connected: false,
            bt_device: String::new(),
            bt_battery: 0,
            wifi_powered: false,
            wifi_connected: false,
            wifi_ssid: String::new(),
            devices: Vec::new(),
            networks: Vec::new(),
            status: String::new(),
            busy: false,
            available: false,
        };
        assert(r@.devices =~= Seq::<DeviceRowView>::empty());
        assert(r@.networks =~= Seq::<NetworkRowView>::empty());
        r
    }
}

/// Which screen is shown and which row has the focus.
#[derive(Debug, Clone, Copy, PartialEq, Eq, Structural)]
pub struct Menu {
    pub screen: Screen,
    pub focus: usize,
}

impl Default for Menu {
    fn default() -> (r: Menu)
        ensures
            r == (Menu { screen: Screen::Main, focus: 0 }),
    {
        Menu { screen: Screen::Main, focus: 0 }
    }
}

/// `n + 1`, saturating at the largest `usize`.
pub open spec fn saturating_inc(n: nat) -> int {
    if n >= usize::MAX {
        usize::MAX as int
    } else {
        n + 1int
    }
}

/// `x` clamped into `lo..=hi`.
pub open spec fn clamp_int(x: int, lo: int, hi: int) -> int {
    if x < lo {
        lo
    } else if x > hi {
        hi
    } else {
        x
    }
}

/// Result of pressing Back.
#[derive(Debug, Clone, Copy, PartialEq, Eq, Structural)]
pub enum BackResult {
    Stay,
    LeaveWindow,
}

/// What a Select press asks the radios to do.
#[derive(Debug, Clone, Copy, PartialEq, Eq, Structural)]
pub enum Action {
    ToggleBt,
    OpenBtList,
    ToggleWifi,
    OpenWifiList,
    BtScan,
    WifiScan,
    /// Index into [`Snapshot::devices`].
    SelectDevice(usize),
    /// Index into [`Snapshot::networks`].
    SelectNetwork(usize),
}

impl Menu {
    /// Number of rows on the current screen: four on the main menu; one per
    /// device or network plus the scan row on a list.
    pub open spec fn rows(self, snap: SnapshotView) -> int {
        match self.screen {
            Screen::Main => MAIN_COUNT as int,
            Screen::BtList => saturating_inc(snap.devices.len()),
            Screen::WifiList => saturating_inc(snap.networks.len()),
        }
    }

    /// What `select` answers on this menu and snapshot.
    pub open spec fn selected(self, snap: SnapshotView) -> Option<Action> {
        match self.screen {
            Screen::Main => if self.focus == MAIN_BT_POWER {
                Some(Action::ToggleBt)
            } else if self.focus == MAIN_BT_DEVICES {
                Some(Action::OpenBtList)
            } else if self.focus == MAIN_WIFI_POWER {
                Some(Action::ToggleWifi)
            } else if self.focus == MAIN_WIFI_NETWORKS {
                Some(Action::OpenWifiList)
            } else {
                None
            },
            Screen::BtList => if self.focus < snap.devices.len() {
                Some(Action::SelectDevice(self.focus))
            } else {
                Some(Action::BtScan)
            },
            Screen::WifiList => if self.focus < snap.networks.len() {
                Some(Action::SelectNetwork(self.focus))
            } else {
                Some(Action::WifiScan)
            },
        }
    }

    /// The menu after `select`: the two list-opening rows switch screens and
    /// reset the focus; every other press leaves the menu as it was.
    pub open spec fn after_select(self) -> Menu {
        if self.screen == Screen::Main && self.focus == MAIN_BT_DEVICES {
            Menu { screen: Screen::BtList, focus: 0 }
        } else if self.screen == Screen::Main && self.focus == MAIN_WIFI_NETWORKS {
            Menu { screen: Screen::WifiList, focus: 0 }
        } else {
            self
        }
    }

    /// The rows counted for focus movement: at least one.
    pub open spec fn focus_rows(self, snap: SnapshotView) -> int {
        if self.rows(snap) < 1 {
            1
        } else {
            self.rows(snap)
        }
    }

    /// Whether moving the focus by `delta` leaves the window: only from the
    /// main menu, backwards from its first row or forwards from its last.
    pub open spec fn leaves(self, snap: SnapshotView, delta: i32) -> bool {
        self.screen == Screen::Main && ((delta < 0 && self.focus == 0) || (delta > 0 && self.focus
            + 1 >= self.focus_rows(snap)))
    }

    /// The focus as the dashboard's 32-bit row number (its low 32 bits).
    pub open spec fn focus_row(self) -> i32 {
        self.focus as i32
    }

    /// The last row as a 32-bit row number (the low 32 bits of the count, less one).
    pub open spec fn last_row(self, snap: SnapshotView) -> int {
        (self.focus_rows(snap) as i32) - 1
    }

    /// Whether a press that stays in the window can be computed: the 32-bit
    /// focus moved by `delta` does not overflow, and there is a last row.
    pub open spec fn can_move(self, snap: SnapshotView, delta: i32) -> bool {
        &&& i32::MIN <= self.focus_row() + delta <= i32::MAX
        &&& self.last_row(snap) >= 0
    }

    /// Outcome of moving the focus by `delta`: the window delta when leaving at
    /// an edge of the main menu, and the menu afterwards (the 32-bit focus
    /// moved and clamped to the rows).
    pub open spec fn moved(self, snap: SnapshotView, delta: i32) -> (Option<i32>, Menu) {
        if self.leaves(snap, delta) {
            (Some(if delta < 0 {
                -1i32
            } else {
                1i32
            }), self)
        } else {
            (
                None,
                Menu {
                    screen: self.screen,
                    focus: clamp_int(self.focus_row() + delta, 0, self.last_row(snap)) as usize,
                },
            )
        }
    }

    pub fn reset(&mut self)
        ensures
            *final(self) == (Menu { screen: Screen::Main, focus: 0 }),
    {
        self.screen = Screen::Main;
        self.focus = 0;
    }

    pub fn item_count(&self, snap: &Snapshot) -> (r: usize)
        ensures
            r == self.rows(snap@),
    {
        match self.screen {
            Screen::Main => MAIN_COUNT,
            Screen::BtList => snap.devices.len().saturating_add(1),
            Screen::WifiList => snap.networks.len().saturating_add(1),
        }
    }

    /// Move focus by `delta`. Returns `Some(window_delta)` when leaving the window
    /// at the first/last edge on the main menu.
    pub fn move_focus(&mut self, snap: &Snapshot, delta: i32) -> (r: Option<i32>)
        requires
            old(self).screen == Screen::Main && delta > 0 ==> old(self).focus < usize::MAX,
            old(self).leaves(snap@, delta) || old(self).can_move(snap@, delta),
        ensures
            (r, *final(self)) == old(self).moved(snap@, delta),
    {
        let rows = self.item_count(snap);
        let count = if rows < 1 { 1 } else { rows };
        if self.screen == Screen::Main {
            if delta < 0 && self.focus == 0 {
                return Some(-1);
            }
            if delta > 0 && self.focus + 1 >= count {
                return Some(1);
            }
        }
        let next = self.focus as i32 + delta;
        let hi = count as i32 - 1;
        assert(hi == self.last_row(snap@));
        self.focus = if next < 0 {
            0
        } else if next > hi {
            hi as usize
        } else {
            next as usize
        };
        None
    }

    pub fn back(&mut self) -> (r: BackResult)
        ensures
            old(self).screen == Screen::Main ==> r == BackResult::LeaveWindow && *final(self)
                == *old(self),
            old(self).screen != Screen::Main ==> r == BackResult::Stay && *final(self) == (Menu {
                screen: Screen::Main,
                focus: 0,
            }),
    {
        match self.screen {
            Screen::Main => BackResult::LeaveWindow,
            Screen::BtList | Screen::WifiList => {
                self.screen = Screen::Main;
                self.focus = 0;
                BackResult::Stay
            },
        }
    }

    pub fn select(&mut self, snap: &Snapshot) -> (r: Option<Action>)
        ensures
            r == old(self).selected(snap@),
            *final(self) == old(self).after_select(),
    {
        match self.screen {
            Screen::Main => {
                if self.focus == MAIN_BT_POWER {
                    Some(Action::ToggleBt)
                } else if self.focus == MAIN_BT_DEVICES {
                    self.screen = Screen::BtList;
                    self.focus = 0;
                    Some(Action::OpenBtList)
                } else if self.focus == MAIN_WIFI_POWER {
                    Some(Action::ToggleWifi)
                } else if self.focus == MAIN_WIFI_NETWORKS {
                    self.screen = Screen::WifiList;
                    self.focus = 0;
                    Some(Action::OpenWifiList)
                } else {
                    None
                }
            },
            Screen::BtList => {
                let n = snap.devices.len();
                if self.focus < n {
                    Some(Action::SelectDevice(self.focus))
                } else {
                    Some(Action::BtScan)
                }
            },
            Screen::WifiList => {
                let n = snap.networks.len();
                if self.focus < n {
                    Some(Action::SelectNetwork(self.focus))
                } else {
                    Some(Action::WifiScan)
                }
            },
        }
    }
}

/// One row of the Connectivity list as the dashboard shows it.
#[derive(Debug, PartialEq, Eq)]
pub struct ConnItem {
    pub title: String,
    pub detail: String,
    pub badge: String,
    pub focused: bool,
}

/// Mathematical view of a [`ConnItem`].
pub struct ConnItemView {
    pub title: Seq<char>,
    pub detail: Seq<char>,
    pub badge: Seq<char>,
    pub focused: bool,
}

impl View for ConnItem {
    type V = ConnItemView;

    open spec fn view(&self) -> ConnItemView {
        ConnItemView {
            title: self.title@,
            detail: self.detail@,
            badge: self.badge@,
            focused: self.focused,
        }
    }
}

/// The views of a list of rows.
pub open spec fn item_views(items: Seq<ConnItem>) -> Seq<ConnItemView> {
    items.map_values(|it: ConnItem| it@)
}

pub open spec fn item_view(
    title: Seq<char>,
    detail: Seq<char>,
    badge: Seq<char>,
    focused: bool,
) -> ConnItemView {
    ConnItemView { title, detail, badge, focused }
}

/// Detail line of the Bluetooth row.
pub open spec fn bt_detail(snap: SnapshotView) -> Seq<char> {
    if snap.bt_connected {
        snap.bt_device
    } else if snap.bt_powered {
        "No headset connected"@
    } else {
        "Radio off"@
    }
}

/// Detail line of the Wi-Fi row.
pub open spec fn wifi_detail(snap: SnapshotView) -> Seq<char> {
    if snap.wifi_connected {
        snap.wifi_ssid
    } else if snap.wifi_powered {
        "Not associated"@
    } else {
        "Radio off"@
    }
}

/// `ON` or `OFF`.
pub open spec fn power_badge(on: bool) -> Seq<char> {
    if on {
        "ON"@
    } else {
        "OFF"@
    }
}

/// The rows of the main menu.
pub open spec fn main_rows(menu: Menu, snap: SnapshotView) -> Seq<ConnItemView> {
    seq![
        item_view("Bluetooth"@, bt_detail(snap), power_badge(snap.bt_powered), menu.focus == MAIN_BT_POWER),
        item_view("Devices"@, "Pair or connect headset"@, ""@, menu.focus == MAIN_BT_DEVICES),
        item_view("Wi-Fi"@, wifi_detail(snap), power_badge(snap.wifi_powered), menu.focus == MAIN_WIFI_POWER),
        item_view("Networks"@, "Join a saved or open network"@, ""@, menu.focus == MAIN_WIFI_NETWORKS),
    ]
}

/// The rows of the Bluetooth list: one per device, then the scan row.
pub open spec fn device_rows(menu: Menu, snap: SnapshotView) -> Seq<ConnItemView> {
    Seq::new(
        snap.devices.len(),
        |i: int|
            item_view(
                snap.devices[i].title,
                snap.devices[i].detail,
                snap.devices[i].badge,
                menu.focus == i,
            ),
    ).push(
        item_view(
            "Scan for headsets"@,
            "Discover nearby Bluetooth devices"@,
            ""@,
            menu.focus == snap.devices.len(),
        ),
    )
}

/// The rows of the Wi-Fi list: one per network, then the rescan row.
pub open spec fn network_rows(menu: Menu, snap: SnapshotView) -> Seq<ConnItemView> {
    Seq::new(
        snap.networks.len(),
        |i: int|
            item_view(
                snap.networks[i].title,
                snap.networks[i].detail,
                snap.networks[i].badge,
                menu.focus == i,
            ),
    ).push(
        item_view(
            "Rescan networks"@,
            "Refresh Wi-Fi scan results"@,
            ""@,
            menu.focus == snap.networks.len(),
        ),
    )
}

/// The rows shown for a menu and snapshot.
pub open spec fn rows_for(menu: Menu, snap: SnapshotView) -> Seq<ConnItemView> {
    match menu.screen {
        Screen::Main => main_rows(menu, snap),
        Screen::BtList => device_rows(menu, snap),
        Screen::WifiList => network_rows(menu, snap),
    }
}

fn item(title: &str, detail: &str, badge: &str, focused: bool) -> (r: ConnItem)
    ensures
        r@ == item_view(title@, detail@, badge@, focused),
{
    ConnItem {
        title: String::from_str(title),
        detail: String::from_str(detail),
        badge: String::from_str(badge),
        focused,
    }
}

pub fn build_items(menu: &Menu, snap: &Snapshot) -> (rows: Vec<ConnItem>)
    ensures
        item_views(rows@) == rows_for(*menu, snap@),
{
    match menu.screen {
        Screen::Main => {
            let bt_badge = if snap.bt_powered {
                "ON"
            } else {
                "OFF"
            };
            let wifi_badge = if snap.wifi_powered {
                "ON"
            } else {
                "OFF"
            };
            let bt_detail = if snap.bt_connected {
                snap.bt_device.as_str()
            } else if snap.bt_powered {
                "No headset connected"
            } else {
                "Radio off"
            };
            let wifi_detail = if snap.wifi_connected {
                snap.wifi_ssid.as_str()
            } else if snap.wifi_powered {
                "Not associated"
            } else {
                "Radio off"
            };
            let mut rows: Vec<ConnItem> = Vec::new();
            rows.push(item("Bluetooth", bt_detail, bt_badge, menu.focus == MAIN_BT_POWER));
            rows.push(
                item("Devices", "Pair or connect headset", "", menu.focus == MAIN_BT_DEVICES),
            );
            rows.push(item("Wi-Fi", wifi_detail, wifi_badge, menu.focus == MAIN_WIFI_POWER));
            rows.push(
                item(
                    "Networks",
                    "Join a saved or open network",
                    "",
                    menu.focus == MAIN_WIFI_NETWORKS,
                ),
            );
            assert(item_views(rows@) =~= rows_for(*menu, snap@));
            rows
        },
        Screen::BtList => {
            let mut rows: Vec<ConnItem> = Vec::new();
            let n = snap.devices.len();
            let mut i: usize = 0;
            while i < n
                invariant
                    n == snap.devices@.len(),
                    i <= n,
                    rows@.len() == i,
                    forall|k: int|
                        0 <= k < i ==> #[trigger] rows@[k]@ == item_view(
                            snap@.devices[k].title,
                            snap@.devices[k].detail,
                            snap@.devices[k].badge,
                            menu.focus == k,
                        ),
                decreases n - i,
            {
                let d = &snap.devices[i];
                rows.push(
                    item(d.title.as_str(), d.detail.as_str(), d.badge.as_str(), menu.focus == i),
                );
                i = i + 1;
            }
            rows.push(
                item(
                    "Scan for headsets",
                    "Discover nearby Bluetooth devices",
                    "",
                    menu.focus == n,
                ),
            );
            assert(item_views(rows@) =~= rows_for(*menu, snap@));
            rows
        },
        Screen::WifiList => {
            let mut rows: Vec<ConnItem> = Vec::new();
            let n = snap.networks.len();
            let mut i: usize = 0;
            while i < n
                invariant
                    n == snap.networks@.len(),
                    i <= n,
                    rows@.len() == i,
                    forall|k: int|
                        0 <= k < i ==> #[trigger] rows@[k]@ == item_view(
                            snap@.networks[k].title,
                            snap@.networks[k].detail,
                            snap@.networks[k].badge,
                            menu.focus == k,
                        ),
                decreases n - i,
            {
                let net = &snap.networks[i];
                rows.push(
                    item(
                        net.title.as_str(),
                        net.detail.as_str(),
                        net.badge.as_str(),
                        menu.focus == i,
                    ),
                );
                i = i + 1;
            }
            rows.push(
                item("Rescan networks", "Refresh Wi-Fi scan results", "", menu.focus == n),
            );
            assert(item_views(rows@) =~= rows_for(*menu, snap@));
            rows
        },
    }
}

/// `—` for an empty name, the name otherwise.
pub open spec fn or_dash(s: Seq<char>) -> Seq<char> {
    if s.len() == 0 {
        "—"@
    } else {
        s
    }
}

/// The status line: a fixed hint when the radio services are unavailable and
/// report nothing, the reported status otherwise.
pub open spec fn status_line(snap: SnapshotView) -> Seq<char> {
    if !snap.available && snap.status.len() == 0 {
        "BlueZ / connman unavailable — connect radios on the device image."@
    } else {
        snap.status
    }
}

/// Everything the Connectivity window shows for a menu and snapshot.
pub open spec fn conn_props(menu: Menu, snap: SnapshotView) -> ConnPropsView {
    ConnPropsView {
        screen: menu.screen.index(),
        busy: snap.busy,
        bt_powered: snap.bt_powered,
        bt_connected: snap.bt_connected,
        bt_device: or_dash(snap.bt_device),
        bt_battery: snap.bt_battery,
        wifi_powered: snap.wifi_powered,
        wifi_connected: snap.wifi_connected,
        wifi_ssid: or_dash(snap.wifi_ssid),
        status: status_line(snap),
        items: rows_for(menu, snap),
    }
}

fn or_dash_text(s: &String) -> (r: String)
    ensures
        r@ == or_dash(s@),
{
    if s.as_str().is_empty() {
        String::from_str("—")
    } else {
        s.clone()
    }
}

/// Push snapshot + menu state onto the dashboard.
pub fn apply(ui: &mut Dashboard, menu: &Menu, snap: &Snapshot)
    ensures
        final(ui).conn@ == conn_props(*menu, snap@),
        final(ui).current_window == old(ui).current_window,
        final(ui).camera_front == old(ui).camera_front,
        final(ui).updates == old(ui).updates,
        final(ui).speed == old(ui).speed,
{
    ui.conn.screen = menu.screen.as_i32();
    ui.conn.busy = snap.busy;
    ui.conn.bt_powered = snap.bt_powered;
    ui.conn.bt_connected = snap.bt_connected;
    ui.conn.bt_device = or_dash_text(&snap.bt_device);
    ui.conn.bt_battery = snap.bt_battery;
    ui.conn.wifi_powered = snap.wifi_powered;
    ui.conn.wifi_connected = snap.wifi_connected;
    ui.conn.wifi_ssid = or_dash_text(&snap.wifi_ssid);
    let status = if !snap.available && snap.status.as_str().is_empty() {
        String::from_str("BlueZ / connman unavailable — connect radios on the device image.")
    } else {
        snap.status.clone()
    };
    ui.conn.status = status;
    ui.conn.items = build_items(menu, snap);
}

/// Empty idle state for startup before the first poll.
pub fn apply_idle(ui: &mut Dashboard)
    ensures
        final(ui).conn@ == conn_props(
            Menu { screen: Screen::Main, focus: 0 },
            empty_snapshot_view(-1i32, "Starting connectivity…"@),
        ),
        final(ui).current_window == old(ui).current_window,
        final(ui).camera_front == old(ui).camera_front,
        final(ui).updates == old(ui).updates,
        final(ui).speed == old(ui).speed,
{
    let menu = Menu::default();
    let mut snap = Snapshot::default();
    snap.status = String::from_str("Starting connectivity…");
    snap.bt_battery = -1;
    assert(snap@ == empty_snapshot_view(-1i32, "Starting connectivity…"@));
    apply(ui, &menu, &snap);
}

/// Menu and last snapshot, shared by navigation and polling.
pub struct Controller {
    pub menu: Menu,
    pub snap: Snapshot,
}

impl Controller {
    pub fn new() -> (c: Self)
        ensures
            c.menu == (Menu { screen: Screen::Main, focus: 0 }),
            c.snap@ == empty_snapshot_view(-1i32, Seq::empty()),
    {
        let mut snap = Snapshot::default();
        snap.bt_battery = -1;
        snap.status = String::new();
        Controller { menu: Menu::default(), snap }
    }

    pub fn paint(&self, ui: &mut Dashboard)
        ensures
            final(ui).conn@ == conn_props(self.menu, self.snap@),
            final(ui).current_window == old(ui).current_window,
            final(ui).camera_front == old(ui).camera_front,
            final(ui).updates == old(ui).updates,
            final(ui).speed == old(ui).speed,
    {
        apply(ui, &self.menu, &self.snap);
    }
}

impl Default for Controller {
    fn default() -> (c: Self)
        ensures
            c.menu == (Menu { screen: Screen::Main, focus: 0 }),
            c.snap@ == empty_snapshot_view(-1i32, Seq::empty()),
    {
        Self::new()
    }
}

/// The list shows exactly as many rows as the menu counts, and the focused
/// row is the one at the menu's focus (none when the focus is past the end).
pub proof fn lemma_rows_match_menu(menu: Menu, snap: SnapshotView)
    requires
        snap.devices.len() < usize::MAX,
        snap.networks.len() < usize::MAX,
    ensures
        rows_for(menu, snap).len() == menu.rows(snap),
        forall|i: int|
            0 <= i < rows_for(menu, snap).len() ==> (#[trigger] rows_for(menu, snap)[i].focused
                <==> i == menu.focus),
{
}

/// Previous/Next that stay inside the window leave the focus on a row that
/// exists on the screen (for screens with no more rows than a 32-bit row
/// number can count).
pub proof fn lemma_move_keeps_focus_on_a_row(menu: Menu, snap: SnapshotView, delta: i32)
    requires
        menu.moved(snap, delta).0 is None,
        1 <= menu.rows(snap) <= i32::MAX,
    ensures
        menu.moved(snap, delta).1.focus < menu.rows(snap),
        menu.moved(snap, delta).1.screen == menu.screen,
{
}

/// On the main menu the Bluetooth row names the connected headset whenever one
/// is connected; "No headset connected" shows only while the radio is on with
/// nothing connected, and "Radio off" only while it is off with nothing
/// connected. The Wi-Fi row does the same with the joined network's name.
pub proof fn lemma_main_rows_name_the_connection(menu: Menu, snap: SnapshotView)
    requires
        menu.screen == Screen::Main,
    ensures
        snap.bt_connected ==> rows_for(menu, snap)[0].detail == snap.bt_device,
        !snap.bt_connected && snap.bt_powered ==> rows_for(menu, snap)[0].detail
            == "No headset connected"@,
        !snap.bt_connected && !snap.bt_powered ==> rows_for(menu, snap)[0].detail == "Radio off"@,
        snap.wifi_connected ==> rows_for(menu, snap)[2].detail == snap.wifi_ssid,
        !snap.wifi_connected && snap.wifi_powered ==> rows_for(menu, snap)[2].detail
            == "Not associated"@,
        !snap.wifi_connected && !snap.wifi_powered ==> rows_for(menu, snap)[2].detail
            == "Radio off"@,
        rows_for(menu, snap)[0].title == "Bluetooth"@,
        rows_for(menu, snap)[0].badge == (if snap.bt_powered { "ON"@ } else { "OFF"@ }),
        rows_for(menu, snap)[2].title == "Wi-Fi"@,
        rows_for(menu, snap)[2].badge == (if snap.wifi_powered { "ON"@ } else { "OFF"@ }),
{
}

/// On a Bluetooth or Wi-Fi list, Previous/Next never leave the Connectivity
/// window: the focus moves and is clamped to the list's rows. Only the main
/// menu's first and last rows lead out of the window, Previous from the first
/// and Next from the last.
pub proof fn lemma_lists_never_leave(menu: Menu, snap: SnapshotView, delta: i32)
    ensures
        menu.screen != Screen::Main ==> menu.moved(snap, delta).0 is None,
        menu.moved(snap, delta).0 is Some ==> menu.screen == Screen::Main,
        menu.screen == Screen::Main && delta < 0 && menu.focus == 0 ==> menu.moved(snap, delta).0
            == Some(-1i32),
        menu.screen == Screen::Main && delta < 0 && menu.focus > 0 ==> menu.moved(snap, delta).0
            is None,
        menu.screen == Screen::Main && delta > 0 && menu.focus + 1 >= 4 ==> menu.moved(snap, delta).0
            == Some(1i32),
        menu.screen == Screen::Main && delta > 0 && menu.focus + 1 < 4 ==> menu.moved(snap, delta).0
            is None,
        delta == 0 ==> menu.moved(snap, delta).0 is None,
{
}

} // verus!
