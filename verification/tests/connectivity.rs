use sigma_racer::sigma::connectivity::{
    apply, apply_idle, build_items, Action, BackResult, ConnItem, Controller, DeviceRow, Menu,
    NetworkRow, Screen, Snapshot,
};
use sigma_racer::ui::Dashboard;

fn row(title: &str, detail: &str, badge: &str, focused: bool) -> ConnItem {
    ConnItem {
        title: title.to_string(),
        detail: detail.to_string(),
        badge: badge.to_string(),
        focused,
    }
}

fn snapshot_with(devices: usize, networks: usize) -> Snapshot {
    let mut snap = Snapshot::default();
    for i in 0..devices {
        snap.devices.push(DeviceRow {
            path: format!("dev/{i}"),
            title: format!("Headset {i}"),
            detail: format!("detail {i}"),
            badge: "PAIRED".to_string(),
            connected: false,
            paired: true,
        });
    }
    for i in 0..networks {
        snap.networks.push(NetworkRow {
            path: format!("net/{i}"),
            title: format!("Net {i}"),
            detail: "idle".to_string(),
            badge: "OPEN".to_string(),
            connected: false,
            favorite: false,
        });
    }
    snap
}

#[test]
fn screen_numbers() {
    assert_eq!(Screen::Main.as_i32(), 0);
    assert_eq!(Screen::BtList.as_i32(), 1);
    assert_eq!(Screen::WifiList.as_i32(), 2);
    assert_eq!(Screen::default(), Screen::Main);
}

#[test]
fn item_count_per_screen() {
    let snap = snapshot_with(2, 3);
    let mut menu = Menu::default();
    assert_eq!(menu.item_count(&snap), 4);
    menu.screen = Screen::BtList;
    assert_eq!(menu.item_count(&snap), 3);
    menu.screen = Screen::WifiList;
    assert_eq!(menu.item_count(&snap), 4);
}

#[test]
fn main_menu_edges_leave_the_window() {
    let snap = snapshot_with(0, 0);
    let mut menu = Menu::default();
    assert_eq!(menu.move_focus(&snap, -1), Some(-1));
    assert_eq!(menu.focus, 0);
    assert_eq!(menu.move_focus(&snap, 1), None);
    assert_eq!(menu.focus, 1);
    assert_eq!(menu.move_focus(&snap, 1), None);
    assert_eq!(menu.move_focus(&snap, 1), None);
    assert_eq!(menu.focus, 3);
    assert_eq!(menu.move_focus(&snap, 1), Some(1));
    assert_eq!(menu.focus, 3);
}

#[test]
fn list_focus_clamps_instead_of_leaving() {
    let snap = snapshot_with(2, 0);
    let mut menu = Menu { screen: Screen::BtList, focus: 0 };
    assert_eq!(menu.move_focus(&snap, -1), None);
    assert_eq!(menu.focus, 0);
    assert_eq!(menu.move_focus(&snap, 5), None);
    assert_eq!(menu.focus, 2);
}

#[test]
fn huge_focus_moves_as_a_32_bit_row() {
    let snap = snapshot_with(0, 0);
    let mut menu = Menu { screen: Screen::Main, focus: 3_000_000_000 };
    assert_eq!(menu.move_focus(&snap, -1), None);
    assert_eq!(menu.focus, 0);
    let mut menu = Menu { screen: Screen::BtList, focus: 3_000_000_000 };
    assert_eq!(menu.move_focus(&snap, 1), None);
    assert_eq!(menu.focus, 0);
}

#[test]
fn back_from_list_returns_to_main() {
    let mut menu = Menu { screen: Screen::WifiList, focus: 2 };
    assert_eq!(menu.back(), BackResult::Stay);
    assert_eq!(menu, Menu { screen: Screen::Main, focus: 0 });
    assert_eq!(menu.back(), BackResult::LeaveWindow);
    assert_eq!(menu, Menu { screen: Screen::Main, focus: 0 });
}

#[test]
fn select_on_main_menu() {
    let snap = snapshot_with(1, 1);
    let mut menu = Menu::default();
    assert_eq!(menu.select(&snap), Some(Action::ToggleBt));
    assert_eq!(menu.screen, Screen::Main);
    menu.focus = 1;
    assert_eq!(menu.select(&snap), Some(Action::OpenBtList));
    assert_eq!(menu, Menu { screen: Screen::BtList, focus: 0 });
    let mut menu = Menu { screen: Screen::Main, focus: 2 };
    assert_eq!(menu.select(&snap), Some(Action::ToggleWifi));
    menu.focus = 3;
    assert_eq!(menu.select(&snap), Some(Action::OpenWifiList));
    assert_eq!(menu, Menu { screen: Screen::WifiList, focus: 0 });
    let mut menu = Menu { screen: Screen::Main, focus: 7 };
    assert_eq!(menu.select(&snap), None);
}

#[test]
fn select_on_lists() {
    let snap = snapshot_with(2, 1);
    let mut menu = Menu { screen: Screen::BtList, focus: 1 };
    assert_eq!(menu.select(&snap), Some(Action::SelectDevice(1)));
    menu.focus = 2;
    assert_eq!(menu.select(&snap), Some(Action::BtScan));
    let mut menu = Menu { screen: Screen::WifiList, focus: 0 };
    assert_eq!(menu.select(&snap), Some(Action::SelectNetwork(0)));
    menu.focus = 1;
    assert_eq!(menu.select(&snap), Some(Action::WifiScan));
}

#[test]
fn main_rows_reflect_radios() {
    let mut snap = snapshot_with(0, 0);
    snap.bt_powered = true;
    snap.wifi_powered = true;
    snap.wifi_connected = true;
    snap.wifi_ssid = "Garage".to_string();
    let menu = Menu { screen: Screen::Main, focus: 2 };
    let rows = build_items(&menu, &snap);
    assert_eq!(
        rows,
        vec![
            row("Bluetooth", "No headset connected", "ON", false),
            row("Devices", "Pair or connect headset", "", false),
            row("Wi-Fi", "Garage", "ON", true),
            row("Networks", "Join a saved or open network", "", false),
        ]
    );
    let rows = build_items(&Menu::default(), &Snapshot::default());
    assert_eq!(rows[0], row("Bluetooth", "Radio off", "OFF", true));
    assert_eq!(rows[2], row("Wi-Fi", "Radio off", "OFF", false));
}

#[test]
fn list_rows_end_with_scan() {
    let snap = snapshot_with(2, 1);
    let rows = build_items(&Menu { screen: Screen::BtList, focus: 2 }, &snap);
    assert_eq!(rows.len(), 3);
    assert_eq!(rows[0], row("Headset 0", "detail 0", "PAIRED", false));
    assert_eq!(
        rows[2],
        row("Scan for headsets", "Discover nearby Bluetooth devices", "", true)
    );
    let rows = build_items(&Menu { screen: Screen::WifiList, focus: 0 }, &snap);
    assert_eq!(rows[0], row("Net 0", "idle", "OPEN", true));
    assert_eq!(rows[1], row("Rescan networks", "Refresh Wi-Fi scan results", "", false));
}

#[test]
fn apply_paints_placeholders_and_status() {
    let mut ui = Dashboard::new();
    let snap = Snapshot::default();
    apply(&mut ui, &Menu::default(), &snap);
    assert_eq!(ui.conn.bt_device, "—");
    assert_eq!(ui.conn.wifi_ssid, "—");
    assert_eq!(
        ui.conn.status,
        "BlueZ / connman unavailable — connect radios on the device image."
    );
    assert_eq!(ui.conn.items.len(), 4);

    let mut snap = snapshot_with(0, 0);
    snap.available = true;
    snap.bt_device = "Sena".to_string();
    snap.busy = true;
    apply(&mut ui, &Menu { screen: Screen::BtList, focus: 0 }, &snap);
    assert_eq!(ui.conn.status, "");
    assert_eq!(ui.conn.bt_device, "Sena");
    assert_eq!(ui.conn.screen, 1);
    assert!(ui.conn.busy);
}

#[test]
fn idle_and_new_controller() {
    let mut ui = Dashboard::new();
    apply_idle(&mut ui);
    assert_eq!(ui.conn.status, "Starting connectivity…");
    assert_eq!(ui.conn.bt_battery, -1);
    let c = Controller::new();
    assert_eq!(c.menu, Menu::default());
    assert_eq!(c.snap.bt_battery, -1);
    assert!(c.snap.status.is_empty());
    let mut ui = Dashboard::new();
    c.paint(&mut ui);
    assert_eq!(ui.conn.bt_battery, -1);
    assert_eq!(ui.conn.items.len(), 4);
}
