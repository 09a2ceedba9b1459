use sigma_racer::sigma::connectivity::{Action, Menu, Screen};
use sigma_racer::sigma::updates::UpdatesRequest;
use sigma_racer::testbed::connectivity_sim::{init, run_sim_action, sim_snapshot, NavState};
use sigma_racer::ui::Dashboard;

#[test]
fn simulated_radios_start_state() {
    let s = sim_snapshot();
    assert!(s.bt_powered && s.bt_connected);
    assert_eq!(s.bt_device, "Cardo Packtalk");
    assert_eq!(s.bt_battery, 78);
    assert_eq!(s.devices.len(), 2);
    assert_eq!(s.networks.len(), 3);
    assert_eq!(s.networks[2].badge, "SECURE");
    assert!(s.available);
}

#[test]
fn toggling_radios() {
    let mut s = sim_snapshot();
    run_sim_action(Action::ToggleBt, &mut s);
    assert!(!s.bt_powered && !s.bt_connected);
    assert_eq!(s.status, "Bluetooth off");
    run_sim_action(Action::ToggleBt, &mut s);
    assert!(s.bt_powered && !s.bt_connected);
    assert_eq!(s.status, "Bluetooth on");
    run_sim_action(Action::ToggleWifi, &mut s);
    assert!(s.wifi_powered);
    assert_eq!(s.status, "Wi-Fi on");
    run_sim_action(Action::ToggleWifi, &mut s);
    assert!(!s.wifi_powered && !s.wifi_connected);
    assert_eq!(s.wifi_ssid, "");
    assert_eq!(s.status, "Wi-Fi off");
}

#[test]
fn scans_report_completion() {
    let mut s = sim_snapshot();
    run_sim_action(Action::BtScan, &mut s);
    assert_eq!(s.status, "Scan complete (simulated)");
    run_sim_action(Action::OpenWifiList, &mut s);
    assert_eq!(s.status, "Wi-Fi scan complete (simulated)");
}

#[test]
fn connecting_a_device_releases_the_other() {
    let mut s = sim_snapshot();
    run_sim_action(Action::SelectDevice(1), &mut s);
    assert!(!s.devices[0].connected);
    assert_eq!(s.devices[0].badge, "PAIRED");
    assert!(s.devices[1].connected && s.devices[1].paired);
    assert_eq!(s.devices[1].badge, "CONNECTED");
    assert_eq!(s.bt_device, "Sena 50S");
    assert_eq!(s.status, "Connected Sena 50S");
    run_sim_action(Action::SelectDevice(1), &mut s);
    assert!(!s.devices[1].connected);
    assert!(!s.bt_connected);
    assert_eq!(s.status, "Disconnected Sena 50S");
    let before = s.status.clone();
    run_sim_action(Action::SelectDevice(9), &mut s);
    assert_eq!(s.status, before);
}

#[test]
fn joining_networks() {
    let mut s = sim_snapshot();
    run_sim_action(Action::SelectNetwork(2), &mut s);
    assert_eq!(s.status, "Password required — provision with connmanctl first");
    assert!(!s.wifi_connected);
    run_sim_action(Action::SelectNetwork(0), &mut s);
    assert!(s.networks[0].connected);
    assert_eq!(s.networks[0].badge, "ONLINE");
    assert!(s.wifi_powered && s.wifi_connected);
    assert_eq!(s.wifi_ssid, "Garage-AP");
    run_sim_action(Action::SelectNetwork(1), &mut s);
    assert!(!s.networks[0].connected);
    assert_eq!(s.networks[0].badge, "SAVED");
    assert_eq!(s.networks[1].badge, "ONLINE");
    assert_eq!(s.status, "Connected TrackDay-Guest");
    run_sim_action(Action::SelectNetwork(1), &mut s);
    assert_eq!(s.networks[1].badge, "OPEN");
    assert!(!s.wifi_connected);
    assert_eq!(s.wifi_ssid, "");
    assert_eq!(s.status, "Disconnected TrackDay-Guest");
}

#[test]
fn at_most_one_connection_after_any_action() {
    let actions = [
        Action::SelectDevice(1),
        Action::SelectDevice(0),
        Action::SelectNetwork(0),
        Action::SelectNetwork(1),
        Action::ToggleBt,
        Action::SelectDevice(1),
    ];
    let mut s = sim_snapshot();
    for a in actions {
        run_sim_action(a, &mut s);
        assert!(s.devices.iter().filter(|d| d.connected).count() <= 1);
        assert!(s.networks.iter().filter(|n| n.connected).count() <= 1);
    }
}

#[test]
fn default_nav_state() {
    let nav = NavState::default();
    assert_eq!(nav.window, 0);
    assert_eq!(nav.ctrl.menu, Menu::default());
    assert_eq!(nav.ctrl.snap.status, "Simulated radios (testbed)");
    let mut ui = Dashboard::new();
    init(&mut ui, &nav);
    assert_eq!(ui.conn.bt_device, "Cardo Packtalk");
    assert_eq!(ui.conn.status, "Simulated radios (testbed)");
}

#[test]
fn ring_of_windows_when_stopped() {
    let mut nav = NavState::default();
    let mut ui = Dashboard::new();
    nav.nav_prev(&mut ui, true);
    assert_eq!(nav.window, 9);
    assert_eq!(ui.current_window, 9);
    nav.nav_next(&mut ui, true);
    assert_eq!(nav.window, 9);
    assert_eq!(ui.updates.focus, 1);
    nav.window = 3;
    nav.nav_next(&mut ui, true);
    assert_eq!(nav.window, 4);
    assert!(ui.conn.items.is_empty());
    nav.nav_next(&mut ui, true);
    assert_eq!(nav.window, 5);
    assert_eq!(ui.conn.items.len(), 4);
    nav.nav_prev(&mut ui, true);
    assert_eq!(nav.window, 4);
}

#[test]
fn moving_keeps_to_the_left_panel() {
    let mut nav = NavState::default();
    let mut ui = Dashboard::new();
    nav.window = 7;
    nav.nav_next(&mut ui, false);
    assert_eq!(nav.window, 0);
    nav.nav_prev(&mut ui, false);
    assert_eq!(nav.window, 4);
    nav.nav_next(&mut ui, false);
    assert_eq!(nav.window, 0);
    nav.window = 5;
    nav.nav_next(&mut ui, false);
    assert_eq!(nav.window, 5);
    nav.nav_prev(&mut ui, false);
    nav.nav_prev(&mut ui, false);
    assert_eq!(nav.window, 4);
}

#[test]
fn connectivity_window_moves_focus_then_leaves() {
    let mut nav = NavState::default();
    let mut ui = Dashboard::new();
    nav.window = 5;
    nav.nav_next(&mut ui, true);
    assert_eq!(nav.window, 5);
    assert_eq!(nav.ctrl.menu.focus, 1);
    assert!(ui.conn.items[1].focused);
    nav.nav_next(&mut ui, true);
    nav.nav_next(&mut ui, true);
    nav.nav_next(&mut ui, true);
    assert_eq!(nav.window, 6);
    assert_eq!(nav.ctrl.menu, Menu::default());
}

#[test]
fn select_and_back_in_connectivity() {
    let mut nav = NavState::default();
    let mut ui = Dashboard::new();
    nav.window = 5;
    nav.ctrl.menu.focus = 1;
    assert_eq!(nav.nav_select(&mut ui), None);
    assert_eq!(nav.ctrl.menu.screen, Screen::BtList);
    assert_eq!(nav.ctrl.snap.status, "Scan complete (simulated)");
    assert_eq!(ui.conn.items.len(), 3);
    nav.nav_back(&mut ui);
    assert_eq!(nav.window, 5);
    assert_eq!(nav.ctrl.menu, Menu::default());
    nav.nav_back(&mut ui);
    assert_eq!(nav.window, 0);
    assert_eq!(ui.current_window, 0);
}

#[test]
fn updates_window_focus_and_select() {
    let mut nav = NavState::default();
    let mut ui = Dashboard::new();
    nav.window = 9;
    assert_eq!(nav.nav_select(&mut ui), Some(UpdatesRequest::Check));
    nav.nav_next(&mut ui, true);
    assert_eq!(ui.updates.focus, 1);
    assert_eq!(nav.window, 9);
    assert_eq!(nav.nav_select(&mut ui), Some(UpdatesRequest::Install));
    nav.nav_next(&mut ui, true);
    assert_eq!(nav.window, 9);
    assert_eq!(ui.updates.focus, 0);
    nav.window = 9;
    ui.updates.focus = 1;
    nav.nav_back(&mut ui);
    assert_eq!(nav.window, 0);
    assert_eq!(ui.updates.focus, 0);
}

#[test]
fn camera_window_select_flips_feed() {
    let mut nav = NavState::default();
    let mut ui = Dashboard::new();
    nav.window = 4;
    assert_eq!(nav.nav_select(&mut ui), None);
    assert!(ui.camera_front);
    assert_eq!(nav.nav_select(&mut ui), None);
    assert!(!ui.camera_front);
}

#[test]
fn plain_window_select_does_nothing() {
    let mut nav = NavState::default();
    let mut ui = Dashboard::new();
    nav.window = 2;
    assert_eq!(nav.nav_select(&mut ui), None);
    assert!(!ui.camera_front);
}

#[test]
fn paint_sets_window_and_connectivity() {
    let mut nav = NavState::default();
    let mut ui = Dashboard::new();
    nav.window = 3;
    nav.paint(&mut ui);
    assert_eq!(ui.current_window, 3);
    assert_eq!(ui.conn.items.len(), 4);
}
