use sigma_racer::sigma::updates::{
    activate_focused, apply_idle, apply_release, check_begin, check_finish, install_requested,
    move_focus, poll_finish, reset_focus, ChannelRelease, UpdatesConfig, UpdatesRequest,
};
use sigma_racer::ui::Dashboard;

fn cfg() -> UpdatesConfig {
    UpdatesConfig::from_settings(
        Some("http://cat.example///".to_string()),
        Some("beta".to_string()),
        Some("1.0.0".to_string()),
    )
}

fn release(version: &str, bundle: &str) -> ChannelRelease {
    ChannelRelease {
        channel: "beta".to_string(),
        version: version.to_string(),
        notes: "fixes".to_string(),
        install: String::new(),
        bundle_url: bundle.to_string(),
    }
}

#[test]
fn settings_defaults_and_trailing_slashes() {
    let c = UpdatesConfig::from_settings(None, None, None);
    assert_eq!(c.base_url, "http://updates.sigma.localtest.me:30080");
    assert_eq!(c.channel, "dev");
    assert_eq!(c.current_version, "0.0.0");
    let c = cfg();
    assert_eq!(c.base_url, "http://cat.example");
    assert_eq!(c.latest_url(), "http://cat.example/v1/channel/beta/latest");
    let c = UpdatesConfig::from_settings(Some("///".to_string()), None, None);
    assert_eq!(c.base_url, "");
}

#[test]
fn idle_and_release_display() {
    let mut ui = Dashboard::new();
    ui.updates.focus = 1;
    ui.updates.status = "old".to_string();
    apply_idle(&mut ui, &cfg());
    assert_eq!(ui.updates.channel, "beta");
    assert_eq!(ui.updates.current_version, "1.0.0");
    assert_eq!(ui.updates.focus, 0);
    assert_eq!(ui.updates.status, "");
    apply_release(&mut ui, &cfg(), &release("1.1.0", ""));
    assert!(ui.updates.available);
    assert_eq!(ui.updates.available_version, "1.1.0");
    assert_eq!(ui.updates.notes, "fixes");
    assert_eq!(ui.updates.status, "Update found — focus Install and press ↓ to apply.");
    apply_release(&mut ui, &cfg(), &release("1.0.0", ""));
    assert!(!ui.updates.available);
    assert_eq!(ui.updates.status, "Already on the latest catalog version.");
}

#[test]
fn focus_moves_between_check_and_install() {
    let mut ui = Dashboard::new();
    assert_eq!(move_focus(&mut ui, -1), Some(-1));
    assert_eq!(move_focus(&mut ui, 1), None);
    assert_eq!(ui.updates.focus, 1);
    assert_eq!(activate_focused(&ui), UpdatesRequest::Install);
    assert_eq!(move_focus(&mut ui, 1), Some(1));
    assert_eq!(move_focus(&mut ui, -1), None);
    assert_eq!(ui.updates.focus, 0);
    assert_eq!(activate_focused(&ui), UpdatesRequest::Check);
    ui.updates.focus = 1;
    reset_focus(&mut ui);
    assert_eq!(ui.updates.focus, 0);
}

#[test]
fn check_flow_success_and_failure() {
    let mut ui = Dashboard::new();
    let mut last = None;
    assert!(check_begin(&mut ui));
    assert!(ui.updates.busy);
    assert_eq!(ui.updates.status, "Searching catalog…");
    assert!(!check_begin(&mut ui));
    check_finish(&mut ui, &cfg(), &mut last, Ok(release("2.0.0", "")));
    assert!(!ui.updates.busy);
    assert!(ui.updates.available);
    assert_eq!(ui.updates.focus, 1);
    assert_eq!(last.as_ref().unwrap().version, "2.0.0");
    check_begin(&mut ui);
    check_finish(&mut ui, &cfg(), &mut last, Err("updates fetch: offline".to_string()));
    assert_eq!(ui.updates.status, "updates fetch: offline");
    assert!(!ui.updates.available);
    assert!(!ui.updates.busy);
    assert_eq!(last.as_ref().unwrap().version, "2.0.0");
}

#[test]
fn poll_only_records_successes() {
    let mut ui = Dashboard::new();
    let mut last = None;
    poll_finish(&mut ui, &cfg(), &mut last, Err("down".to_string()));
    assert!(last.is_none());
    assert_eq!(ui.updates.status, "");
    poll_finish(&mut ui, &cfg(), &mut last, Ok(release("1.0.0", "")));
    assert_eq!(ui.updates.status, "Already on the latest catalog version.");
    assert!(last.is_some());
}

#[test]
fn install_needs_a_found_update() {
    let mut ui = Dashboard::new();
    install_requested(&mut ui, &cfg(), &None);
    assert_eq!(ui.updates.status, "No update to install — run Check for Updates first.");
    ui.updates.available = true;
    ui.updates.available_version = "1.2.0".to_string();
    install_requested(&mut ui, &cfg(), &None);
    assert_eq!(
        ui.updates.status,
        "Applying 1.2.0 from http://cat.example/v1/channel/beta/bundle/1.2.0.raucb — RAUC install hooks next; reboot after apply."
    );
    assert!(!ui.updates.busy);
    install_requested(&mut ui, &cfg(), &Some(release("1.2.0", "https://b/x.raucb")));
    assert_eq!(
        ui.updates.status,
        "Applying 1.2.0 from https://b/x.raucb — RAUC install hooks next; reboot after apply."
    );
    ui.updates.busy = true;
    install_requested(&mut ui, &cfg(), &None);
    assert_eq!(ui.updates.status, "No update to install — run Check for Updates first.");
}

#[test]
fn found_update_installs_right_away() {
    let mut ui = Dashboard::new();
    let mut last = None;
    check_begin(&mut ui);
    check_finish(&mut ui, &cfg(), &mut last, Ok(release("3.0.0", "")));
    assert_eq!(activate_focused(&ui), UpdatesRequest::Install);
    install_requested(&mut ui, &cfg(), &last);
    assert!(ui.updates.status.starts_with("Applying 3.0.0 from "));
}
