use sigma_racer::instrumentation::dashboard::{set_speed_readout, speed_digits};
use sigma_racer::instrumentation::display::{self as first_display, WindowAction};
use sigma_racer::sigma::camera::toggle_feed;
use sigma_racer::sigma::display::{kiosk_enabled, panel_size, window_plan, DisplayConfig};
use sigma_racer::sigma::theme::{mode_from_settings, DisplayMode};
use sigma_racer::ui::Dashboard;

fn digits(speed: i32) -> (String, String, String) {
    speed_digits(speed)
}

#[test]
fn speed_cells() {
    assert_eq!(digits(0), (String::new(), "0".to_string(), String::new()));
    assert_eq!(digits(7), (String::new(), String::new(), "7".to_string()));
    assert_eq!(digits(42), (String::new(), "4".to_string(), "2".to_string()));
    assert_eq!(digits(100), ("1".to_string(), "0".to_string(), "0".to_string()));
    assert_eq!(digits(305), ("3".to_string(), "0".to_string(), "5".to_string()));
    assert_eq!(digits(999), ("9".to_string(), "9".to_string(), "9".to_string()));
    assert_eq!(digits(1234), ("9".to_string(), "9".to_string(), "9".to_string()));
    assert_eq!(digits(-5), (String::new(), "0".to_string(), String::new()));
}

#[test]
fn cells_spell_the_speed() {
    for s in 0..=999 {
        let (h, t, o) = digits(s);
        assert_eq!(format!("{h}{t}{o}"), s.to_string());
    }
}

#[test]
fn speed_readout_sets_value_and_cells() {
    let mut ui = Dashboard::new();
    set_speed_readout(&mut ui, 88);
    assert_eq!(ui.speed.speed, 88);
    assert_eq!(ui.speed.hundreds, "");
    assert_eq!(ui.speed.tens, "8");
    assert_eq!(ui.speed.ones, "8");
}

#[test]
fn display_modes_parse() {
    assert_eq!(DisplayMode::parse("day"), DisplayMode::Day);
    assert_eq!(DisplayMode::parse("  Bright\n"), DisplayMode::Day);
    assert_eq!(DisplayMode::parse("DAYLIGHT"), DisplayMode::Day);
    assert_eq!(DisplayMode::parse("Twilight"), DisplayMode::Dusk);
    assert_eq!(DisplayMode::parse("std"), DisplayMode::Dusk);
    assert_eq!(DisplayMode::parse("default"), DisplayMode::Dusk);
    assert_eq!(DisplayMode::parse("stealth"), DisplayMode::Night);
    assert_eq!(DisplayMode::parse(""), DisplayMode::Night);
    assert_eq!(DisplayMode::parse("d ay"), DisplayMode::Night);
    for m in [DisplayMode::Day, DisplayMode::Dusk, DisplayMode::Night] {
        assert_eq!(DisplayMode::parse(m.as_str()), m);
    }
    assert_eq!(DisplayMode::Dusk.as_str(), "dusk");
}

#[test]
fn display_mode_settings_precedence() {
    assert_eq!(mode_from_settings(None, None), DisplayMode::Night);
    assert_eq!(mode_from_settings(None, Some("day")), DisplayMode::Day);
    assert_eq!(mode_from_settings(Some("dusk"), Some("day")), DisplayMode::Dusk);
    assert_eq!(mode_from_settings(Some("nonsense"), Some("day")), DisplayMode::Night);
}

#[test]
fn display_presets() {
    assert_eq!(DisplayConfig::virt_panel().fixed_size, Some((800, 480)));
    assert_eq!(DisplayConfig::testbed().fixed_size, Some((800, 576)));
    assert_eq!(DisplayConfig::testbed_virt_panel().fixed_size, Some((800, 576)));
    assert_eq!(DisplayConfig::desktop().fixed_size, None);
    assert_eq!(DisplayConfig::embedded(true).fixed_size, Some((800, 480)));
    assert!(DisplayConfig::embedded(true).default_kiosk);
    assert_eq!(first_display::DisplayConfig::virt_panel().fixed_size, Some((800, 480)));
    assert_eq!(first_display::DisplayConfig::desktop().fixed_size, None);
    assert_eq!(first_display::DisplayConfig::embedded(true).fixed_size, None);
}

#[test]
fn kiosk_setting() {
    let c = DisplayConfig::embedded(true);
    assert!(kiosk_enabled(&c, None));
    assert!(kiosk_enabled(&c, Some("1")));
    assert!(kiosk_enabled(&c, Some("TrUe")));
    assert!(!kiosk_enabled(&c, Some("yes")));
    assert!(!kiosk_enabled(&c, Some("")));
    assert!(!kiosk_enabled(&DisplayConfig::desktop(), None));
}

#[test]
fn window_policy() {
    let testbed = DisplayConfig::testbed();
    assert_eq!(window_plan(&testbed, None, None, None), None);
    assert_eq!(window_plan(&testbed, None, Some("1"), None), Some(false));
    assert_eq!(window_plan(&testbed, Some("true"), None, None), Some(false));
    let embedded = DisplayConfig::embedded(true);
    assert_eq!(window_plan(&embedded, None, None, None), Some(false));
    assert_eq!(window_plan(&embedded, Some("0"), None, None), None);
    assert_eq!(window_plan(&testbed, None, None, Some((1024, 600))), Some(false));
    let desk = DisplayConfig::desktop();
    assert_eq!(window_plan(&desk, None, None, None), None);
    assert_eq!(window_plan(&desk, Some("1"), None, None), Some(true));
    assert_eq!(window_plan(&desk, None, None, Some((10, 10))), Some(false));
}

#[test]
fn first_generation_window_policy() {
    let c = first_display::DisplayConfig::virt_panel();
    assert_eq!(first_display::window_action(&c, None, Some("1")), WindowAction::Pin(800, 480));
    assert_eq!(
        first_display::window_action(&c, Some((1024, 768)), None),
        WindowAction::Pin(1024, 768)
    );
    let k = first_display::DisplayConfig::embedded(true);
    assert_eq!(first_display::window_action(&k, None, None), WindowAction::Fullscreen);
    assert_eq!(first_display::window_action(&k, None, Some("0")), WindowAction::Leave);
}

#[test]
fn panel_size_settings() {
    assert_eq!(panel_size(Some("1024"), Some("600")), Some((1024, 600)));
    assert_eq!(panel_size(Some("+800"), Some("480")), Some((800, 480)));
    assert_eq!(panel_size(Some("0"), Some("480")), None);
    assert_eq!(panel_size(Some("800"), None), None);
    assert_eq!(panel_size(Some(" 800"), Some("480")), None);
    assert_eq!(panel_size(Some("-800"), Some("480")), None);
    assert_eq!(panel_size(Some("+"), Some("480")), None);
    assert_eq!(panel_size(Some("4294967295"), Some("1")), Some((4294967295, 1)));
    assert_eq!(panel_size(Some("4294967296"), Some("1")), None);
    assert_eq!(panel_size(Some("12a"), Some("1")), None);
}

#[test]
fn camera_feed_toggles() {
    let mut ui = Dashboard::new();
    toggle_feed(&mut ui);
    assert!(ui.camera_front);
    toggle_feed(&mut ui);
    assert!(!ui.camera_front);
}
