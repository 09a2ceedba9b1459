use sigma_racer::sigma::ota::{describe, in_flight, status_from_text};

#[test]
fn describes_statuses() {
    assert!(describe("idle").is_none());
    assert_eq!(describe("downloading").unwrap(), "Downloading update…");
    assert!(
        describe("success:1.1.0 — reboot to apply")
            .unwrap()
            .contains("1.1.0")
    );
    assert!(
        describe("error:download failed")
            .unwrap()
            .contains("failed")
    );
    assert!(in_flight("installing"));
    assert!(!in_flight("success:1.1.0"));
}

#[test]
fn describes_each_status_exactly() {
    assert_eq!(
        describe("installing").unwrap(),
        "Installing update — do not power off."
    );
    assert_eq!(describe("success:2.0.1").unwrap(), "Installed 2.0.1.");
    assert_eq!(describe("error:disk full").unwrap(), "Update failed: disk full");
    assert_eq!(describe("success:").unwrap(), "Installed .");
    assert!(describe("Downloading").is_none());
    assert!(describe("").is_none());
    assert!(describe("weird").is_none());
}

#[test]
fn in_flight_only_while_downloading_or_installing() {
    assert!(in_flight("downloading"));
    assert!(!in_flight("idle"));
    assert!(!in_flight("error:x"));
    assert!(!in_flight(" downloading"));
}

#[test]
fn status_file_text_is_trimmed() {
    assert_eq!(status_from_text("  installing\n").unwrap(), "installing");
    assert_eq!(status_from_text("idle").unwrap(), "idle");
    assert!(status_from_text(" \n\t ").is_none());
    assert!(status_from_text("").is_none());
}
