//! Tests of the connector and display-mode selection rules.

use kms_pipeline::{ConnectorCandidate, DisplayMode};

fn mode(width: u16, height: u16, vrefresh: u32) -> DisplayMode {
    DisplayMode { width, height, vrefresh }
}

#[test]
fn no_modes_selects_none() {
    let modes: Vec<DisplayMode> = Vec::new();
    assert_eq!(kms_pipeline::best_mode(&modes), None);
}

#[test]
fn larger_area_wins() {
    let modes = vec![mode(1280, 720, 120), mode(1920, 1080, 60), mode(640, 480, 144)];
    assert_eq!(kms_pipeline::best_mode(&modes), Some(1));
}

#[test]
fn equal_area_higher_refresh_wins() {
    let modes = vec![mode(1920, 1080, 60), mode(1920, 1080, 75), mode(1920, 1080, 50)];
    assert_eq!(kms_pipeline::best_mode(&modes), Some(1));
}

#[test]
fn exact_tie_keeps_the_earlier_mode() {
    let modes = vec![mode(800, 600, 60), mode(1024, 768, 60), mode(1024, 768, 60)];
    assert_eq!(kms_pipeline::best_mode(&modes), Some(1));
}

#[test]
fn single_mode_is_chosen() {
    let modes = vec![mode(320, 240, 30)];
    assert_eq!(kms_pipeline::best_mode(&modes), Some(0));
}

#[test]
fn no_usable_connector_selects_none() {
    let cands = vec![
        ConnectorCandidate { connected: false, width_mm: 600, height_mm: 340 },
        ConnectorCandidate { connected: true, width_mm: 0, height_mm: 340 },
        ConnectorCandidate { connected: true, width_mm: 600, height_mm: 0 },
    ];
    assert_eq!(kms_pipeline::first_usable_connector(&cands), None);
}

#[test]
fn first_usable_connector_is_chosen() {
    let cands = vec![
        ConnectorCandidate { connected: false, width_mm: 600, height_mm: 340 },
        ConnectorCandidate { connected: true, width_mm: 520, height_mm: 290 },
        ConnectorCandidate { connected: true, width_mm: 600, height_mm: 340 },
    ];
    assert_eq!(kms_pipeline::first_usable_connector(&cands), Some(1));
}
