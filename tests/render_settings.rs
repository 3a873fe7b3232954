use rayt::progress::{Progress, REPORT_EVERY};
use rayt::settings::{RenderSettings, SettingsError};

#[test]
fn standard_settings() {
    let s = RenderSettings::standard();
    assert_eq!((s.width, s.height), (640, 360));
    assert_eq!(s.samples_per_pixel, 32);
    assert_eq!(s.max_bounces, 50);
    assert_eq!(s.pixel_count(), 230400);
}

#[test]
fn settings_errors() {
    assert_eq!(RenderSettings::new(0, 10, 1, 5), Err(SettingsError::ZeroWidth));
    assert_eq!(RenderSettings::new(10, 0, 1, 5), Err(SettingsError::ZeroHeight));
    assert_eq!(RenderSettings::new(10, 10, 0, 5), Err(SettingsError::ZeroSamples));
    assert_eq!(RenderSettings::new(0, 0, 0, 5), Err(SettingsError::ZeroWidth));
    let s = RenderSettings::new(4, 3, 2, 0).unwrap();
    assert_eq!((s.width, s.height, s.samples_per_pixel, s.max_bounces), (4, 3, 2, 0));
}

#[test]
fn too_large_frame() {
    let r = RenderSettings::new(u32::MAX, u32::MAX, 1, 1);
    assert_eq!(r, Err(SettingsError::TooLarge));
}

#[test]
fn pixel_positions_and_row_flip() {
    let s = RenderSettings::new(4, 3, 1, 1).unwrap();
    assert_eq!(s.pixel_position(0), (0, 0));
    assert_eq!(s.pixel_position(3), (3, 0));
    assert_eq!(s.pixel_position(4), (0, 1));
    assert_eq!(s.pixel_position(11), (3, 2));
    assert_eq!(s.screen_row(0), 2);
    assert_eq!(s.screen_row(2), 0);
}

#[test]
fn progress_reports_every_thousand() {
    let mut p = Progress::new(2500);
    let mut reports = 0;
    for _ in 0..2500 {
        if p.advance(1) {
            reports += 1;
        }
    }
    assert_eq!(reports, 2);
    assert_eq!(p.done, 2500);
    assert_eq!(p.total, 2500);
    assert_eq!(REPORT_EVERY, 1000);
    assert!(p.advance(500));
}
