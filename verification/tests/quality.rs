//! Quality-mode scaling of the display resolution.

use fsr2wgpu::{Fsr2Context, Fsr2QualityMode, Resolution};

fn session() -> Fsr2Context {
    Fsr2Context::new(
        Resolution { width: 1920, height: 1080 },
        Resolution { width: 3840, height: 2160 },
        0,
        0,
    )
}

#[test]
fn suggested_input_resolution_native() {
    let ctx = session();
    let r = ctx.suggested_input_resolution(Fsr2QualityMode::Native);
    assert_eq!((r.width, r.height), (3840, 2160));
}

#[test]
fn suggested_input_resolution_quality() {
    let ctx = session();
    let r = ctx.suggested_input_resolution(Fsr2QualityMode::Quality);
    assert_eq!((r.width, r.height), (2560, 1440));
}

#[test]
fn suggested_input_resolution_balanced() {
    // 3840 / 1.7 = 2258.82...; 2160 / 1.7 = 1270.58... — floored.
    let ctx = session();
    let r = ctx.suggested_input_resolution(Fsr2QualityMode::Balanced);
    assert_eq!((r.width, r.height), (2258, 1270));
}

#[test]
fn suggested_input_resolution_performance() {
    let ctx = session();
    let r = ctx.suggested_input_resolution(Fsr2QualityMode::Performance);
    assert_eq!((r.width, r.height), (1920, 1080));
}

#[test]
fn suggested_input_resolution_ultra_performance() {
    let ctx = session();
    let r = ctx.suggested_input_resolution(Fsr2QualityMode::UltraPerformance);
    assert_eq!((r.width, r.height), (1280, 720));
}

#[test]
fn suggested_area_never_exceeds_display_area() {
    let ctx = session();
    let display = ctx.upscaled_resolution();
    let display_area = display.width as u64 * display.height as u64;
    let modes = [
        Fsr2QualityMode::Native,
        Fsr2QualityMode::Quality,
        Fsr2QualityMode::Balanced,
        Fsr2QualityMode::Performance,
        Fsr2QualityMode::UltraPerformance,
    ];
    for mode in modes {
        let r = ctx.suggested_input_resolution(mode);
        assert!(r.width as u64 * r.height as u64 <= display_area);
        assert!(r.width <= display.width);
        assert!(r.height <= display.height);
    }
}

#[test]
fn suggested_input_resolution_odd_display() {
    let ctx = Fsr2Context::new(
        Resolution { width: 640, height: 480 },
        Resolution { width: 1337, height: 999 },
        0,
        0,
    );
    // 1337 * 2 / 3 = 891.33 -> 891; 999 * 2 / 3 = 666.
    let r = ctx.suggested_input_resolution(Fsr2QualityMode::Quality);
    assert_eq!((r.width, r.height), (891, 666));
}

#[test]
fn session_accessors_round_trip() {
    let ctx = Fsr2Context::new(
        Resolution { width: 100, height: 200 },
        Resolution { width: 300, height: 400 },
        42,
        4096,
    );
    assert_eq!(ctx.max_input_resolution().width, 100);
    assert_eq!(ctx.max_input_resolution().height, 200);
    assert_eq!(ctx.upscaled_resolution().width, 300);
    assert_eq!(ctx.upscaled_resolution().height, 400);
    assert_eq!(ctx.initialization_flags(), 42);
    assert_eq!(ctx.scratch_size(), 4096);
    assert_eq!(ctx.frames_in_flight(), 0);
}
