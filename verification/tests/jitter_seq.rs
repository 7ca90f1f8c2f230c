//! The deterministic jitter sequence: exact values, purity, periodicity,
//! and the projection translation derived from it.

use fsr2wgpu::{
    jitter_offset, jitter_phase_count, jitter_projection_translation, FloatCoords2D, Fsr2Context,
    Rat, Resolution,
};
use glam::{Mat4, Vec3};

fn rat_f32(r: Rat) -> f32 {
    r.num as f32 / r.den as f32
}

#[test]
fn phase_count_follows_squared_ratio() {
    // 8 * (3840/1920)^2 = 32; 8 * (3840/960)^2 = 128; 8 * 1^2 = 8.
    assert_eq!(jitter_phase_count(1920, 3840), 32);
    assert_eq!(jitter_phase_count(960, 3840), 128);
    assert_eq!(jitter_phase_count(3840, 3840), 8);
}

#[test]
fn jitter_offset_exact_first_phases() {
    // Phase 1: halton(1,2) = 1/2, halton(1,3) = 1/3.
    let o0 = jitter_offset(0, 32);
    assert_eq!((o0.x.num, o0.x.den), (0, 4));
    assert_eq!((o0.y.num, o0.y.den), (-1, 6));
    // Phase 2: halton(2,2) = 1/4, halton(2,3) = 2/3.
    let o1 = jitter_offset(1, 32);
    assert_eq!((o1.x.num, o1.x.den), (-2, 8));
    assert_eq!((o1.y.num, o1.y.den), (1, 6));
}

#[test]
fn jitter_offset_is_pure() {
    for frame in [0, 1, 2, 17, 100, 12345] {
        let a = jitter_offset(frame, 128);
        let b = jitter_offset(frame, 128);
        assert_eq!((a.x.num, a.x.den, a.y.num, a.y.den), (b.x.num, b.x.den, b.y.num, b.y.den));
    }
}

#[test]
fn jitter_offset_periodic_in_phase_count() {
    let phase = jitter_phase_count(960, 3840);
    assert_eq!(phase, 128);
    for frame in 0..phase {
        let a = jitter_offset(frame, phase);
        let b = jitter_offset(frame + phase, phase);
        let c = jitter_offset(frame + 3 * phase, phase);
        assert_eq!((a.x.num, a.x.den, a.y.num, a.y.den), (b.x.num, b.x.den, b.y.num, b.y.den));
        assert_eq!((a.x.num, a.x.den, a.y.num, a.y.den), (c.x.num, c.x.den, c.y.num, c.y.den));
    }
}

#[test]
fn jitter_offset_is_sub_pixel() {
    for frame in 0..512 {
        let o = jitter_offset(frame, 128);
        assert!(-o.x.den <= 2 * o.x.num && 2 * o.x.num < o.x.den);
        assert!(-o.y.den <= 2 * o.y.num && 2 * o.y.num < o.y.den);
    }
}

#[test]
fn context_jitter_offset_uses_session_ratio() {
    let ctx = Fsr2Context::new(
        Resolution { width: 1920, height: 1080 },
        Resolution { width: 3840, height: 2160 },
        0,
        0,
    );
    let direct = jitter_offset(5, jitter_phase_count(1920, 3840));
    let through = ctx.suggested_camera_jitter_offset(
        Resolution { width: 1920, height: 1080 },
        5,
    );
    assert_eq!((direct.x.num, direct.x.den), (through.x.num, through.x.den));
    assert_eq!((direct.y.num, direct.y.den), (through.y.num, through.y.den));
}

#[test]
fn projection_translation_is_scaled_and_y_negated() {
    let offset = FloatCoords2D { x: Rat::new(1, 2), y: Rat::new(1, 3) };
    let t = jitter_projection_translation(
        &offset,
        Resolution { width: 1920, height: 1080 },
    );
    assert_eq!((t.x.num, t.x.den), (2, 3840));
    assert_eq!((t.y.num, t.y.den), (-2, 3240));
}

#[test]
fn jitter_translation_applied_twice_double_counts() {
    let ctx = Fsr2Context::new(
        Resolution { width: 960, height: 540 },
        Resolution { width: 3840, height: 2160 },
        0,
        0,
    );
    let input = Resolution { width: 960, height: 540 };
    let (_offset, translation) = ctx.jitter_camera_projection(input, 7);
    let tx = rat_f32(translation.x);
    let ty = rat_f32(translation.y);

    let jitter_once = Mat4::from_translation(Vec3::new(tx, ty, 0.0));
    let jitter_double = Mat4::from_translation(Vec3::new(2.0 * tx, 2.0 * ty, 0.0));
    // A representative perspective projection (infinite reversed-z style).
    let projection = Mat4::from_cols_array(&[
        1.357995, 0.0, 0.0, 0.0, 0.0, 2.414213, 0.0, 0.0, 0.0, 0.0, 0.0, -1.0, 0.0, 0.0, 0.1, 0.0,
    ]);

    let twice = jitter_once * (jitter_once * projection);
    let direct = jitter_double * projection;

    let a = twice.to_cols_array();
    let b = direct.to_cols_array();
    for i in 0..16 {
        assert!((a[i] - b[i]).abs() < 1e-5, "entry {i}: {} vs {}", a[i], b[i]);
    }
    // And it is not idempotent: applying twice differs from applying once.
    let once = (jitter_once * projection).to_cols_array();
    assert!((0..16).any(|i| (a[i] - once[i]).abs() > 1e-7));
}
