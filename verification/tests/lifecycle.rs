//! Session lifecycle: the end-to-end scenario and the teardown ordering
//! the bridge demands.

use fsr2wgpu::{
    FloatCoords2D, Fsr2Context, Fsr2Exposure, Fsr2QualityMode, Fsr2ReactiveMask,
    Fsr2RenderParameters, Fsr2Texture, Rat, Resolution, TEXTURE_USE_RESOURCE,
};

fn tex(handle: u64, width: u32, height: u32) -> Fsr2Texture {
    Fsr2Texture {
        image: handle,
        view: handle + 1000,
        width,
        height,
        vk_format: 37,
        usage: TEXTURE_USE_RESOURCE,
        aspect_mask: 1,
        format: wgpu::TextureFormat::Rgba8Unorm,
    }
}

fn frame(ctx: &Fsr2Context, frame_index: i32, reset: bool) -> Fsr2RenderParameters {
    let input = Resolution { width: 1920, height: 1080 };
    let offset = ctx.suggested_camera_jitter_offset(input, frame_index);
    Fsr2RenderParameters {
        color: tex(1, input.width, input.height),
        depth: tex(2, input.width, input.height),
        motion_vectors: tex(3, input.width, input.height),
        motion_vector_scale: None,
        exposure: Fsr2Exposure::AutoExposure,
        reactive_mask: Fsr2ReactiveMask::NoMask,
        transparency_and_composition_mask: None,
        output: tex(4, 3840, 2160),
        input_resolution: input,
        sharpness: Rat::new(0, 1),
        frame_delta_time_ms: Rat::new(16, 1),
        reset,
        camera_near: Rat::new(1, 10),
        camera_far: None,
        camera_fov_angle_vertical: Rat::new(1, 1),
        jitter_offset: offset,
        command_list: 7,
    }
}

#[test]
fn two_frame_session() {
    // A session over two frames: the first discards temporal history, the
    // second continues it; both assemble complete dispatch descriptions.
    let ctx = Fsr2Context::new(
        Resolution { width: 1920, height: 1080 },
        Resolution { width: 3840, height: 2160 },
        0,
        1 << 20,
    );
    let suggested = ctx.suggested_input_resolution(Fsr2QualityMode::Performance);
    assert_eq!((suggested.width, suggested.height), (1920, 1080));

    let first = ctx.render(&frame(&ctx, 0, true));
    assert!(first.dispatch.reset);
    assert_eq!(first.barriers.cmd_start().records.len(), 4);

    let second = ctx.render(&frame(&ctx, 1, false));
    assert!(!second.dispatch.reset);
    assert_eq!(second.barriers.cmd_start().records.len(), 4);

    // The two frames jitter differently within one phase cycle.
    let a = first.dispatch.jitter_offset;
    let b = second.dispatch.jitter_offset;
    assert_ne!(
        (a.x.num as i128 * b.x.den as i128, a.y.num as i128 * b.y.den as i128),
        (b.x.num as i128 * a.x.den as i128, b.y.num as i128 * a.y.den as i128)
    );
}

#[test]
fn teardown_waits_out_submitted_work() {
    // Destruction may only happen once no submitted command stream still
    // references a bridged resource: the fence for each submission must be
    // observed first, which drives the in-flight count back to zero.
    let mut ctx = Fsr2Context::new(
        Resolution { width: 1920, height: 1080 },
        Resolution { width: 3840, height: 2160 },
        0,
        1 << 20,
    );
    let _plan = ctx.render(&frame(&ctx, 0, true));
    ctx.mark_submitted();
    let _plan = ctx.render(&frame(&ctx, 1, false));
    ctx.mark_submitted();
    assert_eq!(ctx.frames_in_flight(), 2);

    // First fence signals, then the second: only now is teardown legal.
    ctx.mark_finished();
    assert_eq!(ctx.frames_in_flight(), 1);
    ctx.mark_finished();
    assert_eq!(ctx.frames_in_flight(), 0);
    ctx.destroy();
}

#[test]
fn handles_are_independent_sessions() {
    let mut a = Fsr2Context::new(
        Resolution { width: 960, height: 540 },
        Resolution { width: 1920, height: 1080 },
        0,
        1024,
    );
    let b = Fsr2Context::new(
        Resolution { width: 1280, height: 720 },
        Resolution { width: 2560, height: 1440 },
        0,
        2048,
    );
    a.mark_submitted();
    assert_eq!(a.frames_in_flight(), 1);
    assert_eq!(b.frames_in_flight(), 0);
    a.mark_finished();
    a.destroy();
    b.destroy();
}
