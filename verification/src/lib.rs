//! Bridge between a managed GPU API and a native temporal upscaling engine.
//!
//! The library owns the logical side of the bridge: it maps texture bindings
//! to the raw resource descriptors the native engine expects, computes the
//! pipeline barriers that must surround one upscaling dispatch, assembles the
//! per-frame dispatch description, and tracks the lifecycle of the engine
//! context. The unverifiable edges (foreign calls into the native engine,
//! raw handle extraction from the graphics backend) live outside, in a thin
//! shell that hands this library plain values and carries its decisions out.

pub mod barrier;
pub mod fsr;
pub mod jitter;
pub mod rat;

pub use crate::barrier::{
    lemma_barriers_symmetric, spec_barrier_access_mask, spec_barrier_stage_mask, spec_layout_for,
    spec_mirror, BarrierBatch, BarrierRecord, Barriers, TEXTURE_USE_COLOR_TARGET,
    TEXTURE_USE_COPY_DST, TEXTURE_USE_COPY_SRC, TEXTURE_USE_DEPTH_STENCIL_READ,
    TEXTURE_USE_DEPTH_STENCIL_WRITE, TEXTURE_USE_PRESENT, TEXTURE_USE_RESOURCE,
    TEXTURE_USE_STORAGE_ATOMIC, TEXTURE_USE_STORAGE_READ_ONLY, TEXTURE_USE_STORAGE_READ_WRITE,
    TEXTURE_USE_STORAGE_WRITE_ONLY, TEXTURE_USE_UNINITIALIZED, VK_ACCESS_SHADER_READ,
    VK_IMAGE_LAYOUT_GENERAL, VK_IMAGE_LAYOUT_SHADER_READ_ONLY_OPTIMAL,
    VK_PIPELINE_STAGE_COMPUTE_SHADER,
};
pub use crate::fsr::{
    ffx_check_result, is_ffx_status, spec_area, spec_ffx_error, spec_null_descriptor,
    spec_scaled_dim, scale_factor_den, scale_factor_num, DeviceError, FloatCoords2D, Fsr2Error,
    Fsr2Exposure, Fsr2QualityMode, Fsr2ReactiveMask, Fsr2ResourceDescriptor, Fsr2Texture,
    Fsr2WgpuError, Resolution, FFX_RESOURCE_STATE_COMPUTE_READ, FFX_RESOURCE_STATE_GENERIC_READ,
    FFX_RESOURCE_STATE_UNORDERED_ACCESS, FSR2_FLAG_AUTO_EXPOSURE, FSR2_FLAG_DYNAMIC_RESOLUTION,
    FSR2_FLAG_HIGH_DYNAMIC_RANGE, FSR2_FLAG_INFINITE_DEPTH, FSR2_FLAG_INVERTED_DEPTH, FFX_OK,
};
pub use crate::jitter::{
    jitter_offset, jitter_phase_count, jitter_projection_translation,
    lemma_jitter_sequence_periodic, lemma_jitter_translation_composes, spec_halton,
    spec_jitter_offset_x, spec_jitter_offset_y, spec_phase_count, spec_sub_half,
};
pub use crate::rat::{frac_add, frac_eq, frac_scale, Frac, Rat};

use vstd::prelude::*;

verus! {

/// Everything one render call supplies: the texture bindings for each
/// role, the per-frame scalars, and the raw command-stream handle the
/// dispatch is recorded into.
pub struct Fsr2RenderParameters {
    pub color: Fsr2Texture,
    pub depth: Fsr2Texture,
    pub motion_vectors: Fsr2Texture,
    /// Scale applied to motion vectors; `(1, 1)` when absent.
    pub motion_vector_scale: Option<FloatCoords2D>,
    pub exposure: Fsr2Exposure,
    pub reactive_mask: Fsr2ReactiveMask,
    pub transparency_and_composition_mask: Option<Fsr2Texture>,
    pub output: Fsr2Texture,
    /// The input resolution of this frame; may vary frame to frame under
    /// dynamic resolution, never above the negotiated maximum.
    pub input_resolution: Resolution,
    /// Sharpening amount; clamped into `[0, 1]`, and sharpening is enabled
    /// exactly when this is strictly positive.
    pub sharpness: Rat,
    /// Frame time delta, in milliseconds.
    pub frame_delta_time_ms: Rat,
    /// Discard temporal history (resolution change, camera cut).
    pub reset: bool,
    pub camera_near: Rat,
    /// `None` means an infinite far plane (0 in the native description).
    pub camera_far: Option<Rat>,
    pub camera_fov_angle_vertical: Rat,
    pub jitter_offset: FloatCoords2D,
    /// Raw command-stream handle of the current frame.
    pub command_list: u64,
}

/// The complete per-frame parameter block of the native dispatch, with
/// every field pinned by [`Fsr2Context::render`]'s contract.
pub struct Fsr2DispatchDescription {
    pub command_list: u64,
    pub color: Fsr2ResourceDescriptor,
    pub depth: Fsr2ResourceDescriptor,
    pub motion_vectors: Fsr2ResourceDescriptor,
    pub exposure: Fsr2ResourceDescriptor,
    pub reactive: Fsr2ResourceDescriptor,
    pub transparency_and_composition: Fsr2ResourceDescriptor,
    pub output: Fsr2ResourceDescriptor,
    pub jitter_offset: FloatCoords2D,
    pub motion_vector_scale: FloatCoords2D,
    pub render_size: Resolution,
    pub enable_sharpening: bool,
    pub sharpness: Rat,
    pub frame_time_delta_ms: Rat,
    pub pre_exposure: Rat,
    pub reset: bool,
    pub camera_near: Rat,
    pub camera_far: Rat,
    pub camera_fov_angle_vertical: Rat,
}

/// What one render call asks the command stream to do: issue the enter
/// barriers, record the native dispatch with the description, issue the
/// exit barriers.
pub struct Fsr2RenderPlan {
    pub barriers: Barriers,
    pub dispatch: Fsr2DispatchDescription,
}

/// The descriptor for a present texture: its handles, size and format,
/// with the declared access state.
pub open spec fn spec_descriptor_of(t: Fsr2Texture, state: u32) -> Fsr2ResourceDescriptor {
    Fsr2ResourceDescriptor {
        image: t.image,
        view: t.view,
        width: t.width,
        height: t.height,
        format: t.vk_format,
        state: state,
    }
}

/// Image handles of a sequence of transition records, in order.
pub open spec fn spec_images(s: Seq<BarrierRecord>) -> Seq<u64> {
    s.map_values(|r: BarrierRecord| r.image)
}

/// The image handles a render call registers with the barrier
/// coordinator, in descriptor-construction order: the reactive mask
/// first, then color, depth, motion vectors, the optional exposure and
/// composition masks, and the output last. Absent slots register nothing.
pub open spec fn spec_registered_images(p: Fsr2RenderParameters) -> Seq<u64> {
    spec_reactive_images(p.reactive_mask) + seq![
        p.color.image,
        p.depth.image,
        p.motion_vectors.image,
    ] + spec_exposure_images(p.exposure) + spec_mask_images(p.transparency_and_composition_mask)
        + seq![p.output.image]
}

/// The image registered for the reactive-mask slot, if any.
pub open spec fn spec_reactive_images(m: Fsr2ReactiveMask) -> Seq<u64> {
    match m {
        Fsr2ReactiveMask::NoMask => Seq::empty(),
        Fsr2ReactiveMask::ManualMask(t) => seq![t.image],
        Fsr2ReactiveMask::AutoMask { .. } => Seq::empty(),
    }
}

/// The image registered for the exposure slot, if any.
pub open spec fn spec_exposure_images(e: Fsr2Exposure) -> Seq<u64> {
    match e {
        Fsr2Exposure::AutoExposure => Seq::empty(),
        Fsr2Exposure::ManualExposure { exposure, .. } => seq![exposure.image],
    }
}

/// The image registered for an optional mask slot, if any.
pub open spec fn spec_mask_images(m: Option<Fsr2Texture>) -> Seq<u64> {
    match m {
        Option::None => Seq::empty(),
        Option::Some(t) => seq![t.image],
    }
}

/// The textures a render call registers with the barrier coordinator, in
/// the same order as [`spec_registered_images`].
pub open spec fn spec_registered_textures(p: Fsr2RenderParameters) -> Seq<Fsr2Texture> {
    (match p.reactive_mask {
        Fsr2ReactiveMask::ManualMask(t) => seq![t],
        _ => Seq::empty(),
    }) + seq![p.color, p.depth, p.motion_vectors] + (match p.exposure {
        Fsr2Exposure::AutoExposure => Seq::empty(),
        Fsr2Exposure::ManualExposure { exposure, .. } => seq![exposure],
    }) + (match p.transparency_and_composition_mask {
        Option::None => Seq::empty(),
        Option::Some(t) => seq![t],
    }) + seq![p.output]
}

/// The enter record registered for a texture carries exactly the state the
/// backend's tracker implies for it: the texture's image and aspects, the
/// derived source access mask and layout, and the shader-read destination.
pub open spec fn spec_record_for(r: BarrierRecord, t: Fsr2Texture) -> bool {
    &&& r.image == t.image
    &&& r.aspect_mask == t.aspect_mask
    &&& r.src_access_mask == spec_barrier_access_mask(t.usage)
    &&& r.dst_access_mask == VK_ACCESS_SHADER_READ
    &&& spec_layout_for(t.usage, r.old_layout)
}

/// One upscaling session: the resolutions and flags negotiated at
/// creation, the size of the scratch block the native context lives in,
/// and how many submitted command streams that reference bridged
/// resources are still unfinished.
pub struct Fsr2Context {
    max_input_resolution: Resolution,
    upscaled_resolution: Resolution,
    initialization_flags: u32,
    scratch_size: usize,
    frames_in_flight: u64,
}

impl Fsr2Context {
    /// The display (upscaled) resolution negotiated at creation.
    pub closed spec fn spec_upscaled_resolution(self) -> Resolution {
        self.upscaled_resolution
    }

    /// The maximum input resolution negotiated at creation.
    pub closed spec fn spec_max_input_resolution(self) -> Resolution {
        self.max_input_resolution
    }

    /// The initialization flags the native context was created with.
    pub closed spec fn spec_initialization_flags(self) -> u32 {
        self.initialization_flags
    }

    /// Size of the scratch block backing the native context.
    pub closed spec fn spec_scratch_size(self) -> int {
        self.scratch_size as int
    }

    /// Submitted-but-unfinished command streams referencing bridged
    /// resources.
    pub closed spec fn spec_frames_in_flight(self) -> int {
        self.frames_in_flight as int
    }

    /// Both negotiated resolutions have positive dimensions small enough
    /// for the scaling arithmetic of the bridge.
    pub open spec fn wf(self) -> bool {
        &&& 1 <= self.spec_upscaled_resolution().width <= 0x2000_0000
        &&& 1 <= self.spec_upscaled_resolution().height <= 0x2000_0000
        &&& 1 <= self.spec_max_input_resolution().width <= 0x2000_0000
        &&& 1 <= self.spec_max_input_resolution().height <= 0x2000_0000
    }

    /// The session configuration of `a` and `b` is the same; only the
    /// in-flight count may differ.
    pub open spec fn spec_same_session(a: Fsr2Context, b: Fsr2Context) -> bool {
        &&& a.spec_upscaled_resolution() == b.spec_upscaled_resolution()
        &&& a.spec_max_input_resolution() == b.spec_max_input_resolution()
        &&& a.spec_initialization_flags() == b.spec_initialization_flags()
        &&& a.spec_scratch_size() == b.spec_scratch_size()
    }

    /// Opens a session: records the resolutions and flags the native
    /// context is created with and the size of the scratch block the
    /// creation query asked for. No work is in flight yet.
    pub fn new(
        max_input_resolution: Resolution,
        upscaled_resolution: Resolution,
        initialization_flags: u32,
        scratch_size: usize,
    ) -> (r: Fsr2Context)
        requires
            1 <= max_input_resolution.width <= 0x2000_0000,
            1 <= max_input_resolution.height <= 0x2000_0000,
            1 <= upscaled_resolution.width <= 0x2000_0000,
            1 <= upscaled_resolution.height <= 0x2000_0000,
        ensures
            r.wf(),
            r.spec_max_input_resolution() == max_input_resolution,
            r.spec_upscaled_resolution() == upscaled_resolution,
            r.spec_initialization_flags() == initialization_flags,
            r.spec_scratch_size() == scratch_size,
            r.spec_frames_in_flight() == 0,
    {
        Fsr2Context {
            max_input_resolution,
            upscaled_resolution,
            initialization_flags,
            scratch_size,
            frames_in_flight: 0,
        }
    }

    /// The display (upscaled) resolution of this session.
    pub fn upscaled_resolution(&self) -> (r: Resolution)
        ensures
            r == self.spec_upscaled_resolution(),
    {
        self.upscaled_resolution
    }

    /// The maximum input resolution of this session.
    pub fn max_input_resolution(&self) -> (r: Resolution)
        ensures
            r == self.spec_max_input_resolution(),
    {
        self.max_input_resolution
    }

    /// The initialization flags of this session.
    pub fn initialization_flags(&self) -> (r: u32)
        ensures
            r == self.spec_initialization_flags(),
    {
        self.initialization_flags
    }

    /// Size of the scratch block backing the native context.
    pub fn scratch_size(&self) -> (r: usize)
        ensures
            r as int == self.spec_scratch_size(),
    {
        self.scratch_size
    }

    /// Submitted-but-unfinished command streams referencing bridged
    /// resources.
    pub fn frames_in_flight(&self) -> (r: u64)
        ensures
            r as int == self.spec_frames_in_flight(),
    {
        self.frames_in_flight
    }

    /// The input resolution suggested for a quality mode: the display
    /// resolution divided by the mode's exact scale factor, floored.
    pub fn suggested_input_resolution(&self, quality_mode: Fsr2QualityMode) -> (r: Resolution)
        requires
            self.wf(),
        ensures
            r.width == spec_scaled_dim(self.spec_upscaled_resolution().width as int, quality_mode),
            r.height == spec_scaled_dim(
                self.spec_upscaled_resolution().height as int,
                quality_mode,
            ),
    {
        let (num, den) = scale_factor(quality_mode);
        proof {
            lemma_scaled_dim_bounds(self.spec_upscaled_resolution().width as int, quality_mode);
            lemma_scaled_dim_bounds(self.spec_upscaled_resolution().height as int, quality_mode);
        }
        let width: u64 = (self.upscaled_resolution.width as u64) * den / num;
        let height: u64 = (self.upscaled_resolution.height as u64) * den / num;
        Resolution { width: width as u32, height: height as u32 }
    }

    /// The deterministic sub-pixel jitter offset for one frame, derived
    /// from the phase count of this session's upscale ratio at the given
    /// input resolution.
    pub fn suggested_camera_jitter_offset(
        &self,
        input_resolution: Resolution,
        frame_index: i32,
    ) -> (r: FloatCoords2D)
        requires
            self.wf(),
            1 <= input_resolution.width,
            0 <= frame_index,
            1 <= spec_phase_count(
                input_resolution.width as int,
                self.spec_upscaled_resolution().width as int,
            ) <= i32::MAX,
        ensures
            r.x.wf(),
            r.y.wf(),
            r.x.frac() == spec_jitter_offset_x(
                frame_index as int,
                spec_phase_count(
                    input_resolution.width as int,
                    self.spec_upscaled_resolution().width as int,
                ),
            ),
            r.y.frac() == spec_jitter_offset_y(
                frame_index as int,
                spec_phase_count(
                    input_resolution.width as int,
                    self.spec_upscaled_resolution().width as int,
                ),
            ),
            -r.x.den <= 2 * r.x.num < r.x.den,
            -r.y.den <= 2 * r.y.num < r.y.den,
            r.x.den <= 0x3_0000_0002,
            r.y.den <= 0x3_0000_0002,
    {
        let phase_count = jitter_phase_count(
            input_resolution.width,
            self.upscaled_resolution.width,
        );
        jitter_offset(frame_index, phase_count)
    }

    /// The jitter for one frame's camera: the sub-pixel offset, and the
    /// translation in normalized device coordinates to left-multiply into
    /// the projection matrix (`2 * offset / input_resolution`, vertical
    /// component negated).
    pub fn jitter_camera_projection(
        &self,
        input_resolution: Resolution,
        frame_index: i32,
    ) -> (r: (FloatCoords2D, FloatCoords2D))
        requires
            self.wf(),
            1 <= input_resolution.width <= 0x2000_0000,
            1 <= input_resolution.height <= 0x2000_0000,
            0 <= frame_index,
            1 <= spec_phase_count(
                input_resolution.width as int,
                self.spec_upscaled_resolution().width as int,
            ) <= i32::MAX,
        ensures
            ({
                let phase = spec_phase_count(
                    input_resolution.width as int,
                    self.spec_upscaled_resolution().width as int,
                );
                &&& r.0.x.frac() == spec_jitter_offset_x(frame_index as int, phase)
                &&& r.0.y.frac() == spec_jitter_offset_y(frame_index as int, phase)
                &&& r.1.x.frac() == (Frac {
                    num: 2 * r.0.x.num,
                    den: r.0.x.den * input_resolution.width,
                })
                &&& r.1.y.frac() == (Frac {
                    num: -2 * r.0.y.num,
                    den: r.0.y.den * input_resolution.height,
                })
                &&& r.0.x.wf() && r.0.y.wf() && r.1.x.wf() && r.1.y.wf()
            }),
    {
        let offset = self.suggested_camera_jitter_offset(input_resolution, frame_index);
        let translation = jitter_projection_translation(&offset, input_resolution);
        (offset, translation)
    }

    /// Assembles the work of one render call: converts every texture role
    /// into its raw resource descriptor, registering each present texture
    /// with the barrier coordinator exactly once, and builds the complete
    /// dispatch description with the validated per-frame scalars.
    ///
    /// The auto-generated reactive mask is produced by a separate native
    /// helper this bridge does not drive; callers pass no mask or a
    /// manually supplied one.
    pub fn render(&self, parameters: &Fsr2RenderParameters) -> (plan: Fsr2RenderPlan)
        requires
            self.wf(),
            !(parameters.reactive_mask is AutoMask),
            parameters.input_resolution.width <= self.spec_max_input_resolution().width,
            parameters.input_resolution.height <= self.spec_max_input_resolution().height,
            parameters.sharpness.wf(),
        ensures
            plan.barriers.wf(),
            spec_images(plan.barriers.starts()) == spec_registered_images(*parameters),
            plan.barriers.starts().len() == spec_registered_images(*parameters).len(),
            plan.barriers.starts().len() >= 1,
            plan.barriers.starts().len() == spec_registered_textures(*parameters).len(),
            forall|i: int|
                0 <= i < plan.barriers.starts().len() ==> spec_record_for(
                    #[trigger] plan.barriers.starts()[i],
                    spec_registered_textures(*parameters)[i],
                ),
            plan.barriers.starts().last().new_layout == VK_IMAGE_LAYOUT_GENERAL,
            ({
                let with_reactive = match parameters.reactive_mask {
                    Fsr2ReactiveMask::ManualMask(mask) => 0u32 | spec_barrier_stage_mask(
                        mask.usage,
                    ),
                    _ => 0u32,
                };
                let with_inputs = with_reactive | spec_barrier_stage_mask(parameters.color.usage)
                    | spec_barrier_stage_mask(parameters.depth.usage) | spec_barrier_stage_mask(
                    parameters.motion_vectors.usage,
                );
                let with_exposure = match parameters.exposure {
                    Fsr2Exposure::AutoExposure => with_inputs,
                    Fsr2Exposure::ManualExposure { exposure, .. } => with_inputs
                        | spec_barrier_stage_mask(exposure.usage),
                };
                let with_masks = match parameters.transparency_and_composition_mask {
                    Option::None => with_exposure,
                    Option::Some(mask) => with_exposure | spec_barrier_stage_mask(mask.usage),
                };
                plan.barriers.stage_mask() == with_masks | spec_barrier_stage_mask(
                    parameters.output.usage,
                )
            }),
            forall|i: int|
                0 <= i < plan.barriers.starts().len() - 1 ==> #[trigger] plan.barriers.starts()[i].new_layout
                    == VK_IMAGE_LAYOUT_SHADER_READ_ONLY_OPTIMAL,
            ({
                let d = plan.dispatch;
                &&& d.command_list == parameters.command_list
                &&& d.color == spec_descriptor_of(
                    parameters.color,
                    FFX_RESOURCE_STATE_COMPUTE_READ,
                )
                &&& d.depth == spec_descriptor_of(
                    parameters.depth,
                    FFX_RESOURCE_STATE_COMPUTE_READ,
                )
                &&& d.motion_vectors == spec_descriptor_of(
                    parameters.motion_vectors,
                    FFX_RESOURCE_STATE_COMPUTE_READ,
                )
                &&& d.exposure == (match parameters.exposure {
                    Fsr2Exposure::AutoExposure => spec_null_descriptor(
                        FFX_RESOURCE_STATE_COMPUTE_READ,
                    ),
                    Fsr2Exposure::ManualExposure { exposure, .. } => spec_descriptor_of(
                        exposure,
                        FFX_RESOURCE_STATE_COMPUTE_READ,
                    ),
                })
                &&& d.reactive == (match parameters.reactive_mask {
                    Fsr2ReactiveMask::ManualMask(mask) => spec_descriptor_of(
                        mask,
                        FFX_RESOURCE_STATE_GENERIC_READ,
                    ),
                    _ => spec_null_descriptor(FFX_RESOURCE_STATE_GENERIC_READ),
                })
                &&& d.transparency_and_composition == (match parameters
                    .transparency_and_composition_mask {
                    Option::Some(mask) => spec_descriptor_of(
                        mask,
                        FFX_RESOURCE_STATE_COMPUTE_READ,
                    ),
                    Option::None => spec_null_descriptor(FFX_RESOURCE_STATE_COMPUTE_READ),
                })
                &&& d.output == spec_descriptor_of(
                    parameters.output,
                    FFX_RESOURCE_STATE_UNORDERED_ACCESS,
                )
                &&& d.jitter_offset == parameters.jitter_offset
                &&& d.motion_vector_scale == (match parameters.motion_vector_scale {
                    Option::Some(scale) => scale,
                    Option::None => FloatCoords2D {
                        x: Rat { num: 1i64, den: 1i64 },
                        y: Rat { num: 1i64, den: 1i64 },
                    },
                })
                &&& d.render_size == parameters.input_resolution
                &&& d.enable_sharpening == parameters.sharpness.spec_is_positive()
                &&& d.sharpness == parameters.sharpness.spec_clamp_unit()
                &&& 0 <= d.sharpness.num <= d.sharpness.den
                &&& d.frame_time_delta_ms == parameters.frame_delta_time_ms
                &&& d.pre_exposure == (match parameters.exposure {
                    Fsr2Exposure::AutoExposure => Rat { num: 1i64, den: 1i64 },
                    Fsr2Exposure::ManualExposure { pre_exposure, .. } => pre_exposure,
                })
                &&& d.reset == parameters.reset
                &&& d.camera_near == parameters.camera_near
                &&& d.camera_far == (match parameters.camera_far {
                    Option::Some(far) => far,
                    Option::None => Rat { num: 0i64, den: 1i64 },
                })
                &&& d.camera_fov_angle_vertical == parameters.camera_fov_angle_vertical
            }),
    {
        let mut barriers = Barriers::new();

        let reactive = match &parameters.reactive_mask {
            Fsr2ReactiveMask::NoMask => input_texture_to_ffx_resource(
                None,
                FFX_RESOURCE_STATE_GENERIC_READ,
                VK_IMAGE_LAYOUT_SHADER_READ_ONLY_OPTIMAL,
                &mut barriers,
            ),
            Fsr2ReactiveMask::ManualMask(mask) => input_texture_to_ffx_resource(
                Some(mask),
                FFX_RESOURCE_STATE_GENERIC_READ,
                VK_IMAGE_LAYOUT_SHADER_READ_ONLY_OPTIMAL,
                &mut barriers,
            ),
            Fsr2ReactiveMask::AutoMask { .. } => vstd::pervasive::unreached(),
        };

        let color = input_texture_to_ffx_resource(
            Some(&parameters.color),
            FFX_RESOURCE_STATE_COMPUTE_READ,
            VK_IMAGE_LAYOUT_SHADER_READ_ONLY_OPTIMAL,
            &mut barriers,
        );
        let depth = input_texture_to_ffx_resource(
            Some(&parameters.depth),
            FFX_RESOURCE_STATE_COMPUTE_READ,
            VK_IMAGE_LAYOUT_SHADER_READ_ONLY_OPTIMAL,
            &mut barriers,
        );
        let motion_vectors = input_texture_to_ffx_resource(
            Some(&parameters.motion_vectors),
            FFX_RESOURCE_STATE_COMPUTE_READ,
            VK_IMAGE_LAYOUT_SHADER_READ_ONLY_OPTIMAL,
            &mut barriers,
        );

        let (exposure_texture, pre_exposure) = match &parameters.exposure {
            Fsr2Exposure::AutoExposure => (None, Rat::one()),
            Fsr2Exposure::ManualExposure { pre_exposure, exposure } => (
                Some(exposure),
                *pre_exposure,
            ),
        };
        let exposure = input_texture_to_ffx_resource(
            exposure_texture,
            FFX_RESOURCE_STATE_COMPUTE_READ,
            VK_IMAGE_LAYOUT_SHADER_READ_ONLY_OPTIMAL,
            &mut barriers,
        );

        let transparency_and_composition = input_texture_to_ffx_resource(
            match &parameters.transparency_and_composition_mask {
                Option::Some(mask) => Some(mask),
                Option::None => None,
            },
            FFX_RESOURCE_STATE_COMPUTE_READ,
            VK_IMAGE_LAYOUT_SHADER_READ_ONLY_OPTIMAL,
            &mut barriers,
        );

        let output = input_texture_to_ffx_resource(
            Some(&parameters.output),
            FFX_RESOURCE_STATE_UNORDERED_ACCESS,
            VK_IMAGE_LAYOUT_GENERAL,
            &mut barriers,
        );

        proof {
            assert(spec_images(barriers.starts()) =~= spec_registered_images(*parameters));
        }

        let dispatch = Fsr2DispatchDescription {
            command_list: parameters.command_list,
            color,
            depth,
            motion_vectors,
            exposure,
            reactive,
            transparency_and_composition,
            output,
            jitter_offset: parameters.jitter_offset,
            motion_vector_scale: match &parameters.motion_vector_scale {
                Option::Some(scale) => *scale,
                Option::None => FloatCoords2D { x: Rat::one(), y: Rat::one() },
            },
            render_size: parameters.input_resolution,
            enable_sharpening: parameters.sharpness.is_positive(),
            sharpness: parameters.sharpness.clamp_unit(),
            frame_time_delta_ms: parameters.frame_delta_time_ms,
            pre_exposure,
            reset: parameters.reset,
            camera_near: parameters.camera_near,
            camera_far: match &parameters.camera_far {
                Option::Some(far) => *far,
                Option::None => Rat::zero(),
            },
            camera_fov_angle_vertical: parameters.camera_fov_angle_vertical,
        };

        Fsr2RenderPlan { barriers, dispatch }
    }

    /// Notes that a command stream referencing bridged resources has been
    /// submitted and is not yet known to have finished.
    pub fn mark_submitted(&mut self)
        requires
            old(self).spec_frames_in_flight() < u64::MAX,
        ensures
            Fsr2Context::spec_same_session(*final(self), *old(self)),
            final(self).spec_frames_in_flight() == old(self).spec_frames_in_flight() + 1,
    {
        self.frames_in_flight = self.frames_in_flight + 1;
    }

    /// Notes that a previously submitted command stream has finished on
    /// the device (its fence signalled, or the device went idle).
    pub fn mark_finished(&mut self)
        requires
            old(self).spec_frames_in_flight() > 0,
        ensures
            Fsr2Context::spec_same_session(*final(self), *old(self)),
            final(self).spec_frames_in_flight() == old(self).spec_frames_in_flight() - 1,
    {
        self.frames_in_flight = self.frames_in_flight - 1;
    }

    /// Closes the session. Destruction must never happen while a
    /// submitted-but-unfinished command stream still references a bridged
    /// resource: the caller waits for device idle (or the last fence)
    /// first, which brings the in-flight count to zero. Consuming the
    /// handle makes a second destruction impossible.
    pub fn destroy(self)
        requires
            self.spec_frames_in_flight() == 0,
    {
    }
}

/// Converts one texture role into the raw descriptor of the native ABI,
/// registering a present texture with the barrier coordinator for the
/// declared state; an absent role becomes the null descriptor and
/// registers nothing.
fn input_texture_to_ffx_resource(
    texture: Option<&Fsr2Texture>,
    resource_state: u32,
    new_layout: i32,
    barriers: &mut Barriers,
) -> (r: Fsr2ResourceDescriptor)
    requires
        old(barriers).wf(),
        old(barriers).starts().len() < 7,
    ensures
        final(barriers).wf(),
        match texture {
            Option::Some(t) => {
                &&& r == spec_descriptor_of(*t, resource_state)
                &&& final(barriers).starts().len() == old(barriers).starts().len() + 1
                &&& final(barriers).starts() == old(barriers).starts().push(
                    final(barriers).starts().last(),
                )
                &&& spec_images(final(barriers).starts()) == spec_images(
                    old(barriers).starts(),
                ).push(t.image)
                &&& final(barriers).starts().last().new_layout == new_layout
                &&& spec_record_for(final(barriers).starts().last(), *t)
                &&& final(barriers).stage_mask() == (old(barriers).stage_mask()
                    | spec_barrier_stage_mask(t.usage))
            },
            Option::None => {
                &&& r == spec_null_descriptor(resource_state)
                &&& *final(barriers) == *old(barriers)
            },
        },
{
    match texture {
        Option::Some(t) => {
            barriers.add(t, new_layout);
            proof {
                assert(spec_images(barriers.starts()) =~= spec_images(
                    old(barriers).starts(),
                ).push(t.image));
            }
            Fsr2ResourceDescriptor {
                image: t.image,
                view: t.view,
                width: t.width,
                height: t.height,
                format: t.vk_format,
                state: resource_state,
            }
        },
        Option::None => Fsr2ResourceDescriptor {
            image: 0,
            view: 0,
            width: 1,
            height: 1,
            format: 0,
            state: resource_state,
        },
    }
}

/// The exact scale factor of a quality mode, as a numerator/denominator
/// pair matching [`scale_factor_num`] and [`scale_factor_den`].
fn scale_factor(mode: Fsr2QualityMode) -> (r: (u64, u64))
    ensures
        r.0 == scale_factor_num(mode),
        r.1 == scale_factor_den(mode),
{
    match mode {
        Fsr2QualityMode::Native => (1, 1),
        Fsr2QualityMode::Quality => (3, 2),
        Fsr2QualityMode::Balanced => (17, 10),
        Fsr2QualityMode::Performance => (2, 1),
        Fsr2QualityMode::UltraPerformance => (3, 1),
    }
}

/// A dimension scaled down by a quality mode stays between 0 and the
/// dimension itself: every scale factor is at least 1.
pub proof fn lemma_scaled_dim_bounds(dim: int, mode: Fsr2QualityMode)
    requires
        0 <= dim,
    ensures
        0 <= spec_scaled_dim(dim, mode) <= dim,
{
    let num = scale_factor_num(mode);
    let den = scale_factor_den(mode);
    vstd::arithmetic::mul::lemma_mul_inequality(den, num, dim);
    vstd::arithmetic::div_mod::lemma_div_is_ordered(dim * den, dim * num, num);
    vstd::arithmetic::div_mod::lemma_div_multiples_vanish(dim, num);
    vstd::arithmetic::div_mod::lemma_div_pos_is_pos(dim * den, num);
    vstd::arithmetic::mul::lemma_mul_nonnegative(dim, den);
}

/// For every quality mode the suggested input resolution fits inside the
/// display resolution: each dimension is divided by the mode's exact
/// factor (`Native` 1, `Quality` 3/2, `Balanced` 17/10, `Performance` 2,
/// `UltraPerformance` 3) and floored, so the suggested area never exceeds
/// the display's area.
pub proof fn lemma_suggested_input_resolution_area(display: Resolution, mode: Fsr2QualityMode)
    ensures
        spec_scaled_dim(display.width as int, mode) <= display.width,
        spec_scaled_dim(display.height as int, mode) <= display.height,
        spec_scaled_dim(display.width as int, mode) * spec_scaled_dim(
            display.height as int,
            mode,
        ) <= spec_area(display),
{
    lemma_scaled_dim_bounds(display.width as int, mode);
    lemma_scaled_dim_bounds(display.height as int, mode);
    vstd::arithmetic::mul::lemma_mul_upper_bound(
        spec_scaled_dim(display.width as int, mode),
        display.width as int,
        spec_scaled_dim(display.height as int, mode),
        display.height as int,
    );
}

} // verus!
