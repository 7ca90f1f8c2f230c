//! Barrier coordinator.
//!
//! Every texture handed to the native engine is transitioned from the usage
//! state the backend's tracker holds for it into the state the engine's
//! internal compute passes require, and transitioned back afterwards. The
//! coordinator collects one symmetric enter/exit pair of transition records
//! per registered texture, plus the union of the source pipeline stages, so
//! the surrounding command stream can issue the enter records as one batched
//! barrier before the dispatch and the exit records as one batched barrier
//! after it.

use crate::fsr::Fsr2Texture;
use arrayvec::ArrayVec;
use vstd::prelude::*;

verus! {

/// Usage bits of the backend's resource tracker (`wgpu::TextureUses`),
/// mirrored so specifications can speak about them.
pub const TEXTURE_USE_UNINITIALIZED: u16 = 1;
pub const TEXTURE_USE_PRESENT: u16 = 2;
pub const TEXTURE_USE_COPY_SRC: u16 = 4;
pub const TEXTURE_USE_COPY_DST: u16 = 8;
pub const TEXTURE_USE_RESOURCE: u16 = 16;
pub const TEXTURE_USE_COLOR_TARGET: u16 = 32;
pub const TEXTURE_USE_DEPTH_STENCIL_READ: u16 = 64;
pub const TEXTURE_USE_DEPTH_STENCIL_WRITE: u16 = 128;
pub const TEXTURE_USE_STORAGE_READ_ONLY: u16 = 256;
pub const TEXTURE_USE_STORAGE_WRITE_ONLY: u16 = 512;
pub const TEXTURE_USE_STORAGE_READ_WRITE: u16 = 1024;
pub const TEXTURE_USE_STORAGE_ATOMIC: u16 = 2048;

/// Pipeline-stage bits of the low-level API, as its headers declare them.
pub const VK_PIPELINE_STAGE_TOP_OF_PIPE: u32 = 0x1;
pub const VK_PIPELINE_STAGE_VERTEX_SHADER: u32 = 0x8;
pub const VK_PIPELINE_STAGE_FRAGMENT_SHADER: u32 = 0x80;
pub const VK_PIPELINE_STAGE_EARLY_FRAGMENT_TESTS: u32 = 0x100;
pub const VK_PIPELINE_STAGE_LATE_FRAGMENT_TESTS: u32 = 0x200;
pub const VK_PIPELINE_STAGE_COLOR_ATTACHMENT_OUTPUT: u32 = 0x400;
pub const VK_PIPELINE_STAGE_COMPUTE_SHADER: u32 = 0x800;
pub const VK_PIPELINE_STAGE_TRANSFER: u32 = 0x1000;

/// The three shader stages a sampled or storage resource may be read from.
pub const VK_PIPELINE_STAGES_ALL_SHADERS: u32 = 0x888;

/// Access bits of the low-level API.
pub const VK_ACCESS_SHADER_READ: u32 = 0x20;
pub const VK_ACCESS_SHADER_WRITE: u32 = 0x40;
pub const VK_ACCESS_COLOR_ATTACHMENT_READ: u32 = 0x80;
pub const VK_ACCESS_COLOR_ATTACHMENT_WRITE: u32 = 0x100;
pub const VK_ACCESS_DEPTH_STENCIL_ATTACHMENT_READ: u32 = 0x200;
pub const VK_ACCESS_DEPTH_STENCIL_ATTACHMENT_WRITE: u32 = 0x400;
pub const VK_ACCESS_TRANSFER_READ: u32 = 0x800;
pub const VK_ACCESS_TRANSFER_WRITE: u32 = 0x1000;

/// Image layouts of the low-level API.
pub const VK_IMAGE_LAYOUT_UNDEFINED: i32 = 0;
pub const VK_IMAGE_LAYOUT_GENERAL: i32 = 1;
pub const VK_IMAGE_LAYOUT_COLOR_ATTACHMENT_OPTIMAL: i32 = 2;
pub const VK_IMAGE_LAYOUT_DEPTH_STENCIL_ATTACHMENT_OPTIMAL: i32 = 3;
pub const VK_IMAGE_LAYOUT_DEPTH_STENCIL_READ_ONLY_OPTIMAL: i32 = 4;
pub const VK_IMAGE_LAYOUT_SHADER_READ_ONLY_OPTIMAL: i32 = 5;
pub const VK_IMAGE_LAYOUT_TRANSFER_SRC_OPTIMAL: i32 = 6;
pub const VK_IMAGE_LAYOUT_TRANSFER_DST_OPTIMAL: i32 = 7;
pub const VK_IMAGE_LAYOUT_PRESENT_SRC_KHR: i32 = 1000001002;

/// The source pipeline stages implied by a tracked usage, clause for clause
/// as the backend's Vulkan translation builds them: copies come from the
/// transfer stage, sampled and storage resources from the three shader
/// stages, render attachments from their fixed-function stages; a texture
/// that is uninitialized or ready for presentation has no work to wait for.
pub open spec fn spec_barrier_stage_mask(usage: u16) -> u32 {
    if usage == TEXTURE_USE_UNINITIALIZED || usage == TEXTURE_USE_PRESENT {
        VK_PIPELINE_STAGE_TOP_OF_PIPE
    } else {
        (if usage & (TEXTURE_USE_COPY_SRC | TEXTURE_USE_COPY_DST) != 0 {
            VK_PIPELINE_STAGE_TRANSFER
        } else {
            0
        }) | (if usage & TEXTURE_USE_RESOURCE != 0 {
            VK_PIPELINE_STAGES_ALL_SHADERS
        } else {
            0
        }) | (if usage & TEXTURE_USE_COLOR_TARGET != 0 {
            VK_PIPELINE_STAGE_COLOR_ATTACHMENT_OUTPUT
        } else {
            0
        }) | (if usage & (TEXTURE_USE_DEPTH_STENCIL_READ | TEXTURE_USE_DEPTH_STENCIL_WRITE)
            != 0 {
            VK_PIPELINE_STAGE_EARLY_FRAGMENT_TESTS | VK_PIPELINE_STAGE_LATE_FRAGMENT_TESTS
        } else {
            0
        }) | (if usage & (TEXTURE_USE_STORAGE_READ_ONLY | TEXTURE_USE_STORAGE_WRITE_ONLY
            | TEXTURE_USE_STORAGE_READ_WRITE | TEXTURE_USE_STORAGE_ATOMIC) != 0 {
            VK_PIPELINE_STAGES_ALL_SHADERS
        } else {
            0
        })
    }
}

/// The access mask implied by a tracked usage, clause for clause as the
/// backend's Vulkan translation builds it.
pub open spec fn spec_barrier_access_mask(usage: u16) -> u32 {
    if usage == TEXTURE_USE_UNINITIALIZED || usage == TEXTURE_USE_PRESENT {
        0
    } else {
        (if usage & TEXTURE_USE_COPY_SRC != 0 {
            VK_ACCESS_TRANSFER_READ
        } else {
            0
        }) | (if usage & TEXTURE_USE_COPY_DST != 0 {
            VK_ACCESS_TRANSFER_WRITE
        } else {
            0
        }) | (if usage & TEXTURE_USE_RESOURCE != 0 {
            VK_ACCESS_SHADER_READ
        } else {
            0
        }) | (if usage & TEXTURE_USE_COLOR_TARGET != 0 {
            VK_ACCESS_COLOR_ATTACHMENT_READ | VK_ACCESS_COLOR_ATTACHMENT_WRITE
        } else {
            0
        }) | (if usage & TEXTURE_USE_DEPTH_STENCIL_READ != 0 {
            VK_ACCESS_DEPTH_STENCIL_ATTACHMENT_READ
        } else {
            0
        }) | (if usage & TEXTURE_USE_DEPTH_STENCIL_WRITE != 0 {
            VK_ACCESS_DEPTH_STENCIL_ATTACHMENT_READ | VK_ACCESS_DEPTH_STENCIL_ATTACHMENT_WRITE
        } else {
            0
        }) | (if usage & (TEXTURE_USE_STORAGE_READ_ONLY | TEXTURE_USE_STORAGE_READ_WRITE
            | TEXTURE_USE_STORAGE_ATOMIC) != 0 {
            VK_ACCESS_SHADER_READ
        } else {
            0
        }) | (if usage & (TEXTURE_USE_STORAGE_WRITE_ONLY | TEXTURE_USE_STORAGE_READ_WRITE
            | TEXTURE_USE_STORAGE_ATOMIC) != 0 {
            VK_ACCESS_SHADER_WRITE
        } else {
            0
        })
    }
}

/// Relies on `wgpu_hal::vulkan::conv::map_texture_usage_to_barrier`: the
/// source pipeline-stage and access masks of a tracked usage are the
/// bit-wise unions stated by [`spec_barrier_stage_mask`] and
/// [`spec_barrier_access_mask`], which mirror that function clause for
/// clause.
#[verifier::external_body]
fn map_usage_to_barrier_masks(usage_bits: u16) -> (r: (u32, u32))
    ensures
        r.0 == spec_barrier_stage_mask(usage_bits),
        r.1 == spec_barrier_access_mask(usage_bits),
{
    let usage = wgpu::TextureUses::from_bits_retain(usage_bits);
    let (stages, access) = wgpu_hal::vulkan::conv::map_texture_usage_to_barrier(usage);
    (stages.as_raw(), access.as_raw())
}

/// Relies on `wgpu_hal::vulkan::conv::derive_image_layout`: the layout of a
/// tracked usage; the arms of its match that do not consult the format are
/// stated exactly, the sampled-resource arm by the two layouts the source
/// distinguishes by color versus depth/stencil format.
#[verifier::external_body]
fn derive_image_layout(usage_bits: u16, format: &wgpu::TextureFormat) -> (r: i32)
    ensures
        usage_bits == TEXTURE_USE_UNINITIALIZED ==> r == VK_IMAGE_LAYOUT_UNDEFINED,
        usage_bits == TEXTURE_USE_COPY_SRC ==> r == VK_IMAGE_LAYOUT_TRANSFER_SRC_OPTIMAL,
        usage_bits == TEXTURE_USE_COPY_DST ==> r == VK_IMAGE_LAYOUT_TRANSFER_DST_OPTIMAL,
        usage_bits == TEXTURE_USE_COLOR_TARGET ==> r
            == VK_IMAGE_LAYOUT_COLOR_ATTACHMENT_OPTIMAL,
        usage_bits == TEXTURE_USE_DEPTH_STENCIL_WRITE ==> r
            == VK_IMAGE_LAYOUT_DEPTH_STENCIL_ATTACHMENT_OPTIMAL,
        usage_bits == TEXTURE_USE_PRESENT ==> r == VK_IMAGE_LAYOUT_PRESENT_SRC_KHR,
        usage_bits == TEXTURE_USE_RESOURCE ==> (r == VK_IMAGE_LAYOUT_SHADER_READ_ONLY_OPTIMAL
            || r == VK_IMAGE_LAYOUT_DEPTH_STENCIL_READ_ONLY_OPTIMAL),
        (usage_bits != TEXTURE_USE_UNINITIALIZED && usage_bits != TEXTURE_USE_COPY_SRC
            && usage_bits != TEXTURE_USE_COPY_DST && usage_bits != TEXTURE_USE_RESOURCE
            && usage_bits != TEXTURE_USE_COLOR_TARGET && usage_bits != TEXTURE_USE_DEPTH_STENCIL_WRITE
            && usage_bits != TEXTURE_USE_PRESENT) ==> (r == VK_IMAGE_LAYOUT_GENERAL
            || r == VK_IMAGE_LAYOUT_DEPTH_STENCIL_READ_ONLY_OPTIMAL),
{
    let usage = wgpu::TextureUses::from_bits_retain(usage_bits);
    wgpu_hal::vulkan::conv::derive_image_layout(usage, *format).as_raw()
}

/// One image-memory transition, as plain values: the shell copies these
/// fields into the low-level API's barrier struct unchanged.
#[derive(Clone, Copy, Debug, PartialEq, Eq, Structural)]
pub struct BarrierRecord {
    pub image: u64,
    pub src_access_mask: u32,
    pub dst_access_mask: u32,
    pub old_layout: i32,
    pub new_layout: i32,
    pub aspect_mask: u32,
}

/// The exit record matching an enter record: accesses swapped, layouts
/// reversed, same image and aspects.
pub open spec fn spec_mirror(r: BarrierRecord) -> BarrierRecord {
    BarrierRecord {
        image: r.image,
        src_access_mask: r.dst_access_mask,
        dst_access_mask: r.src_access_mask,
        old_layout: r.new_layout,
        new_layout: r.old_layout,
        aspect_mask: r.aspect_mask,
    }
}

/// Declares the fixed-capacity vector of the `arrayvec` crate, which backs
/// the bounded transition lists.
#[verifier::external_type_specification]
#[verifier::external_body]
#[verifier::reject_recursive_types(T)]
pub struct ExArrayVec<T, const CAP: usize>(ArrayVec<T, CAP>);

/// The records a transition list holds, in insertion order.
pub uninterp spec fn barrier_records(v: ArrayVec<BarrierRecord, 7>) -> Seq<BarrierRecord>;

/// Relies on `arrayvec::ArrayVec::new`: a freshly created vector is empty.
#[verifier::external_body]
fn barrier_vec_new() -> (r: ArrayVec<BarrierRecord, 7>)
    ensures
        barrier_records(r) == Seq::<BarrierRecord>::empty(),
{
    ArrayVec::new()
}

/// Relies on `arrayvec::ArrayVec::push`: appends the element at the end.
/// A full vector would panic, so pushing demands room below the capacity.
#[verifier::external_body]
fn barrier_vec_push(v: &mut ArrayVec<BarrierRecord, 7>, record: BarrierRecord)
    requires
        barrier_records(*old(v)).len() < 7,
    ensures
        barrier_records(*final(v)) == barrier_records(*old(v)).push(record),
{
    v.push(record);
}

/// Relies on `arrayvec::ArrayVec::len`: the number of elements held.
#[verifier::external_body]
fn barrier_vec_len(v: &ArrayVec<BarrierRecord, 7>) -> (r: usize)
    ensures
        r == barrier_records(*v).len(),
{
    v.len()
}

/// Relies on `arrayvec::ArrayVec`'s slice view (`Deref`): the element at
/// an in-bounds index.
#[verifier::external_body]
fn barrier_vec_get(v: &ArrayVec<BarrierRecord, 7>, i: usize) -> (r: BarrierRecord)
    requires
        i < barrier_records(*v).len(),
    ensures
        r == barrier_records(*v)[i as int],
{
    v[i]
}

/// The layouts the trusted derivation can return for a tracked usage;
/// used to carry those facts through [`Barriers::add`].
pub open spec fn spec_layout_for(usage: u16, layout: i32) -> bool {
    &&& usage == TEXTURE_USE_UNINITIALIZED ==> layout == VK_IMAGE_LAYOUT_UNDEFINED
    &&& usage == TEXTURE_USE_COPY_SRC ==> layout == VK_IMAGE_LAYOUT_TRANSFER_SRC_OPTIMAL
    &&& usage == TEXTURE_USE_COPY_DST ==> layout == VK_IMAGE_LAYOUT_TRANSFER_DST_OPTIMAL
    &&& usage == TEXTURE_USE_COLOR_TARGET ==> layout == VK_IMAGE_LAYOUT_COLOR_ATTACHMENT_OPTIMAL
    &&& usage == TEXTURE_USE_DEPTH_STENCIL_WRITE ==> layout
        == VK_IMAGE_LAYOUT_DEPTH_STENCIL_ATTACHMENT_OPTIMAL
    &&& usage == TEXTURE_USE_PRESENT ==> layout == VK_IMAGE_LAYOUT_PRESENT_SRC_KHR
    &&& usage == TEXTURE_USE_RESOURCE ==> (layout == VK_IMAGE_LAYOUT_SHADER_READ_ONLY_OPTIMAL
        || layout == VK_IMAGE_LAYOUT_DEPTH_STENCIL_READ_ONLY_OPTIMAL)
}

/// A batched pipeline barrier: the records to issue in one call, spanning
/// from the source to the destination stage mask.
pub struct BarrierBatch {
    pub src_stage_mask: u32,
    pub dst_stage_mask: u32,
    pub records: Vec<BarrierRecord>,
}

/// The per-dispatch collection of paired enter/exit transition records and
/// the union of the source pipeline stages. Capacity is the number of
/// distinct texture roles one dispatch can register, 7.
pub struct Barriers {
    pub current_pipeline_stage: u32,
    pub start_barriers: ArrayVec<BarrierRecord, 7>,
    pub end_barriers: ArrayVec<BarrierRecord, 7>,
}

impl Barriers {
    /// The enter transitions, in registration order.
    pub open spec fn starts(self) -> Seq<BarrierRecord> {
        barrier_records(self.start_barriers)
    }

    /// The exit transitions, in registration order.
    pub open spec fn ends(self) -> Seq<BarrierRecord> {
        barrier_records(self.end_barriers)
    }

    /// Union of the source pipeline stages of all registered textures.
    pub open spec fn stage_mask(self) -> u32 {
        self.current_pipeline_stage
    }

    /// Enter and exit lists pair off: same length, and the exit record at
    /// each position undoes the enter record at that position.
    pub open spec fn wf(self) -> bool {
        &&& self.starts().len() == self.ends().len()
        &&& self.starts().len() <= 7
        &&& forall|i: int|
            0 <= i < self.starts().len() ==> #[trigger] self.ends()[i] == spec_mirror(
                self.starts()[i],
            )
    }

    /// An empty coordinator: nothing registered, no stages accumulated.
    pub fn new() -> (r: Barriers)
        ensures
            r.wf(),
            r.starts().len() == 0,
            r.ends().len() == 0,
            r.stage_mask() == 0,
    {
        Barriers {
            current_pipeline_stage: 0,
            start_barriers: barrier_vec_new(),
            end_barriers: barrier_vec_new(),
        }
    }

    /// Registers one texture: derives its current access mask and layout
    /// from the usage the backend's tracker holds, appends the enter
    /// transition into `new_layout` and the symmetric exit transition back,
    /// and accumulates the texture's source pipeline stages.
    pub fn add(&mut self, texture: &Fsr2Texture, new_layout: i32)
        requires
            old(self).wf(),
            old(self).starts().len() < 7,
        ensures
            final(self).wf(),
            final(self).starts().len() == old(self).starts().len() + 1,
            final(self).starts() == old(self).starts().push(final(self).starts().last()),
            final(self).ends() == old(self).ends().push(
                spec_mirror(final(self).starts().last()),
            ),
            ({
                let rec = final(self).starts().last();
                &&& rec.image == texture.image
                &&& rec.aspect_mask == texture.aspect_mask
                &&& rec.src_access_mask == spec_barrier_access_mask(texture.usage)
                &&& rec.dst_access_mask == VK_ACCESS_SHADER_READ
                &&& rec.new_layout == new_layout
                &&& spec_layout_for(texture.usage, rec.old_layout)
            }),
            final(self).stage_mask() == old(self).stage_mask() | spec_barrier_stage_mask(
                texture.usage,
            ),
    {
        let (stage_mask, access_mask) = map_usage_to_barrier_masks(texture.usage);
        let old_layout = derive_image_layout(texture.usage, &texture.format);

        let record = BarrierRecord {
            image: texture.image,
            src_access_mask: access_mask,
            dst_access_mask: VK_ACCESS_SHADER_READ,
            old_layout: old_layout,
            new_layout: new_layout,
            aspect_mask: texture.aspect_mask,
        };

        self.current_pipeline_stage = self.current_pipeline_stage | stage_mask;
        barrier_vec_push(&mut self.start_barriers, record);
        barrier_vec_push(&mut self.end_barriers, spec_mirror_exec(record));
    }

    /// The batched barrier to issue immediately before the dispatch: all
    /// enter transitions, spanning from the accumulated source stages to
    /// the compute stage the native engine runs in.
    pub fn cmd_start(&self) -> (b: BarrierBatch)
        ensures
            b.src_stage_mask == self.stage_mask(),
            b.dst_stage_mask == VK_PIPELINE_STAGE_COMPUTE_SHADER,
            b.records@ == self.starts(),
    {
        BarrierBatch {
            src_stage_mask: self.current_pipeline_stage,
            dst_stage_mask: VK_PIPELINE_STAGE_COMPUTE_SHADER,
            records: copy_records(&self.start_barriers),
        }
    }

    /// The batched barrier to issue immediately after the dispatch: all
    /// exit transitions, spanning from the compute stage back to the
    /// accumulated source stages.
    pub fn cmd_end(&self) -> (b: BarrierBatch)
        ensures
            b.src_stage_mask == VK_PIPELINE_STAGE_COMPUTE_SHADER,
            b.dst_stage_mask == self.stage_mask(),
            b.records@ == self.ends(),
    {
        BarrierBatch {
            src_stage_mask: VK_PIPELINE_STAGE_COMPUTE_SHADER,
            dst_stage_mask: self.current_pipeline_stage,
            records: copy_records(&self.end_barriers),
        }
    }
}

impl Default for Barriers {
    /// Same as [`Barriers::new`].
    fn default() -> (r: Barriers)
        ensures
            r.wf(),
            r.starts().len() == 0,
            r.ends().len() == 0,
            r.stage_mask() == 0,
    {
        Barriers::new()
    }
}

/// Builds the exit record undoing `r`, exactly [`spec_mirror`].
fn spec_mirror_exec(r: BarrierRecord) -> (m: BarrierRecord)
    ensures
        m == spec_mirror(r),
{
    BarrierRecord {
        image: r.image,
        src_access_mask: r.dst_access_mask,
        dst_access_mask: r.src_access_mask,
        old_layout: r.new_layout,
        new_layout: r.old_layout,
        aspect_mask: r.aspect_mask,
    }
}

/// Copies a transition list out into a plain vector, in order.
fn copy_records(v: &ArrayVec<BarrierRecord, 7>) -> (r: Vec<BarrierRecord>)
    ensures
        r@ == barrier_records(*v),
{
    let n = barrier_vec_len(v);
    let mut out: Vec<BarrierRecord> = Vec::new();
    let mut i: usize = 0;
    while i < n
        invariant
            i <= n,
            n == barrier_records(*v).len(),
            out@ == barrier_records(*v).subrange(0, i as int),
        decreases n - i,
    {
        out.push(barrier_vec_get(v, i));
        proof {
            assert(out@ =~= barrier_records(*v).subrange(0, i + 1 as int));
        }
        i = i + 1;
    }
    proof {
        assert(out@ =~= barrier_records(*v));
    }
    out
}

/// For every dispatch the enter and exit barriers pair off: there are
/// exactly as many exit records as enter records, and the exit record in
/// each position restores precisely the state its enter record left —
/// same image and aspects, access masks swapped, layouts reversed. Absent
/// optional inputs register nothing, so no unmatched transition exists.
pub proof fn lemma_barriers_symmetric(b: Barriers)
    requires
        b.wf(),
    ensures
        b.ends().len() == b.starts().len(),
        forall|i: int|
            0 <= i < b.starts().len() ==> #[trigger] b.ends()[i] == spec_mirror(b.starts()[i]),
{
}

} // verus!
