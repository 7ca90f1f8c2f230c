//! Status codes, error taxonomy and the plain-data shapes of the native
//! upscaling engine's ABI.

use crate::rat::Rat;
use vstd::prelude::*;

verus! {

/// Status code returned by every native engine entry point: success.
pub const FFX_OK: i32 = 0;

/// The native error codes occupy a contiguous block at the bottom of the
/// `i32` range; each maps 1:1 to a variant of [`Fsr2Error`].
pub const FFX_ERROR_INVALID_POINTER: i32 = i32::MIN;
pub const FFX_ERROR_INVALID_ALIGNMENT: i32 = i32::MIN + 1;
pub const FFX_ERROR_INVALID_SIZE: i32 = i32::MIN + 2;
pub const FFX_EOF: i32 = i32::MIN + 3;
pub const FFX_ERROR_INVALID_PATH: i32 = i32::MIN + 4;
pub const FFX_ERROR_EOF: i32 = i32::MIN + 5;
pub const FFX_ERROR_MALFORMED_DATA: i32 = i32::MIN + 6;
pub const FFX_ERROR_OUT_OF_MEMORY: i32 = i32::MIN + 7;
pub const FFX_ERROR_INCOMPLETE_INTERFACE: i32 = i32::MIN + 8;
pub const FFX_ERROR_INVALID_ENUM: i32 = i32::MIN + 9;
pub const FFX_ERROR_INVALID_ARGUMENT: i32 = i32::MIN + 10;
pub const FFX_ERROR_OUT_OF_RANGE: i32 = i32::MIN + 11;
pub const FFX_ERROR_NULL_DEVICE: i32 = i32::MIN + 12;
pub const FFX_ERROR_BACKEND_API_ERROR: i32 = i32::MIN + 13;
pub const FFX_ERROR_INSUFFICIENT_MEMORY: i32 = i32::MIN + 14;

/// Error taxonomy of the native engine, one variant per status code.
#[derive(Clone, Copy, Debug, PartialEq, Eq, Structural)]
pub enum Fsr2Error {
    InvalidPointer,
    InvalidAlignment,
    InvalidSize,
    Eof,
    InvalidPath,
    ErrorEof,
    MalformedData,
    OutOfMemory,
    IncompleteInterface,
    InvalidEnum,
    InvalidArgument,
    OutOfRange,
    NullDevice,
    BackendApiError,
    InsufficientMemory,
}

/// True of the status codes the native engine documents; any other value
/// indicates a corrupted foreign call and has no mapping.
pub open spec fn is_ffx_status(code: int) -> bool {
    code == FFX_OK || (FFX_ERROR_INVALID_POINTER <= code <= FFX_ERROR_INSUFFICIENT_MEMORY)
}

/// The variant that a failing status code maps to.
pub open spec fn spec_ffx_error(code: int) -> Fsr2Error {
    if code == FFX_ERROR_INVALID_POINTER {
        Fsr2Error::InvalidPointer
    } else if code == FFX_ERROR_INVALID_ALIGNMENT {
        Fsr2Error::InvalidAlignment
    } else if code == FFX_ERROR_INVALID_SIZE {
        Fsr2Error::InvalidSize
    } else if code == FFX_EOF {
        Fsr2Error::Eof
    } else if code == FFX_ERROR_INVALID_PATH {
        Fsr2Error::InvalidPath
    } else if code == FFX_ERROR_EOF {
        Fsr2Error::ErrorEof
    } else if code == FFX_ERROR_MALFORMED_DATA {
        Fsr2Error::MalformedData
    } else if code == FFX_ERROR_OUT_OF_MEMORY {
        Fsr2Error::OutOfMemory
    } else if code == FFX_ERROR_INCOMPLETE_INTERFACE {
        Fsr2Error::IncompleteInterface
    } else if code == FFX_ERROR_INVALID_ENUM {
        Fsr2Error::InvalidEnum
    } else if code == FFX_ERROR_INVALID_ARGUMENT {
        Fsr2Error::InvalidArgument
    } else if code == FFX_ERROR_OUT_OF_RANGE {
        Fsr2Error::OutOfRange
    } else if code == FFX_ERROR_NULL_DEVICE {
        Fsr2Error::NullDevice
    } else if code == FFX_ERROR_BACKEND_API_ERROR {
        Fsr2Error::BackendApiError
    } else {
        Fsr2Error::InsufficientMemory
    }
}

/// Converts a native status code into this library's error taxonomy,
/// mapping each documented failure code to its own variant.
pub fn ffx_check_result(result: i32) -> (r: Result<(), Fsr2Error>)
    requires
        is_ffx_status(result as int),
    ensures
        r is Ok <==> result == FFX_OK,
        r is Err ==> r->Err_0 == spec_ffx_error(result as int),
{
    if result == FFX_OK {
        Ok(())
    } else if result == FFX_ERROR_INVALID_POINTER {
        Err(Fsr2Error::InvalidPointer)
    } else if result == FFX_ERROR_INVALID_ALIGNMENT {
        Err(Fsr2Error::InvalidAlignment)
    } else if result == FFX_ERROR_INVALID_SIZE {
        Err(Fsr2Error::InvalidSize)
    } else if result == FFX_EOF {
        Err(Fsr2Error::Eof)
    } else if result == FFX_ERROR_INVALID_PATH {
        Err(Fsr2Error::InvalidPath)
    } else if result == FFX_ERROR_EOF {
        Err(Fsr2Error::ErrorEof)
    } else if result == FFX_ERROR_MALFORMED_DATA {
        Err(Fsr2Error::MalformedData)
    } else if result == FFX_ERROR_OUT_OF_MEMORY {
        Err(Fsr2Error::OutOfMemory)
    } else if result == FFX_ERROR_INCOMPLETE_INTERFACE {
        Err(Fsr2Error::IncompleteInterface)
    } else if result == FFX_ERROR_INVALID_ENUM {
        Err(Fsr2Error::InvalidEnum)
    } else if result == FFX_ERROR_INVALID_ARGUMENT {
        Err(Fsr2Error::InvalidArgument)
    } else if result == FFX_ERROR_OUT_OF_RANGE {
        Err(Fsr2Error::OutOfRange)
    } else if result == FFX_ERROR_NULL_DEVICE {
        Err(Fsr2Error::NullDevice)
    } else if result == FFX_ERROR_BACKEND_API_ERROR {
        Err(Fsr2Error::BackendApiError)
    } else {
        Err(Fsr2Error::InsufficientMemory)
    }
}

/// Error raised by the graphics backend's device, mirrored as plain data so
/// the bridge can report it next to the native engine's own codes.
#[derive(Clone, Copy, Debug, PartialEq, Eq, Structural)]
pub enum DeviceError {
    OutOfMemory,
    Lost,
    Unexpected,
}

/// Union of everything a bridge operation can report: a native engine
/// status, a backend device error, or a raw low-level API result code.
#[derive(Clone, Copy, Debug, PartialEq, Eq, Structural)]
pub enum Fsr2WgpuError {
    Fsr2(Fsr2Error),
    Wgpu(DeviceError),
    Vulkan(i32),
}

impl From<Fsr2Error> for Fsr2WgpuError {
    /// Wraps a native engine status.
    fn from(e: Fsr2Error) -> (r: Fsr2WgpuError)
        ensures
            r == Fsr2WgpuError::Fsr2(e),
    {
        Fsr2WgpuError::Fsr2(e)
    }
}

impl vstd::std_specs::convert::FromSpecImpl<Fsr2Error> for Fsr2WgpuError {
    open spec fn obeys_from_spec() -> bool {
        true
    }

    open spec fn from_spec(e: Fsr2Error) -> Fsr2WgpuError {
        Fsr2WgpuError::Fsr2(e)
    }
}

impl From<DeviceError> for Fsr2WgpuError {
    /// Wraps a backend device error.
    fn from(e: DeviceError) -> (r: Fsr2WgpuError)
        ensures
            r == Fsr2WgpuError::Wgpu(e),
    {
        Fsr2WgpuError::Wgpu(e)
    }
}

impl vstd::std_specs::convert::FromSpecImpl<DeviceError> for Fsr2WgpuError {
    open spec fn obeys_from_spec() -> bool {
        true
    }

    open spec fn from_spec(e: DeviceError) -> Fsr2WgpuError {
        Fsr2WgpuError::Wgpu(e)
    }
}

/// A pixel resolution, in whole pixels.
#[derive(Clone, Copy, Debug, PartialEq, Eq, Structural)]
pub struct Resolution {
    pub width: u32,
    pub height: u32,
}

/// Pixel area of a resolution.
pub open spec fn spec_area(r: Resolution) -> int {
    r.width * r.height
}

/// Quality/performance trade-off of one upscaling session. Each mode fixes
/// the exact factor by which the display resolution is divided to obtain
/// the suggested input resolution.
#[derive(Clone, Copy, Debug, PartialEq, Eq, Structural)]
pub enum Fsr2QualityMode {
    Native,
    Quality,
    Balanced,
    Performance,
    UltraPerformance,
}

/// Numerator of the exact downscale factor of a quality mode
/// (`Native` 1, `Quality` 3/2, `Balanced` 17/10, `Performance` 2,
/// `UltraPerformance` 3).
pub open spec fn scale_factor_num(mode: Fsr2QualityMode) -> int {
    match mode {
        Fsr2QualityMode::Native => 1,
        Fsr2QualityMode::Quality => 3,
        Fsr2QualityMode::Balanced => 17,
        Fsr2QualityMode::Performance => 2,
        Fsr2QualityMode::UltraPerformance => 3,
    }
}

/// Denominator of the exact downscale factor of a quality mode.
pub open spec fn scale_factor_den(mode: Fsr2QualityMode) -> int {
    match mode {
        Fsr2QualityMode::Native => 1,
        Fsr2QualityMode::Quality => 2,
        Fsr2QualityMode::Balanced => 10,
        Fsr2QualityMode::Performance => 1,
        Fsr2QualityMode::UltraPerformance => 1,
    }
}

/// One display dimension divided by the mode's scale factor, floored.
pub open spec fn spec_scaled_dim(dim: int, mode: Fsr2QualityMode) -> int {
    dim * scale_factor_den(mode) / scale_factor_num(mode)
}

/// Context initialization flags, bit for bit as the native engine's header
/// declares them.
pub const FSR2_FLAG_HIGH_DYNAMIC_RANGE: u32 = 1;
pub const FSR2_FLAG_DISPLAY_RESOLUTION_MOTION_VECTORS: u32 = 2;
pub const FSR2_FLAG_JITTER_CANCELLED_MOTION_VECTORS: u32 = 4;
pub const FSR2_FLAG_INVERTED_DEPTH: u32 = 8;
pub const FSR2_FLAG_INFINITE_DEPTH: u32 = 16;
pub const FSR2_FLAG_AUTO_EXPOSURE: u32 = 32;
pub const FSR2_FLAG_DYNAMIC_RESOLUTION: u32 = 64;
pub const FSR2_FLAG_TEXTURE_1D: u32 = 128;

/// Flags steering the native auto-generation of a reactive mask, bit for
/// bit as the native engine's header declares them.
pub const FSR2_AUTOREACTIVE_FLAG_APPLY_TONEMAP: u32 = 1;
pub const FSR2_AUTOREACTIVE_FLAG_APPLY_INVERSE_TONEMAP: u32 = 2;
pub const FSR2_AUTOREACTIVE_FLAG_APPLY_THRESHOLD: u32 = 4;
pub const FSR2_AUTOREACTIVE_FLAG_USE_COMPONENTS_MAX: u32 = 8;

/// Resource access states a descriptor can declare towards the native
/// engine, with the header's enum values.
pub const FFX_RESOURCE_STATE_UNORDERED_ACCESS: u32 = 1;
pub const FFX_RESOURCE_STATE_COMPUTE_READ: u32 = 2;
pub const FFX_RESOURCE_STATE_COPY_SRC: u32 = 4;
pub const FFX_RESOURCE_STATE_COPY_DEST: u32 = 8;
pub const FFX_RESOURCE_STATE_GENERIC_READ: u32 = 6;

/// Declares the graphics backend's pixel-format enum to the verifier; a
/// value of it is carried through opaquely and only the trusted layout
/// derivation consults it.
#[verifier::external_type_specification]
#[verifier::external_body]
pub struct ExTextureFormat(wgpu::TextureFormat);

/// A borrowed texture/view pair, reduced to the plain values the bridge
/// reads: the raw image and view handles, size, pixel format, the usage
/// state the backend's tracker holds for it, and the image aspects. The
/// backend format itself rides along for the layout derivation.
#[derive(Clone, Copy)]
pub struct Fsr2Texture {
    /// Raw backend image handle.
    pub image: u64,
    /// Raw backend image-view handle.
    pub view: u64,
    pub width: u32,
    pub height: u32,
    /// Raw pixel format value of the low-level API.
    pub vk_format: i32,
    /// Usage bits the backend's resource tracker currently holds.
    pub usage: u16,
    /// Raw image-aspect bits of the low-level API.
    pub aspect_mask: u32,
    /// The backend's format, consulted when deriving the image layout.
    pub format: wgpu::TextureFormat,
}

/// How the dispatch obtains its exposure value.
pub enum Fsr2Exposure {
    /// The native engine computes exposure itself.
    AutoExposure,
    /// The caller supplies a pre-exposure value and an exposure texture.
    ManualExposure { pre_exposure: Rat, exposure: Fsr2Texture },
}

/// The reactive-mask input of a dispatch; the three modes have disjoint
/// required fields.
pub enum Fsr2ReactiveMask {
    NoMask,
    ManualMask(Fsr2Texture),
    /// Parameters for the native helper that generates a mask from two
    /// color buffers. The helper is a separate native entry point that
    /// this bridge does not drive.
    AutoMask {
        color_opaque_only: Fsr2Texture,
        color_opaque_and_transparent: Fsr2Texture,
        scale: Rat,
        threshold: Rat,
        binary_value: Rat,
        flags: u32,
    },
}

/// The raw resource descriptor handed to the native engine for one texture
/// slot: handles, size, format and the declared access state. An absent
/// texture becomes the null descriptor (null handles, 1 by 1, undefined
/// format) because the native engine reads every descriptor
/// unconditionally.
#[derive(Clone, Copy, Debug, PartialEq, Eq, Structural)]
pub struct Fsr2ResourceDescriptor {
    pub image: u64,
    pub view: u64,
    pub width: u32,
    pub height: u32,
    pub format: i32,
    pub state: u32,
}

/// The descriptor of an absent optional texture slot.
pub open spec fn spec_null_descriptor(state: u32) -> Fsr2ResourceDescriptor {
    Fsr2ResourceDescriptor {
        image: 0,
        view: 0,
        width: 1,
        height: 1,
        format: 0,
        state: state,
    }
}

/// An exact pair of fractional coordinates.
#[derive(Clone, Copy, Debug, PartialEq, Eq, Structural)]
pub struct FloatCoords2D {
    pub x: Rat,
    pub y: Rat,
}

} // verus!

