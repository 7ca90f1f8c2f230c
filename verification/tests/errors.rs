//! Mapping of native status codes onto the error taxonomy.

use fsr2wgpu::fsr::{
    FFX_EOF, FFX_ERROR_BACKEND_API_ERROR, FFX_ERROR_EOF, FFX_ERROR_INCOMPLETE_INTERFACE,
    FFX_ERROR_INSUFFICIENT_MEMORY, FFX_ERROR_INVALID_ALIGNMENT, FFX_ERROR_INVALID_ARGUMENT,
    FFX_ERROR_INVALID_ENUM, FFX_ERROR_INVALID_PATH, FFX_ERROR_INVALID_POINTER,
    FFX_ERROR_INVALID_SIZE, FFX_ERROR_MALFORMED_DATA, FFX_ERROR_NULL_DEVICE,
    FFX_ERROR_OUT_OF_MEMORY, FFX_ERROR_OUT_OF_RANGE, FFX_OK,
};
use fsr2wgpu::{ffx_check_result, DeviceError, Fsr2Error, Fsr2WgpuError};

#[test]
fn ok_code_maps_to_ok() {
    assert_eq!(ffx_check_result(FFX_OK), Ok(()));
}

#[test]
fn every_error_code_maps_to_its_variant() {
    let cases = [
        (FFX_ERROR_INVALID_POINTER, Fsr2Error::InvalidPointer),
        (FFX_ERROR_INVALID_ALIGNMENT, Fsr2Error::InvalidAlignment),
        (FFX_ERROR_INVALID_SIZE, Fsr2Error::InvalidSize),
        (FFX_EOF, Fsr2Error::Eof),
        (FFX_ERROR_INVALID_PATH, Fsr2Error::InvalidPath),
        (FFX_ERROR_EOF, Fsr2Error::ErrorEof),
        (FFX_ERROR_MALFORMED_DATA, Fsr2Error::MalformedData),
        (FFX_ERROR_OUT_OF_MEMORY, Fsr2Error::OutOfMemory),
        (FFX_ERROR_INCOMPLETE_INTERFACE, Fsr2Error::IncompleteInterface),
        (FFX_ERROR_INVALID_ENUM, Fsr2Error::InvalidEnum),
        (FFX_ERROR_INVALID_ARGUMENT, Fsr2Error::InvalidArgument),
        (FFX_ERROR_OUT_OF_RANGE, Fsr2Error::OutOfRange),
        (FFX_ERROR_NULL_DEVICE, Fsr2Error::NullDevice),
        (FFX_ERROR_BACKEND_API_ERROR, Fsr2Error::BackendApiError),
        (FFX_ERROR_INSUFFICIENT_MEMORY, Fsr2Error::InsufficientMemory),
    ];
    for (code, expected) in cases {
        assert_eq!(ffx_check_result(code), Err(expected));
    }
}

#[test]
fn error_codes_are_distinct() {
    let codes = [
        FFX_OK,
        FFX_ERROR_INVALID_POINTER,
        FFX_ERROR_INVALID_ALIGNMENT,
        FFX_ERROR_INVALID_SIZE,
        FFX_EOF,
        FFX_ERROR_INVALID_PATH,
        FFX_ERROR_EOF,
        FFX_ERROR_MALFORMED_DATA,
        FFX_ERROR_OUT_OF_MEMORY,
        FFX_ERROR_INCOMPLETE_INTERFACE,
        FFX_ERROR_INVALID_ENUM,
        FFX_ERROR_INVALID_ARGUMENT,
        FFX_ERROR_OUT_OF_RANGE,
        FFX_ERROR_NULL_DEVICE,
        FFX_ERROR_BACKEND_API_ERROR,
        FFX_ERROR_INSUFFICIENT_MEMORY,
    ];
    for (i, a) in codes.iter().enumerate() {
        for (j, b) in codes.iter().enumerate() {
            if i != j {
                assert_ne!(a, b);
            }
        }
    }
}

#[test]
fn wrapper_errors_wrap_their_sources() {
    assert_eq!(
        Fsr2WgpuError::from(Fsr2Error::OutOfMemory),
        Fsr2WgpuError::Fsr2(Fsr2Error::OutOfMemory)
    );
    assert_eq!(
        Fsr2WgpuError::from(DeviceError::Lost),
        Fsr2WgpuError::Wgpu(DeviceError::Lost)
    );
}

#[test]
fn wrapper_error_kinds_are_distinguishable() {
    let native = Fsr2WgpuError::Fsr2(Fsr2Error::BackendApiError);
    let device = Fsr2WgpuError::Wgpu(DeviceError::Lost);
    let raw = Fsr2WgpuError::Vulkan(-4);
    assert_ne!(native, device);
    assert_ne!(device, raw);
    assert_ne!(native, raw);
    assert_eq!(raw, Fsr2WgpuError::Vulkan(-4));
}
