//! The resource allocator: describes the GPU image that will hold the
//! compute kernel's output. The description is built once at startup; the
//! host's registry performs the actual device allocation from it and owns
//! the image, handing every other component a stable logical handle.

use vstd::prelude::*;

verus! {

/// The pixel format of the output image.
#[derive(Clone, Copy, PartialEq, Eq, Structural, Debug)]
pub enum PixelFormat {
    /// Four 32-bit floating-point channels; what the compute kernel writes.
    Rgba32Float,
    /// Four 8-bit normalized channels.
    Rgba8Unorm,
}

/// The usage a GPU image is allocated for.
#[derive(Clone, Copy, PartialEq, Eq, Structural, Debug)]
pub struct ImageUsage {
    /// The image can be copied into.
    pub copy_dst: bool,
    /// The image can be bound as a writable storage target by a compute
    /// program.
    pub storage_binding: bool,
    /// The image can be bound as a readable texture by a material stage.
    pub texture_binding: bool,
}

/// A complete description of the compute-output image: fixed dimensions and
/// format, usage permitting copy, storage write and texture read at once,
/// and a deterministic initial fill. Never resized or reformatted after
/// creation.
#[derive(Clone, Copy, PartialEq, Eq, Structural, Debug)]
pub struct ComputeImage {
    pub width: u32,
    pub height: u32,
    pub format: PixelFormat,
    pub usage: ImageUsage,
    /// The value every texel starts from, as four channel bytes.
    pub fill_r: u8,
    pub fill_g: u8,
    pub fill_b: u8,
    pub fill_a: u8,
}

/// Describe the output image for the given dimensions and format: usable as
/// copy destination, writable storage target and readable texture, every
/// texel pre-filled with opaque black. Runs once, before any frame; if the
/// device then refuses the allocation, startup fails and is not retried.
pub fn create_output_image(width: u32, height: u32, format: PixelFormat) -> (img: ComputeImage)
    ensures
        img.width == width,
        img.height == height,
        img.format == format,
        img.usage == (ImageUsage { copy_dst: true, storage_binding: true, texture_binding: true }),
        img.fill_r == 0 && img.fill_g == 0 && img.fill_b == 0,
        img.fill_a == 255,
{
    ComputeImage {
        width,
        height,
        format,
        usage: ImageUsage { copy_dst: true, storage_binding: true, texture_binding: true },
        fill_r: 0,
        fill_g: 0,
        fill_b: 0,
        fill_a: 255,
    }
}

} // verus!
