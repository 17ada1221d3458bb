//! Model of the Direct3D texture data that the capture pipeline reads and
//! writes: a texture description, the staging copy of a delivered frame, and
//! the description derived for that copy.

use vstd::prelude::*;

verus! {

/// Pixel format code for 32-bit BGRA, unsigned normalized: the one format the
/// pipeline supports (`DXGI_FORMAT_B8G8R8A8_UNORM`).
pub const DXGI_FORMAT_B8G8R8A8_UNORM: u32 = 87;

/// Usage code of a staging resource, readable by the CPU (`D3D11_USAGE_STAGING`).
pub const D3D11_USAGE_STAGING: u32 = 3;

/// CPU-access flag granting read access (`D3D11_CPU_ACCESS_READ`).
pub const D3D11_CPU_ACCESS_READ: u32 = 0x20000;

/// Bytes per pixel of the supported format.
pub const BYTES_PER_PIXEL: u32 = 4;

/// The fields of a 2-D texture description that the pipeline reads or writes
/// (`D3D11_TEXTURE2D_DESC`, reduced to plain values).
#[derive(Clone, Copy, Debug, PartialEq, Eq, Structural)]
pub struct TextureDesc {
    pub width: u32,
    pub height: u32,
    pub format: u32,
    pub usage: u32,
    pub bind_flags: u32,
    pub cpu_access_flags: u32,
    pub misc_flags: u32,
}

/// The description the arrival callback derives for the staging copy of a
/// delivered frame: same size and format, staging usage, no bind flags, CPU
/// read access, no extra flags.
pub open spec fn staging_of(desc: TextureDesc) -> TextureDesc {
    TextureDesc {
        width: desc.width,
        height: desc.height,
        format: desc.format,
        usage: D3D11_USAGE_STAGING,
        bind_flags: 0,
        cpu_access_flags: D3D11_CPU_ACCESS_READ,
        misc_flags: 0,
    }
}

impl TextureDesc {
    /// Derive the staging-resource description for a copy of a texture with
    /// this description (step three of the arrival callback).
    pub fn to_staging(&self) -> (r: TextureDesc)
        ensures
            r == staging_of(*self),
    {
        TextureDesc {
            width: self.width,
            height: self.height,
            format: self.format,
            usage: D3D11_USAGE_STAGING,
            bind_flags: 0,
            cpu_access_flags: D3D11_CPU_ACCESS_READ,
            misc_flags: 0,
        }
    }
}

/// A staging texture as the consumer sees it once mapped into CPU memory: its
/// description, the stride between consecutive rows as laid out by the GPU,
/// and the mapped bytes themselves.
#[derive(Clone, Debug)]
pub struct StagingTexture {
    pub desc: TextureDesc,
    pub row_pitch: u32,
    pub bytes: Vec<u8>,
}

impl StagingTexture {
    /// Shape of mapped GPU memory: one `row_pitch`-sized stretch per row, the
    /// pitch at least a packed BGRA row, and the dimensions small enough to
    /// report in a frame's signed fields.
    pub open spec fn wf(self) -> bool {
        &&& self.bytes@.len() == self.desc.height * self.row_pitch
        &&& self.desc.width * BYTES_PER_PIXEL <= self.row_pitch
        &&& self.desc.width <= 0x7fff_ffff
        &&& self.desc.height <= 0x7fff_ffff
    }
}

} // verus!
