//! The swap-chain's description and the image declared over each of its shared back-buffers.
use vstd::prelude::*;
use crate::commands::IMAGE_LAYOUT_PREINITIALIZED;
use crate::layout::{BACK_BUFFER_COUNT, EXTENT_HEIGHT, EXTENT_WIDTH};

verus! {

/// `DXGI_FORMAT_R8G8B8A8_UNORM`, the swap-chain's format.
pub const DXGI_FORMAT_RGBA8_UNORM: u32 = 28;

/// `VK_FORMAT_R8G8B8A8_UNORM`, the same format on the graphics side.
pub const VK_FORMAT_RGBA8_UNORM: u32 = 37;

/// `VK_SAMPLE_COUNT_1_BIT`.
pub const SAMPLE_COUNT_1: u32 = 0x01;

/// `VK_IMAGE_TILING_OPTIMAL`.
pub const IMAGE_TILING_OPTIMAL: u32 = 0;

/// `VK_IMAGE_USAGE_COLOR_ATTACHMENT_BIT`.
pub const IMAGE_USAGE_COLOR_ATTACHMENT: u32 = 0x10;

/// What the swap-chain is created with, beside its fixed presentation flags.
#[derive(Debug, Clone, Copy, PartialEq, Eq, Structural)]
pub struct SwapChainDesc {
    /// Width of each back-buffer.
    pub width: u32,
    /// Height of each back-buffer.
    pub height: u32,
    /// Format code on the compositor side.
    pub format: u32,
    /// Number of back-buffers.
    pub buffer_count: u32,
}

/// The swap-chain: two 640×480 back-buffers of 8-bit RGBA.
pub fn swap_chain_desc() -> (r: SwapChainDesc)
    ensures
        r == (SwapChainDesc {
            width: EXTENT_WIDTH,
            height: EXTENT_HEIGHT,
            format: DXGI_FORMAT_RGBA8_UNORM,
            buffer_count: BACK_BUFFER_COUNT as u32,
        }),
{
    SwapChainDesc {
        width: EXTENT_WIDTH,
        height: EXTENT_HEIGHT,
        format: DXGI_FORMAT_RGBA8_UNORM,
        buffer_count: BACK_BUFFER_COUNT as u32,
    }
}

/// The graphics-side format that stores pixels as the compositor-side format `dxgi` does.
pub open spec fn graphics_format_of(dxgi: u32) -> Option<u32> {
    if dxgi == DXGI_FORMAT_RGBA8_UNORM {
        Some(VK_FORMAT_RGBA8_UNORM)
    } else {
        None
    }
}

/// The graphics-side format of the compositor-side format `dxgi`, where this
/// library knows one.
pub fn graphics_format(dxgi: u32) -> (r: Option<u32>)
    ensures
        r == graphics_format_of(dxgi),
{
    if dxgi == DXGI_FORMAT_RGBA8_UNORM {
        Some(VK_FORMAT_RGBA8_UNORM)
    } else {
        None
    }
}

/// The description of the graphics-side image over one shared back-buffer.
#[derive(Debug, Clone, Copy, PartialEq, Eq, Structural)]
pub struct SharedImageDesc {
    /// Format code on the graphics side.
    pub format: u32,
    /// Width in pixels.
    pub width: u32,
    /// Height in pixels.
    pub height: u32,
    /// Depth, 1 for a 2D image.
    pub depth: u32,
    /// Number of mip levels.
    pub mip_levels: u32,
    /// Number of array layers.
    pub array_layers: u32,
    /// Sample count bit.
    pub samples: u32,
    /// Tiling code.
    pub tiling: u32,
    /// Usage bits.
    pub usage: u32,
    /// Layout the image is created in.
    pub initial_layout: u32,
}

/// Whether `img` describes the memory of a back-buffer of `sc`: same format,
/// same extent, one level, one layer, one sample, optimal tiling, used as a
/// color attachment, created preinitialized.
pub open spec fn matches_swap_chain(img: SharedImageDesc, sc: SwapChainDesc) -> bool {
    &&& graphics_format_of(sc.format) == Some(img.format)
    &&& img.width == sc.width && img.height == sc.height && img.depth == 1
    &&& img.mip_levels == 1 && img.array_layers == 1 && img.samples == SAMPLE_COUNT_1
    &&& img.tiling == IMAGE_TILING_OPTIMAL && img.usage == IMAGE_USAGE_COLOR_ATTACHMENT
    &&& img.initial_layout == IMAGE_LAYOUT_PREINITIALIZED
}

/// The image to declare over each back-buffer of `sc`; `None` when the
/// swap-chain's format has no graphics-side counterpart here.
pub fn shared_image_desc(sc: &SwapChainDesc) -> (r: Option<SharedImageDesc>)
    ensures
        r is Some <==> graphics_format_of(sc.format) is Some,
        r matches Some(img) ==> matches_swap_chain(img, *sc),
{
    match graphics_format(sc.format) {
        Some(format) => Some(
            SharedImageDesc {
                format,
                width: sc.width,
                height: sc.height,
                depth: 1,
                mip_levels: 1,
                array_layers: 1,
                samples: SAMPLE_COUNT_1,
                tiling: IMAGE_TILING_OPTIMAL,
                usage: IMAGE_USAGE_COLOR_ATTACHMENT,
                initial_layout: IMAGE_LAYOUT_PREINITIALIZED,
            },
        ),
        None => None,
    }
}

} // verus!
