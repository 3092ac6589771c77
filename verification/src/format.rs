//! Translation of raw `VkFormat` codes into the texture formats wgpu knows.
use vstd::prelude::*;

verus! {

/// The wgpu texture formats that a Vulkan image can be imported as.
#[derive(Clone, Copy, Debug, PartialEq, Eq, Structural)]
pub enum TextureFormat {
    Rgba8UnormSrgb,
    Rgba8Unorm,
    Bgra8UnormSrgb,
    Bgra8Unorm,
    Rgba16Float,
    Rgb10a2Unorm,
    Depth24PlusStencil8,
    Depth32Float,
}

/// `VK_FORMAT_R8G8B8A8_UNORM`
pub const VK_FORMAT_R8G8B8A8_UNORM: i32 = 37;
/// `VK_FORMAT_R8G8B8A8_SRGB`
pub const VK_FORMAT_R8G8B8A8_SRGB: i32 = 43;
/// `VK_FORMAT_B8G8R8A8_UNORM`
pub const VK_FORMAT_B8G8R8A8_UNORM: i32 = 44;
/// `VK_FORMAT_B8G8R8A8_SRGB`
pub const VK_FORMAT_B8G8R8A8_SRGB: i32 = 50;
/// `VK_FORMAT_A2B10G10R10_UNORM_PACK32`
pub const VK_FORMAT_A2B10G10R10_UNORM_PACK32: i32 = 64;
/// `VK_FORMAT_R16G16B16A16_SFLOAT`
pub const VK_FORMAT_R16G16B16A16_SFLOAT: i32 = 97;
/// `VK_FORMAT_D32_SFLOAT`
pub const VK_FORMAT_D32_SFLOAT: i32 = 126;
/// `VK_FORMAT_D24_UNORM_S8_UINT`
pub const VK_FORMAT_D24_UNORM_S8_UINT: i32 = 129;

/// The wgpu format that a `VkFormat` code stands for, where it is one of the
/// supported codes.
pub open spec fn spec_vk_format_to_wgpu(vk_format: int) -> Option<TextureFormat> {
    if vk_format == 43 {
        Some(TextureFormat::Rgba8UnormSrgb)
    } else if vk_format == 37 {
        Some(TextureFormat::Rgba8Unorm)
    } else if vk_format == 50 {
        Some(TextureFormat::Bgra8UnormSrgb)
    } else if vk_format == 44 {
        Some(TextureFormat::Bgra8Unorm)
    } else if vk_format == 97 {
        Some(TextureFormat::Rgba16Float)
    } else if vk_format == 64 {
        Some(TextureFormat::Rgb10a2Unorm)
    } else if vk_format == 129 {
        Some(TextureFormat::Depth24PlusStencil8)
    } else if vk_format == 126 {
        Some(TextureFormat::Depth32Float)
    } else {
        None
    }
}

/// The `VkFormat` code that a supported wgpu format is imported from.
pub open spec fn spec_vk_code_of(format: TextureFormat) -> int {
    match format {
        TextureFormat::Rgba8UnormSrgb => 43,
        TextureFormat::Rgba8Unorm => 37,
        TextureFormat::Bgra8UnormSrgb => 50,
        TextureFormat::Bgra8Unorm => 44,
        TextureFormat::Rgba16Float => 97,
        TextureFormat::Rgb10a2Unorm => 64,
        TextureFormat::Depth24PlusStencil8 => 129,
        TextureFormat::Depth32Float => 126,
    }
}

/// Converts a `VkFormat` code into the wgpu texture format it stands for;
/// `None` for every code outside the supported set.
pub fn vk_format_to_wgpu(vk_format: i32) -> (r: Option<TextureFormat>)
    ensures
        r == spec_vk_format_to_wgpu(vk_format as int),
{
    match vk_format {
        43 => Some(TextureFormat::Rgba8UnormSrgb),
        37 => Some(TextureFormat::Rgba8Unorm),
        50 => Some(TextureFormat::Bgra8UnormSrgb),
        44 => Some(TextureFormat::Bgra8Unorm),
        97 => Some(TextureFormat::Rgba16Float),
        64 => Some(TextureFormat::Rgb10a2Unorm),
        129 => Some(TextureFormat::Depth24PlusStencil8),
        126 => Some(TextureFormat::Depth32Float),
        _ => None,
    }
}

/// The signed enumerant that an unsigned 32-bit `VkFormat` value stands
/// for, bit for bit (two's complement).
pub open spec fn spec_vk_format_from_c(vk_format: u32) -> int {
    if vk_format <= 0x7fff_ffff {
        vk_format as int
    } else {
        vk_format - 0x1_0000_0000
    }
}

/// Reads a `VkFormat` as it crosses the C boundary (an unsigned 32-bit
/// value) as the signed enumerant the translation works on, bit for bit.
pub fn vk_format_from_c(vk_format: u32) -> (r: i32)
    ensures
        r == vk_format as i32,
        r == spec_vk_format_from_c(vk_format),
{
    let r = vk_format as i32;
    assert(vk_format > 0x7fff_ffff ==> (vk_format as i32) == vk_format - 0x1_0000_0000)
        by (bit_vector);
    assert(vk_format <= 0x7fff_ffff ==> (vk_format as i32) == vk_format) by (bit_vector);
    r
}

/// Every format the translation yields comes from exactly one `VkFormat`
/// code: the translation never merges two Vulkan formats into one wgpu format,
/// and it is undone by `spec_vk_code_of`.
pub proof fn lemma_vk_format_translation_injective(a: int, b: int)
    requires
        spec_vk_format_to_wgpu(a) is Some,
        spec_vk_format_to_wgpu(a) == spec_vk_format_to_wgpu(b),
    ensures
        a == b,
        spec_vk_code_of(spec_vk_format_to_wgpu(a)->0) == a,
{
}

/// Every wgpu format of the library is reached from its `VkFormat` code.
pub proof fn lemma_vk_format_translation_onto(format: TextureFormat)
    ensures
        spec_vk_format_to_wgpu(spec_vk_code_of(format)) == Some(format),
{
}

} // verus!
