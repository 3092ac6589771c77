//! Creating a wgpu texture around an existing `MTLTexture`: the part of the
//! HAL descriptor that is read straight from the C descriptor.
use vstd::prelude::*;
use crate::format::TextureFormat;
use crate::texture::Extent3d;

verus! {

/// The part of the HAL descriptor of a Metal texture that comes straight
/// from the C descriptor, and the parts it fixes itself.
#[derive(Clone, Debug)]
pub struct MetalTexturePlan {
    /// Whether the descriptor's label string is used as the texture's label.
    pub has_label: bool,
    pub size: Extent3d,
    pub mip_level_count: u32,
    pub sample_count: u32,
    /// Bits of the HAL `MemoryFlags`.
    pub memory_flags: u32,
    /// The view formats of the HAL descriptor.
    pub view_formats: Vec<TextureFormat>,
}

/// Whether a C label (a pointer and a length) names a label: only a non-null
/// pointer to at least one byte does; otherwise the texture has no label.
pub fn metal_label_is_present(label_is_null: bool, label_length: usize) -> (r: bool)
    ensures
        r == (!label_is_null && label_length > 0),
{
    !label_is_null && label_length > 0
}

/// Plans the HAL descriptor of a Metal texture from the fields of its C
/// descriptor; it has no memory flags and no view formats.
pub fn plan_metal_texture(
    label_is_null: bool,
    label_length: usize,
    width: u32,
    height: u32,
    depth_or_array_layers: u32,
    mip_level_count: u32,
    sample_count: u32,
) -> (r: MetalTexturePlan)
    ensures
        r.has_label == (!label_is_null && label_length > 0),
        r.size == (Extent3d { width, height, depth_or_array_layers }),
        r.mip_level_count == mip_level_count,
        r.sample_count == sample_count,
        r.memory_flags == 0,
        r.view_formats@ == Seq::<TextureFormat>::empty(),
{
    MetalTexturePlan {
        has_label: metal_label_is_present(label_is_null, label_length),
        size: Extent3d { width, height, depth_or_array_layers },
        mip_level_count,
        sample_count,
        memory_flags: 0,
        view_formats: Vec::new(),
    }
}

} // verus!
