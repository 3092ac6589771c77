//! The usages that an imported Vulkan image is given, read from wgpu's own
//! flag definitions.
use vstd::prelude::*;

verus! {

/// Bits of `wgpu_types::TextureUsages::COPY_DST` (`1 << 1` in wgpu-types).
pub open spec fn spec_usage_copy_dst() -> u32 { 2 }

/// Bits of `wgpu_types::TextureUsages::RENDER_ATTACHMENT` (`1 << 4` in wgpu-types).
pub open spec fn spec_usage_render_attachment() -> u32 { 16 }

/// Bits of `wgpu_types::TextureUses::COPY_DST` (`1 << 3` in wgpu-types).
pub open spec fn spec_uses_copy_dst() -> u16 { 8 }

/// Bits of `wgpu_types::TextureUses::COLOR_TARGET` (`1 << 5` in wgpu-types).
pub open spec fn spec_uses_color_target() -> u16 { 32 }

/// `wgpu_types::TextureUsages::COPY_DST.bits()`: the flag is declared as
/// `1 << 1` in wgpu-types, so its bits are 2.
#[verifier::external_body]
fn texture_usages_copy_dst_bits() -> (r: u32)
    ensures
        r == spec_usage_copy_dst(),
{
    wgpu_types::TextureUsages::COPY_DST.bits()
}

/// `wgpu_types::TextureUsages::RENDER_ATTACHMENT.bits()`: the flag is
/// declared as `1 << 4` in wgpu-types, so its bits are 16.
#[verifier::external_body]
fn texture_usages_render_attachment_bits() -> (r: u32)
    ensures
        r == spec_usage_render_attachment(),
{
    wgpu_types::TextureUsages::RENDER_ATTACHMENT.bits()
}

/// `wgpu_types::TextureUses::COPY_DST.bits()`: the flag is declared as
/// `1 << 3` in wgpu-types, so its bits are 8.
#[verifier::external_body]
fn texture_uses_copy_dst_bits() -> (r: u16)
    ensures
        r == spec_uses_copy_dst(),
{
    wgpu_types::TextureUses::COPY_DST.bits()
}

/// `wgpu_types::TextureUses::COLOR_TARGET.bits()`: the flag is declared as
/// `1 << 5` in wgpu-types, so its bits are 32.
#[verifier::external_body]
fn texture_uses_color_target_bits() -> (r: u16)
    ensures
        r == spec_uses_color_target(),
{
    wgpu_types::TextureUses::COLOR_TARGET.bits()
}

/// The public usage of an imported image: it can be rendered to and copied into.
pub open spec fn spec_imported_texture_usage() -> u32 {
    spec_usage_render_attachment() | spec_usage_copy_dst()
}

/// The HAL usage of an imported image: a color target and a copy destination.
pub open spec fn spec_imported_hal_usage() -> u16 {
    spec_uses_color_target() | spec_uses_copy_dst()
}

/// The usage bits of an imported image, as numbers.
pub proof fn lemma_imported_usage_values()
    ensures
        spec_imported_texture_usage() == 18,
        spec_imported_hal_usage() == 40,
{
    assert((16u32 | 2u32) == 18u32) by (bit_vector);
    assert((32u16 | 8u16) == 40u16) by (bit_vector);
}

/// `TextureUsages::RENDER_ATTACHMENT | TextureUsages::COPY_DST`, as bits.
pub fn imported_texture_usage() -> (r: u32)
    ensures
        r == spec_imported_texture_usage(),
        r == 18,
{
    let r = texture_usages_render_attachment_bits() | texture_usages_copy_dst_bits();
    assert((16u32 | 2u32) == 18u32) by (bit_vector);
    r
}

/// `TextureUses::COLOR_TARGET | TextureUses::COPY_DST`, as bits.
pub fn imported_hal_usage() -> (r: u16)
    ensures
        r == spec_imported_hal_usage(),
        r == 40,
{
    let r = texture_uses_color_target_bits() | texture_uses_copy_dst_bits();
    assert((32u16 | 8u16) == 40u16) by (bit_vector);
    r
}

} // verus!
