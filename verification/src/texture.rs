//! Importing a raw `VkImage` as a wgpu texture: which requests are refused
//! before anything is called, the descriptors handed to wgpu, the data the
//! texture handle records, and the order of the import steps.
use vstd::prelude::*;
use crate::format::{spec_vk_format_from_c, spec_vk_format_to_wgpu, vk_format_from_c, vk_format_to_wgpu, TextureFormat};
use crate::sequence::{
    next_state, run_state, lemma_aborted_iff_some_step_failed,
    lemma_finished_iff_all_steps_succeeded, lemma_running_counts_all, SequenceStatus,
    StepOutcome, StepSequence,
};
use crate::usage::{
    imported_hal_usage, imported_texture_usage, spec_imported_hal_usage,
    spec_imported_texture_usage,
};

verus! {

/// The label given to both descriptors of an imported image.
pub const IMPORTED_IMAGE_LABEL: &'static str = "imported_vk_image";

/// The number of steps in importing a Vulkan image.
pub const TEXTURE_IMPORT_STEPS: u8 = 4;

/// The extent of a texture.
#[derive(Clone, Copy, Debug, PartialEq, Eq, Structural)]
pub struct Extent3d {
    pub width: u32,
    pub height: u32,
    pub depth_or_array_layers: u32,
}

/// The dimensionality of a texture.
#[derive(Clone, Copy, Debug, PartialEq, Eq, Structural)]
pub enum TextureDimension {
    D1,
    D2,
    D3,
}

/// Why an image import is refused before anything is called.
#[derive(Clone, Copy, Debug, PartialEq, Eq, Structural)]
pub enum ImportRefusal {
    /// The device handle is null.
    NullDevice,
    /// The `VkFormat` is not one that can be imported.
    UnsupportedFormat,
}

/// Everything that importing a `VkImage` hands to wgpu-hal and wgpu-core.
/// The HAL descriptor and the wgpu descriptor share label, size, mip level
/// count, sample count, dimension and format.
#[derive(Clone, Debug)]
pub struct TextureImportPlan {
    /// The raw `VkImage`.
    pub vk_image: u64,
    /// Whether the image is wrapped with a drop callback. With one (which does
    /// nothing), wgpu-hal does not take ownership of the image, and releasing
    /// the texture leaves it alone; without one, wgpu-hal destroys it.
    pub image_drop_callback: bool,
    pub label: &'static str,
    pub size: Extent3d,
    pub mip_level_count: u32,
    pub sample_count: u32,
    pub dimension: TextureDimension,
    pub format: TextureFormat,
    /// Bits of the HAL `TextureUses`.
    pub hal_usage: u16,
    /// Bits of the HAL `MemoryFlags`.
    pub hal_memory_flags: u32,
    /// The view formats of the HAL descriptor.
    pub hal_view_formats: Vec<TextureFormat>,
    /// Bits of the wgpu `TextureUsages`.
    pub usage: u32,
    /// The view formats of the wgpu descriptor.
    pub view_formats: Vec<TextureFormat>,
}

/// Whether `plan` imports `vk_image` in `format` with the given shape.
pub open spec fn spec_is_image_plan(
    plan: TextureImportPlan,
    vk_image: u64,
    format: TextureFormat,
    width: u32,
    height: u32,
    array_layers: u32,
    mip_levels: u32,
    sample_count: u32,
) -> bool {
    &&& plan.vk_image == vk_image
    &&& plan.image_drop_callback
    &&& plan.label@ == IMPORTED_IMAGE_LABEL@
    &&& plan.size == Extent3d { width, height, depth_or_array_layers: array_layers }
    &&& plan.mip_level_count == mip_levels
    &&& plan.sample_count == sample_count
    &&& plan.dimension == TextureDimension::D2
    &&& plan.format == format
    &&& plan.hal_usage == spec_imported_hal_usage()
    &&& plan.hal_memory_flags == 0
    &&& plan.hal_view_formats@ == Seq::<TextureFormat>::empty()
    &&& plan.usage == spec_imported_texture_usage()
    &&& plan.view_formats@ == Seq::<TextureFormat>::empty()
}

/// Plans the import of a `VkImage` whose `VkFormat` arrives as an unsigned C
/// value. A null device is refused first; then a format outside the supported
/// set. Otherwise the image becomes a 2D texture with `array_layers` layers
/// that can be rendered to and copied into, with no memory flags and no view
/// formats; the image stays the caller's (it is wrapped with a drop callback).
pub fn plan_vulkan_image_import(
    device_is_null: bool,
    vk_image: u64,
    vk_format: u32,
    width: u32,
    height: u32,
    array_layers: u32,
    mip_levels: u32,
    sample_count: u32,
) -> (r: Result<TextureImportPlan, ImportRefusal>)
    ensures
        device_is_null <==> r == Err::<TextureImportPlan, ImportRefusal>(ImportRefusal::NullDevice),
        r == Err::<TextureImportPlan, ImportRefusal>(ImportRefusal::UnsupportedFormat) <==> (
        !device_is_null && spec_vk_format_to_wgpu(spec_vk_format_from_c(vk_format)) is None),
        r is Ok <==> (!device_is_null && spec_vk_format_to_wgpu(spec_vk_format_from_c(vk_format)) is Some),
        r matches Ok(plan) ==> spec_vk_format_to_wgpu(spec_vk_format_from_c(vk_format)) == Some(
            plan.format,
        ) && spec_is_image_plan(
            plan,
            vk_image,
            plan.format,
            width,
            height,
            array_layers,
            mip_levels,
            sample_count,
        ),
        r matches Ok(plan) ==> {
            &&& plan.vk_image == vk_image
            &&& plan.size.width == width
            &&& plan.size.height == height
            &&& plan.size.depth_or_array_layers == array_layers
            &&& plan.mip_level_count == mip_levels
            &&& plan.sample_count == sample_count
            &&& plan.dimension == TextureDimension::D2
            &&& plan.usage == 18
            &&& plan.hal_usage == 40
        },
{
    proof {
        crate::usage::lemma_imported_usage_values();
    }
    if device_is_null {
        return Err(ImportRefusal::NullDevice);
    }
    let format = match vk_format_to_wgpu(vk_format_from_c(vk_format)) {
        Some(f) => f,
        None => {
            return Err(ImportRefusal::UnsupportedFormat);
        },
    };
    Ok(TextureImportPlan {
        vk_image,
        image_drop_callback: true,
        label: IMPORTED_IMAGE_LABEL,
        size: Extent3d { width, height, depth_or_array_layers: array_layers },
        mip_level_count: mip_levels,
        sample_count,
        dimension: TextureDimension::D2,
        format,
        hal_usage: imported_hal_usage(),
        hal_memory_flags: 0,
        hal_view_formats: Vec::new(),
        usage: imported_texture_usage(),
        view_formats: Vec::new(),
    })
}

/// Whatever format is imported, a plan wraps the caller's own image, keeps
/// the requested width, height, layer count, mip level count and sample count
/// as given, is a 2D texture, and can be rendered to and copied into (usage
/// `RENDER_ATTACHMENT | COPY_DST` = 18, HAL usage `COLOR_TARGET | COPY_DST`
/// = 40); no request changes any of these by its format, its sample count or
/// its number of layers.
pub proof fn lemma_image_plan_keeps_request(
    plan: TextureImportPlan,
    vk_image: u64,
    format: TextureFormat,
    width: u32,
    height: u32,
    array_layers: u32,
    mip_levels: u32,
    sample_count: u32,
)
    requires
        spec_is_image_plan(
            plan,
            vk_image,
            format,
            width,
            height,
            array_layers,
            mip_levels,
            sample_count,
        ),
    ensures
        plan.vk_image == vk_image,
        plan.format == format,
        plan.size.width == width,
        plan.size.height == height,
        plan.size.depth_or_array_layers == array_layers,
        plan.mip_level_count == mip_levels,
        plan.sample_count == sample_count,
        plan.dimension == TextureDimension::D2,
        plan.usage == 18,
        plan.hal_usage == 40,
        plan.hal_memory_flags == 0,
        plan.hal_view_formats@.len() == 0,
        plan.view_formats@.len() == 0,
        plan.image_drop_callback,
{
    crate::usage::lemma_imported_usage_values();
}

/// Two accepted imports of the same image and shape in any two formats give
/// plans that differ in nothing handed to wgpu but the format.
pub proof fn lemma_image_plans_differ_only_in_format(
    p: TextureImportPlan,
    q: TextureImportPlan,
    vk_image: u64,
    f: TextureFormat,
    g: TextureFormat,
    width: u32,
    height: u32,
    array_layers: u32,
    mip_levels: u32,
    sample_count: u32,
)
    requires
        spec_is_image_plan(p, vk_image, f, width, height, array_layers, mip_levels, sample_count),
        spec_is_image_plan(q, vk_image, g, width, height, array_layers, mip_levels, sample_count),
    ensures
        p.vk_image == q.vk_image,
        p.size == q.size,
        p.mip_level_count == q.mip_level_count,
        p.sample_count == q.sample_count,
        p.dimension == q.dimension,
        p.usage == q.usage,
        p.hal_usage == q.hal_usage,
        p.format == f,
        q.format == g,
{
    lemma_image_plan_keeps_request(p, vk_image, f, width, height, array_layers, mip_levels, sample_count);
    lemma_image_plan_keeps_request(q, vk_image, g, width, height, array_layers, mip_levels, sample_count);
}

/// What the handle of an imported texture records about it.
#[derive(Clone, Copy, Debug, PartialEq, Eq, Structural)]
pub struct TextureData {
    /// Bits of the wgpu `TextureUsages`, widened.
    pub usage: u64,
    pub dimension: TextureDimension,
    pub size: Extent3d,
    pub format: TextureFormat,
    pub mip_level_count: u32,
    pub sample_count: u32,
    /// Whether the texture belongs to a surface.
    pub has_surface: bool,
    /// Whether the texture has been presented to a surface.
    pub surface_presented: bool,
}

/// The data recorded for a texture imported by `plan`, read from the wgpu
/// descriptor of the plan; an imported texture belongs to no surface and has
/// not been presented.
pub fn texture_data(plan: &TextureImportPlan) -> (r: TextureData)
    ensures
        r.usage == plan.usage as u64,
        r.dimension == plan.dimension,
        r.size == plan.size,
        r.format == plan.format,
        r.mip_level_count == plan.mip_level_count,
        r.sample_count == plan.sample_count,
        !r.has_surface,
        !r.surface_presented,
{
    TextureData {
        usage: plan.usage as u64,
        dimension: plan.dimension,
        size: plan.size,
        format: plan.format,
        mip_level_count: plan.mip_level_count,
        sample_count: plan.sample_count,
        has_surface: false,
        surface_presented: false,
    }
}

/// What to do next while importing a Vulkan image.
#[derive(Clone, Copy, Debug, PartialEq, Eq, Structural)]
pub enum TextureImportAction {
    /// Get the wgpu-core device as a HAL device (`device_as_hal`); fails
    /// when it is not a Vulkan device.
    AcquireHalDevice,
    /// Wrap the raw image as a HAL texture with the HAL descriptor
    /// (`texture_from_raw`).
    WrapImage,
    /// Release the HAL device, which wgpu-core locks again when registering.
    ReleaseHalDevice,
    /// Register the HAL texture with wgpu-core (`create_texture_from_hal`)
    /// with the wgpu descriptor; fails when wgpu-core reports an error.
    RegisterTexture,
    /// Every step succeeded: build the texture handle with its data and hand it out.
    Finish,
    /// A step failed or panicked: hand out a null texture.
    ReturnNull,
}

/// The step at position `i` of an image import.
pub open spec fn spec_texture_step(i: nat) -> TextureImportAction {
    if i == 0 {
        TextureImportAction::AcquireHalDevice
    } else if i == 1 {
        TextureImportAction::WrapImage
    } else if i == 2 {
        TextureImportAction::ReleaseHalDevice
    } else {
        TextureImportAction::RegisterTexture
    }
}

/// The action for an image import that stands at (completed steps, status).
pub open spec fn spec_texture_action(state: (nat, SequenceStatus)) -> TextureImportAction {
    match state.1 {
        SequenceStatus::Running => spec_texture_step(state.0),
        SequenceStatus::Finished => TextureImportAction::Finish,
        SequenceStatus::Aborted => TextureImportAction::ReturnNull,
    }
}

/// An import of a Vulkan image in progress.
pub struct TextureImport {
    plan: TextureImportPlan,
    steps: StepSequence,
}

impl TextureImport {
    pub closed spec fn plan(self) -> TextureImportPlan {
        self.plan
    }

    /// (completed steps, status) of the import.
    pub closed spec fn state(self) -> (nat, SequenceStatus) {
        (self.steps.completed(), self.steps.status())
    }

    #[verifier::type_invariant]
    spec fn wf(self) -> bool {
        &&& self.steps.wf()
        &&& self.steps.total() == TEXTURE_IMPORT_STEPS
    }

    /// Starts an import with `plan`; the first action is to get the HAL device.
    pub fn start(plan: TextureImportPlan) -> (r: TextureImport)
        ensures
            r.plan() == plan,
            r.state() == run_state(TEXTURE_IMPORT_STEPS as nat, Seq::empty()),
            spec_texture_action(r.state()) == TextureImportAction::AcquireHalDevice,
    {
        TextureImport { plan, steps: StepSequence::new(TEXTURE_IMPORT_STEPS) }
    }

    /// What the import hands to wgpu.
    pub fn plan_ref(&self) -> (r: &TextureImportPlan)
        ensures
            *r == self.plan(),
    {
        &self.plan
    }

    /// The action that the import stands at.
    pub fn next_action(&self) -> (r: TextureImportAction)
        ensures
            r == spec_texture_action(self.state()),
    {
        proof {
            use_type_invariant(self);
        }
        match self.steps.current_status() {
            SequenceStatus::Running => {
                let i = self.steps.completed_steps();
                if i == 0 {
                    TextureImportAction::AcquireHalDevice
                } else if i == 1 {
                    TextureImportAction::WrapImage
                } else if i == 2 {
                    TextureImportAction::ReleaseHalDevice
                } else {
                    TextureImportAction::RegisterTexture
                }
            },
            SequenceStatus::Finished => TextureImportAction::Finish,
            SequenceStatus::Aborted => TextureImportAction::ReturnNull,
        }
    }

    /// Records what the action last handed out reported, and returns the next one.
    pub fn report(&mut self, outcome: StepOutcome) -> (r: TextureImportAction)
        ensures
            final(self).plan() == old(self).plan(),
            final(self).state() == next_state(
                TEXTURE_IMPORT_STEPS as nat,
                old(self).state(),
                outcome,
            ),
            r == spec_texture_action(final(self).state()),
    {
        proof {
            use_type_invariant(&*self);
        }
        let mut steps = self.steps;
        steps.record(outcome);
        self.steps = steps;
        self.next_action()
    }
}

/// The action an image import stands at after its steps reported `outcomes`.
pub open spec fn spec_texture_action_after(outcomes: Seq<StepOutcome>) -> TextureImportAction {
    spec_texture_action(run_state(TEXTURE_IMPORT_STEPS as nat, outcomes))
}

/// A texture is handed out exactly when all four steps succeeded; it is
/// answered with a null texture exactly when one of them failed or panicked;
/// and while the import runs, the action is the step after the successes so
/// far, in the fixed order: get the HAL device, wrap the image, release the
/// HAL device, register the texture. So the texture is registered only after
/// the image was wrapped and the HAL device released.
pub proof fn lemma_texture_import_outcome(outcomes: Seq<StepOutcome>)
    ensures
        spec_texture_action_after(outcomes) == TextureImportAction::Finish <==> (outcomes.len()
            >= 4 && forall|i: int| 0 <= i < 4 ==> outcomes[i] == StepOutcome::Succeeded),
        spec_texture_action_after(outcomes) == TextureImportAction::ReturnNull <==> exists|i: int|
            0 <= i < outcomes.len() && i < 4 && outcomes[i] != StepOutcome::Succeeded,
        (forall|i: int| 0 <= i < outcomes.len() ==> outcomes[i] == StepOutcome::Succeeded)
            && outcomes.len() < 4 ==> spec_texture_action_after(outcomes) == spec_texture_step(
            outcomes.len(),
        ),
        spec_texture_action_after(outcomes) == TextureImportAction::RegisterTexture <==> (
        outcomes.len() == 3 && forall|i: int| 0 <= i < 3 ==> outcomes[i] == StepOutcome::Succeeded),
{
    lemma_finished_iff_all_steps_succeeded(4, outcomes);
    lemma_aborted_iff_some_step_failed(4, outcomes);
    let st = run_state(4, outcomes);
    if st.1 == SequenceStatus::Running {
        lemma_running_counts_all(4, outcomes);
    }
    if outcomes.len() == 3 && forall|i: int| 0 <= i < 3 ==> outcomes[i] == StepOutcome::Succeeded {
        assert(st.1 != SequenceStatus::Aborted);
        assert(st.1 != SequenceStatus::Finished);
    }
}

} // verus!
