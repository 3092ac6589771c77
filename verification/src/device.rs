//! Creating a wgpu device around an existing Vulkan instance, physical device
//! and device: what is handed to wgpu, and the order of the fallible steps.
use vstd::prelude::*;
use crate::callbacks::{DeviceLostCallback, HalInteropCallbacks};
use crate::sequence::{
    next_state, run_state, lemma_aborted_iff_some_step_failed,
    lemma_finished_iff_all_steps_succeeded, SequenceStatus, StepOutcome, StepSequence,
};

verus! {

/// The number of fallible steps in importing a Vulkan device.
pub const DEVICE_IMPORT_STEPS: u8 = 6;

/// The name of the wgpu-core context created around the imported instance.
pub const INTEROP_CONTEXT_NAME: &'static str = "wgpu-vk-interop";

/// The label of the imported device.
pub const INTEROP_DEVICE_LABEL: &'static str = "vk-interop-device";

/// `ash::vk::API_VERSION_1_1`, that is `make_api_version(0, 1, 1, 0)`:
/// `(1 << 22) | (1 << 12)`.
pub open spec fn spec_vulkan_api_version_1_1() -> u32 {
    4198400
}

/// `ash::vk::API_VERSION_1_1`; ash defines it as `make_api_version(0, 1, 1, 0)`,
/// with `make_api_version(v, ma, mi, p) = (v << 29) | (ma << 22) | (mi << 12) | p`.
#[verifier::external_body]
fn vulkan_api_version_1_1() -> (r: u32)
    ensures
        r == spec_vulkan_api_version_1_1(),
{
    ash::vk::API_VERSION_1_1
}

/// The memory-allocation hints given to wgpu (`wgpu_types::MemoryHints`).
#[derive(Clone, Copy, Debug, PartialEq, Eq, Structural)]
pub enum MemoryHints {
    /// Favour performance over memory use; wgpu's default.
    Performance,
    /// Favour low memory use.
    MemoryUsage,
    /// Sub-allocate in device memory blocks of the given range of sizes.
    Manual { block_size_start: u64, block_size_end: u64 },
}

/// The preset that the required limits of a device are taken from
/// (`wgpu_types::Limits`).
#[derive(Clone, Copy, Debug, PartialEq, Eq, Structural)]
pub enum LimitsPreset {
    /// `Limits::default()`.
    Default,
    /// `Limits::downlevel_defaults()`.
    DownlevelDefaults,
    /// `Limits::downlevel_webgl2_defaults()`.
    DownlevelWebgl2Defaults,
}

/// Everything that importing a Vulkan device hands to ash, wgpu-hal and
/// wgpu-core.
#[derive(Clone, Copy, Debug)]
pub struct DevicePlan {
    /// The raw `VkInstance`.
    pub vk_instance: u64,
    /// The raw `VkPhysicalDevice`.
    pub vk_physical_device: u64,
    /// The raw `VkDevice`.
    pub vk_device: u64,
    /// The queue family the device's queue is taken from.
    pub queue_family_index: u32,
    /// The index of the queue within that family.
    pub queue_index: u32,
    /// The Vulkan API version the HAL instance is created for.
    pub api_version: u32,
    /// The Android SDK version given to the HAL instance.
    pub android_sdk_version: u32,
    /// Whether the HAL instance gets debug-utils create info (a debug messenger).
    pub debug_messenger: bool,
    /// The number of instance extensions the HAL instance is told were enabled.
    pub instance_extension_count: usize,
    /// Bits of the `wgpu_types::InstanceFlags` of the HAL instance.
    pub instance_flags: u32,
    /// `MemoryBudgetThresholds::for_resource_creation` of the HAL instance.
    pub budget_for_resource_creation: Option<u8>,
    /// `MemoryBudgetThresholds::for_device_loss` of the HAL instance.
    pub budget_for_device_loss: Option<u8>,
    /// The `has_nv_optimus` flag given to the HAL instance.
    pub has_nv_optimus: bool,
    /// Whether the HAL instance gets a drop callback. With one (which does
    /// nothing), the raw instance stays the caller's and is shared, not
    /// destroyed with wgpu; without one, wgpu-hal takes ownership of it.
    pub instance_drop_callback: bool,
    /// The name of the wgpu-core context.
    pub context_name: &'static str,
    /// Whether the HAL device gets a drop callback. With one (which does
    /// nothing), the raw device stays the caller's and is shared, not
    /// destroyed with wgpu; without one, wgpu-hal takes ownership of it.
    pub device_drop_callback: bool,
    /// The number of device extensions the HAL device is told were enabled.
    pub device_extension_count: usize,
    /// Bits of the `wgpu_types::Features` the HAL device is opened with.
    pub device_features: [u64; 2],
    /// The memory hints the HAL device is opened with.
    pub device_memory_hints: MemoryHints,
    /// The label of the device descriptor.
    pub device_label: &'static str,
    /// Bits of the `required_features` of the device descriptor.
    pub required_features: [u64; 2],
    /// The `required_limits` of the device descriptor.
    pub required_limits: LimitsPreset,
    /// The `memory_hints` of the device descriptor.
    pub memory_hints: MemoryHints,
    /// Whether the device descriptor enables experimental features.
    pub experimental_features: bool,
    /// Whether the device descriptor asks for an API trace.
    pub trace: bool,
    /// The device-lost handler of the device.
    pub device_lost: DeviceLostCallback,
}

/// Plans the import of an existing Vulkan device. The queue is always queue 0
/// of `queue_family_index`: the queue index that the caller passes is not used.
/// The HAL instance is made for Vulkan 1.1, with Android SDK version 0, no debug
/// messenger, no extensions, empty instance flags, no memory budget thresholds,
/// `has_nv_optimus` unset and a drop callback, so that the caller keeps the
/// instance it shares. The HAL device is opened with a drop callback (so that
/// the caller keeps the device too), no extensions, no features and the
/// default (performance) memory hints. The device descriptor asks for no features, the default
/// limits, the default memory hints, no experimental features and no trace.
pub fn plan_device_from_vulkan(
    vk_instance: u64,
    vk_physical_device: u64,
    vk_device: u64,
    queue_family_index: u32,
    queue_index: u32,
) -> (r: DevicePlan)
    ensures
        r.vk_instance == vk_instance,
        r.vk_physical_device == vk_physical_device,
        r.vk_device == vk_device,
        r.queue_family_index == queue_family_index,
        r.queue_index == 0,
        r.api_version == spec_vulkan_api_version_1_1(),
        r.android_sdk_version == 0,
        !r.debug_messenger,
        r.instance_extension_count == 0,
        r.instance_flags == 0,
        r.budget_for_resource_creation == None::<u8>,
        r.budget_for_device_loss == None::<u8>,
        !r.has_nv_optimus,
        r.instance_drop_callback,
        r.context_name@ == INTEROP_CONTEXT_NAME@,
        r.device_drop_callback,
        r.device_extension_count == 0,
        r.device_features@ == seq![0u64, 0u64],
        r.device_memory_hints == MemoryHints::Performance,
        r.device_label@ == INTEROP_DEVICE_LABEL@,
        r.required_features@ == seq![0u64, 0u64],
        r.required_limits == LimitsPreset::Default,
        r.memory_hints == MemoryHints::Performance,
        !r.experimental_features,
        !r.trace,
        r.device_lost == DeviceLostCallback::DefaultHandler,
{
    DevicePlan {
        vk_instance,
        vk_physical_device,
        vk_device,
        queue_family_index,
        queue_index: 0,
        api_version: vulkan_api_version_1_1(),
        android_sdk_version: 0,
        debug_messenger: false,
        instance_extension_count: 0,
        instance_flags: 0,
        budget_for_resource_creation: None,
        budget_for_device_loss: None,
        has_nv_optimus: false,
        instance_drop_callback: true,
        context_name: INTEROP_CONTEXT_NAME,
        device_drop_callback: true,
        device_extension_count: 0,
        device_features: [0u64, 0u64],
        device_memory_hints: MemoryHints::Performance,
        device_label: INTEROP_DEVICE_LABEL,
        required_features: [0u64, 0u64],
        required_limits: LimitsPreset::Default,
        memory_hints: MemoryHints::Performance,
        experimental_features: false,
        trace: false,
        device_lost: HalInteropCallbacks::default_device_lost(),
    }
}

/// What to do next while importing a Vulkan device.
#[derive(Clone, Copy, Debug, PartialEq, Eq, Structural)]
pub enum DeviceImportAction {
    /// Load the Vulkan entry points (`ash::Entry::load`).
    LoadVulkanEntry,
    /// Load the instance and device function tables from the raw handles and
    /// wrap the instance as a HAL instance (`Instance::from_raw`).
    CreateHalInstance,
    /// Expose the physical device as a HAL adapter.
    ExposeAdapter,
    /// Create the wgpu-core context from the HAL instance, register the
    /// adapter in it, and get the adapter back as a HAL adapter.
    OpenHalAdapter,
    /// Open the HAL device around the raw `VkDevice` (`device_from_raw`).
    OpenDevice,
    /// Register the HAL device with wgpu-core (`create_device_from_hal`).
    CreateDevice,
    /// Every step succeeded: build the device handle and hand it out.
    Finish,
    /// A step failed or panicked: hand out a null device.
    ReturnNull,
}

/// The fallible step at position `i` of a device import.
pub open spec fn spec_device_step(i: nat) -> DeviceImportAction {
    if i == 0 {
        DeviceImportAction::LoadVulkanEntry
    } else if i == 1 {
        DeviceImportAction::CreateHalInstance
    } else if i == 2 {
        DeviceImportAction::ExposeAdapter
    } else if i == 3 {
        DeviceImportAction::OpenHalAdapter
    } else if i == 4 {
        DeviceImportAction::OpenDevice
    } else {
        DeviceImportAction::CreateDevice
    }
}

/// The action for a device import that stands at (completed steps, status).
pub open spec fn spec_device_action(state: (nat, SequenceStatus)) -> DeviceImportAction {
    match state.1 {
        SequenceStatus::Running => spec_device_step(state.0),
        SequenceStatus::Finished => DeviceImportAction::Finish,
        SequenceStatus::Aborted => DeviceImportAction::ReturnNull,
    }
}

/// An import of a Vulkan device in progress.
pub struct DeviceImport {
    plan: DevicePlan,
    steps: StepSequence,
}

impl DeviceImport {
    pub closed spec fn plan(self) -> DevicePlan {
        self.plan
    }

    /// (completed steps, status) of the import.
    pub closed spec fn state(self) -> (nat, SequenceStatus) {
        (self.steps.completed(), self.steps.status())
    }

    #[verifier::type_invariant]
    spec fn wf(self) -> bool {
        &&& self.steps.wf()
        &&& self.steps.total() == DEVICE_IMPORT_STEPS
    }

    /// Starts an import with `plan`; the first action is to load the entry points.
    pub fn start(plan: DevicePlan) -> (r: DeviceImport)
        ensures
            r.plan() == plan,
            r.state() == run_state(DEVICE_IMPORT_STEPS as nat, Seq::empty()),
            spec_device_action(r.state()) == DeviceImportAction::LoadVulkanEntry,
    {
        DeviceImport { plan, steps: StepSequence::new(DEVICE_IMPORT_STEPS) }
    }

    /// What the import plans to hand to wgpu.
    pub fn plan_ref(&self) -> (r: &DevicePlan)
        ensures
            *r == self.plan(),
    {
        &self.plan
    }

    /// The action that the import stands at.
    pub fn next_action(&self) -> (r: DeviceImportAction)
        ensures
            r == spec_device_action(self.state()),
    {
        proof {
            use_type_invariant(self);
        }
        match self.steps.current_status() {
            SequenceStatus::Running => {
                let i = self.steps.completed_steps();
                if i == 0 {
                    DeviceImportAction::LoadVulkanEntry
                } else if i == 1 {
                    DeviceImportAction::CreateHalInstance
                } else if i == 2 {
                    DeviceImportAction::ExposeAdapter
                } else if i == 3 {
                    DeviceImportAction::OpenHalAdapter
                } else if i == 4 {
                    DeviceImportAction::OpenDevice
                } else {
                    DeviceImportAction::CreateDevice
                }
            },
            SequenceStatus::Finished => DeviceImportAction::Finish,
            SequenceStatus::Aborted => DeviceImportAction::ReturnNull,
        }
    }

    /// Records what the action last handed out reported, and returns the next one.
    pub fn report(&mut self, outcome: StepOutcome) -> (r: DeviceImportAction)
        ensures
            final(self).plan() == old(self).plan(),
            final(self).state() == next_state(
                DEVICE_IMPORT_STEPS as nat,
                old(self).state(),
                outcome,
            ),
            r == spec_device_action(final(self).state()),
    {
        proof {
            use_type_invariant(&*self);
        }
        let mut steps = self.steps;
        steps.record(outcome);
        self.steps = steps;
        self.next_action()
    }
}

/// The action a device import stands at after its steps reported `outcomes`.
pub open spec fn spec_device_action_after(outcomes: Seq<StepOutcome>) -> DeviceImportAction {
    spec_device_action(run_state(DEVICE_IMPORT_STEPS as nat, outcomes))
}

/// A device is handed out exactly when all six steps succeeded, in order; it
/// is answered with a null device exactly when one of them failed or panicked;
/// and while the import runs, the action is the step after the successes so
/// far, in the fixed order entry, HAL instance, adapter, HAL adapter, device
/// opening, device registration.
pub proof fn lemma_device_import_outcome(outcomes: Seq<StepOutcome>)
    ensures
        spec_device_action_after(outcomes) == DeviceImportAction::Finish <==> (outcomes.len()
            >= 6 && forall|i: int| 0 <= i < 6 ==> outcomes[i] == StepOutcome::Succeeded),
        spec_device_action_after(outcomes) == DeviceImportAction::ReturnNull <==> exists|i: int|
            0 <= i < outcomes.len() && i < 6 && outcomes[i] != StepOutcome::Succeeded,
        (forall|i: int| 0 <= i < outcomes.len() ==> outcomes[i] == StepOutcome::Succeeded)
            && outcomes.len() < 6 ==> spec_device_action_after(outcomes) == spec_device_step(
            outcomes.len(),
        ),
{
    lemma_finished_iff_all_steps_succeeded(6, outcomes);
    lemma_aborted_iff_some_step_failed(6, outcomes);
    let st = run_state(6, outcomes);
    if (forall|i: int| 0 <= i < outcomes.len() ==> outcomes[i] == StepOutcome::Succeeded)
        && outcomes.len() < 6 {
        assert(st.1 == SequenceStatus::Running);
        crate::sequence::lemma_running_counts_all(6, outcomes);
    }
}

} // verus!
