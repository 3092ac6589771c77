# wgpu_interop

Verified decision logic for importing existing Vulkan devices and images (and
Metal textures) into wgpu.

- `src/format.rs`: `VkFormat` codes to wgpu texture formats.
- `src/usage.rs`: the usages an imported image gets, read from wgpu-types.
- `src/texture.rs`: the plan of a `VkImage` import, the recorded texture data,
  and the four import steps.
- `src/device.rs`: the plan of a `VkDevice` import and its six fallible steps.
- `src/sequence.rs`: the step sequence both imports run on, with its laws.
- `src/metal.rs`: the part of a Metal texture's descriptor read from C.
- `src/callbacks.rs`: the device-lost handler of imported devices.
- `app/lib.rs`: the Vulkan C entry points, which make the unsafe calls into
  ash, wgpu-hal and wgpu-core and drive the verified device and image plans;
  the Metal entry point there only panics, since the Metal backend is built on
  Apple platforms alone.
