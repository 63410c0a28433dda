# raven_rg

A render graph for a Vulkan renderer, with its rules proved by Verus.

`src/` is the verified library. It holds what the renderer decides: how passes declare the
resources they read and write, how a graph is compiled (which images and buffers it creates and
with which usage), which barriers move each resource from one access to the next and how they
are batched, how temporal resources live from frame to frame, how frames are prepared, drawn and
retired, how descriptor set layouts are merged and planned from shader reflection, how pass
bindings become descriptor writes, how uploads are split and placed, how the device's frame
slots go round and hold released resources back, how render passes and their framebuffers are
planned and cached, and how a device, its queue, its extensions and its swapchain settings are
chosen. Raw Vulkan objects appear there as plain handles; every function states its result in
its contract.

`app/` does the Vulkan side with `ash`, `vk-sync-fork` and `gpu-allocator`: it creates what the
library plans, uploads data through staging buffers in the loads and copies the library plans,
begins and ends frames in the device's frame slots and destroys what each slot held back,
records what it decides into command buffers, compiles shaders with `hassle-rs`, and keeps the
floating-point camera rotation.

`tests/` runs the library on concrete values.
