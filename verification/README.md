# slang_viewer

A Vulkan viewer for Slang shaders, split in two:

- `src/` is the verified library (Verus): the swapchain choices made from
  what a surface supports (`swapchain`), the wiring of one frame's
  semaphores and fence (`frame`), the window life cycle as a state machine
  with its laws (`viewer`), and the render modes with the check that
  rejects shaders the viewer cannot feed (`shader`).
- `app/` is the program around it: the winit event loop and every Vulkan
  call through `ash`, made with the values the library returns.
- `tests/` runs the library on concrete values.
