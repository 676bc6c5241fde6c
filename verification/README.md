# model_viewer

The verified core of an interactive glTF/OBJ model viewer built on wgpu,
winit and egui.

`src/` is the library, written in Verus. It holds the viewer's decisions,
each with a contract proved by Verus:

- `event`, `input`: window events as the viewer sees them, and the set of
  held keys and mouse buttons they build.
- `app`: the application lifecycle (engine creation, frame clock) and the
  routing of a window event to an action (exit, resize, redraw, load a
  dropped model or environment map).
- `model`: which meshes of a model an opaque or a transparent pass draws,
  node by node.
- `resources`: the asset cache keyed by file name, the choice of a
  material texture, index-buffer assembly, texel packing and compute
  dispatch sizes.
- `settings`, `named_map`: enabled render passes and the other switches.
- `state`: pipeline switching, surface resizing, surface-error handling and
  surface-format choice of the triangle renderer.
- `ui`: the menu state and the sorted list of example models.
- `postprocess::hdr`: the current/history pair of HDR targets.

`app/` is the platform layer around it: the winit event loop, GPU resource
creation and draw commands, egui panels, asset import and the
floating-point scene data (camera, lights, SSAO kernel, tonemapping).

`tests/` runs the library on concrete values.
