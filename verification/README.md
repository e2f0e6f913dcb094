# egui_blur_demo

A small egui demo that draws a blurred window over a wgpu surface.

- `src/` is the verified library: what each event of the event loop leads to
  (`events`), what the outcome of drawing a frame leads to (`frame`), and the
  decoding of the embedded image into an RGBA texture that egui can upload
  (`texture`, through the `image` and `egui` crates).
- `app/` is the program around it: the winit event loop, the wgpu surface and
  render passes, and the egui UI, which performs the actions the library picks.
- `tests/` runs the library on concrete events, frame outcomes and images.
