# vulkust (verified core)

The platform-independent decisions of the vulkust game engine, written in
Verus and proved against their contracts.

- `src/` is the verified library: shader ids and vertex layouts, the counting
  semaphore, the Android native-activity glue as a state machine, X11 and
  Win32 event decoding, window attributes, scene bookkeeping (cameras,
  models, lights, the sharing of models between render kernels, light
  slots, renderability), glTF documents and scene loading, the registries
  of the asset managers, texture decoding from glTF binary chunks, text
  image compositing, asset-path splitting for application bundles, and the
  Android configuration and X protocol value types.
- `tests/` runs the library on concrete values.
- `app/` is ordinary Rust around it: the XCB connection, the Android command
  pipe and its threads, glTF and bundle file reading (handing bytes to the library), and the caches that
  hold the engine's objects by weak reference.
