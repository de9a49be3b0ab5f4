//! Verified core of the vulkust engine: shader tables, the counting
//! semaphore, the Android native-glue state machine, the X11 and Win32
//! event decoders and the X protocol records they read, the bookkeeping of
//! scenes and asset managers, glTF scene loading, texture decoding, text
//! image compositing, and asset-path splitting.

pub mod shader;
pub mod vertex;
pub mod android_glue;
pub mod event;
pub mod foundation;
pub mod registry;
pub mod semaphore;
pub mod texture;
pub mod xcb;
pub mod linux_events;
mod order;
pub mod android_config;
pub mod scene;
pub mod windows_events;
pub mod bundle_path;
pub mod objc_dispatch;
pub mod gltf_doc;
pub mod text_image;
