//! GPU texture lifecycle built on a small device capability.
//!
//! The crate turns decoded RGBA pixel buffers, raw alpha masks, and encoded
//! image bytes into GPU-resident texture objects, and keeps those objects
//! updatable in place.  The GPU itself stands behind the [`GraphicsDevice`]
//! capability; every texture operation is specified against the device's
//! abstract resource table, and [`MemoryDevice`] is a verified in-memory
//! device used as the reference implementation and as a test double.

pub mod decode;
pub mod device;
pub mod memory_device;
pub mod rgba;
pub mod settings;
pub mod texture;

pub use device::DeviceError;
pub use device::GraphicsDevice;
pub use device::TexFormat;
pub use device::TextureHandle;
pub use memory_device::MemoryDevice;
pub use rgba::RgbaImage;
pub use settings::TextureSettings;
pub use texture::Flip;
pub use texture::Texture;
pub use texture::TextureError;
