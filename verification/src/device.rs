//! The GPU device capability.
//!
//! The texture operations never touch a GPU directly: they go through the
//! [`GraphicsDevice`] trait, whose methods are specified against an abstract
//! resource table, a map from resource ids to [`TexModel`] values.  A device
//! implementation owns the actual storage; the texture layer is proved
//! correct against these contracts alone.

use vstd::prelude::*;

verus! {

/// GPU pixel format of a texture resource, fixed at creation.
#[derive(Clone, Copy, Debug, PartialEq, Eq, Structural)]
pub enum TexFormat {
    /// Linear 8-bit-per-channel RGBA.
    Rgba8,
    /// Gamma-corrected (sRGB) 8-bit-per-channel RGBA.
    Srgba8,
}

/// Abstract state of one texture resource in a device's resource table.
pub ghost struct TexModel {
    /// Width in pixels, fixed at creation.
    pub width: u32,
    /// Height in pixels, fixed at creation.
    pub height: u32,
    /// Pixel format, fixed at creation.
    pub format: TexFormat,
    /// Row-major RGBA bytes, 4 per pixel.
    pub pixels: Seq<u8>,
    /// Whether a mipmap chain derived from the current pixels exists.
    pub has_mipmap: bool,
}

/// Non-owning reference to a device texture resource.
///
/// The metadata carried here mirrors the resource's fixed creation
/// parameters; it exists so that size queries need no device access.
#[derive(Clone, Copy, Debug, PartialEq, Eq, Structural)]
pub struct TextureHandle {
    /// Id of the resource in the owning device's resource table.
    pub id: u64,
    /// Width the resource was allocated with.
    pub width: u32,
    /// Height the resource was allocated with.
    pub height: u32,
    /// Format the resource was allocated with.
    pub format: TexFormat,
}

/// A device refused an allocation or an upload.
#[derive(Clone, Debug, PartialEq, Eq)]
pub struct DeviceError {
    /// What the device reported.
    pub message: String,
}

/// Capability contract of a GPU device.
///
/// `model` is the device's abstract resource table.  Creation inserts a fresh
/// entry; upload rewrites an entry's pixels in place; nothing here ever
/// changes an entry's extent or format, and no method is allowed a
/// zero-dimension allocation.
pub trait GraphicsDevice: Sized {
    /// The abstract resource table: resource id to resource state.
    ///
    /// The default is the empty table; an implementation the texture
    /// operations are to be verified against overrides it with its real
    /// state.  An unverified backend may leave the default in place: no
    /// verified code reasons about such a backend's table.
    open spec fn model(&self) -> Map<u64, TexModel> {
        Map::empty()
    }

    /// Allocates a fresh texture resource with the given fixed extent and
    /// format, filled with the given row-major RGBA bytes.
    fn create_texture(
        &mut self,
        format: TexFormat,
        width: u32,
        height: u32,
        pixels: &[u8],
    ) -> (r: Result<TextureHandle, DeviceError>)
        requires
            1 <= width,
            1 <= height,
            pixels@.len() == 4 * width * height,
        ensures
            match r {
                Ok(h) => {
                    &&& !old(self).model().dom().contains(h.id)
                    &&& h.width == width
                    &&& h.height == height
                    &&& h.format == format
                    &&& final(self).model() == old(self).model().insert(
                        h.id,
                        (TexModel { width, height, format, pixels: pixels@, has_mipmap: false }),
                    )
                },
                Err(_) => final(self).model() == old(self).model(),
            },
    ;

    /// Rewrites the full pixel contents of an existing resource, without
    /// reallocating it.  Any mipmap chain becomes stale and is dropped.
    fn upload(&mut self, handle: &TextureHandle, pixels: &[u8]) -> (r: Result<(), DeviceError>)
        requires
            old(self).model().dom().contains(handle.id),
            pixels@.len() == 4 * old(self).model()[handle.id].width
                * old(self).model()[handle.id].height,
        ensures
            match r {
                Ok(()) => final(self).model() == old(self).model().insert(
                    handle.id,
                    (TexModel {
                        width: old(self).model()[handle.id].width,
                        height: old(self).model()[handle.id].height,
                        format: old(self).model()[handle.id].format,
                        pixels: pixels@,
                        has_mipmap: false,
                    }),
                ),
                Err(_) => final(self).model() == old(self).model(),
            },
    ;

    /// Requests generation of a mipmap chain for an existing resource.
    /// Best effort: nothing but the resource's mipmap state may change, and
    /// no success is promised.
    fn generate_mipmap(&mut self, handle: &TextureHandle)
        requires
            old(self).model().dom().contains(handle.id),
        ensures
            final(self).model().dom() == old(self).model().dom(),
            forall|i: u64|
                #[trigger] old(self).model().dom().contains(i) && i != handle.id
                    ==> final(self).model()[i] == old(self).model()[i],
            final(self).model()[handle.id].width == old(self).model()[handle.id].width,
            final(self).model()[handle.id].height == old(self).model()[handle.id].height,
            final(self).model()[handle.id].format == old(self).model()[handle.id].format,
            final(self).model()[handle.id].pixels == old(self).model()[handle.id].pixels,
    ;

    /// Reads the extent the resource was allocated with.
    fn query_extent(&self, handle: &TextureHandle) -> (r: (u32, u32))
        requires
            self.model().dom().contains(handle.id),
        ensures
            r.0 == self.model()[handle.id].width,
            r.1 == self.model()[handle.id].height,
    ;
}

} // verus!
