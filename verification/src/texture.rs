//! The texture lifecycle: creation from several input shapes, in-place
//! update, and size queries, all specified against the device's abstract
//! resource table.

use vstd::prelude::*;

use crate::decode::decode_rgba;
use crate::decode::decoded_rgba;
use crate::device::DeviceError;
use crate::device::GraphicsDevice;
use crate::device::TexFormat;
use crate::device::TexModel;
use crate::device::TextureHandle;
use crate::rgba::alpha_expanded;
use crate::rgba::alpha_to_rgba;
use crate::rgba::flip_vertical;
use crate::rgba::flipped_vertical;
use crate::rgba::RgbaImage;
use crate::settings::TextureSettings;

verus! {

/// Flip transforms applicable to a decoded image.
#[derive(Clone, Copy, PartialEq, Eq, Structural)]
pub enum Flip {
    /// Leave the image as it is.
    Unflipped,
    /// Mirror the image vertically.
    Vertical,
}

impl Flip {
    /// Applies the transform to an image.
    pub fn apply(self, img: &RgbaImage) -> (r: RgbaImage)
        requires
            img.wf(),
        ensures
            r.wf(),
            r.width == img.width,
            r.height == img.height,
            r.data@ == (match self {
                Flip::Unflipped => img.data@,
                Flip::Vertical => flipped_vertical(
                    img.data@,
                    img.width as int,
                    img.height as int,
                ),
            }),
    {
        match self {
            Flip::Unflipped => RgbaImage {
                width: img.width,
                height: img.height,
                data: vstd::slice::slice_to_vec(img.data.as_slice()),
            },
            Flip::Vertical => flip_vertical(img),
        }
    }
}

/// Why a texture could not be created.
#[derive(Clone, Debug, PartialEq, Eq)]
pub enum TextureError {
    /// The bytes could not be decoded as an image.  Carries the path the
    /// bytes were read from and the decoder's message.
    Decode {
        /// The path whose contents failed to decode.
        path: String,
        /// What the decoder reported.
        message: String,
    },
    /// The device refused an allocation or an upload.
    Device(DeviceError),
}

/// GPU format selected by the settings: gamma-corrected when
/// `convert_gamma` is on, linear otherwise.
pub open spec fn format_for(settings: TextureSettings) -> TexFormat {
    if settings.convert_gamma {
        TexFormat::Srgba8
    } else {
        TexFormat::Rgba8
    }
}

/// The four bytes of the single fully transparent black pixel.
pub open spec fn transparent_pixel() -> Seq<u8> {
    seq![0u8, 0u8, 0u8, 0u8]
}

/// `post` extends `pre` by exactly one fresh resource `id` holding the given
/// extent, format and pixels; every other resource keeps its state.
pub open spec fn creates_resource(
    pre: Map<u64, TexModel>,
    post: Map<u64, TexModel>,
    id: u64,
    width: u32,
    height: u32,
    format: TexFormat,
    pixels: Seq<u8>,
) -> bool {
    &&& !pre.dom().contains(id)
    &&& post.dom() == pre.dom().insert(id)
    &&& forall|i: u64| #[trigger] pre.dom().contains(i) ==> post[i] == pre[i]
    &&& post[id].width == width
    &&& post[id].height == height
    &&& post[id].format == format
    &&& post[id].pixels == pixels
}

/// `post` is `pre` with resource `id`'s pixels rewritten in place and its
/// mipmap state cleared; the extent and format keep their values, and every
/// other resource keeps its state.
pub open spec fn rewrites_pixels(
    pre: Map<u64, TexModel>,
    post: Map<u64, TexModel>,
    id: u64,
    pixels: Seq<u8>,
) -> bool {
    &&& pre.dom().contains(id)
    &&& post.dom() == pre.dom()
    &&& forall|i: u64| #[trigger] pre.dom().contains(i) && i != id ==> post[i] == pre[i]
    &&& post.dom().contains(id)
    &&& post[id] == (TexModel {
        width: pre[id].width,
        height: pre[id].height,
        format: pre[id].format,
        pixels,
        has_mipmap: false,
    })
}

/// Represents one GPU texture resource.
///
/// The value holds a non-owning handle; the device owns the storage.  All
/// operations are specified against the device's resource table, and
/// [`Texture::valid_in`] says that the handle's metadata agrees with it.
#[derive(Clone, Copy, Debug)]
pub struct Texture {
    /// Handle to the device resource, with its fixed creation metadata.
    pub handle: TextureHandle,
}

impl Texture {
    /// The handle refers to a live resource of the table and carries exactly
    /// that resource's fixed extent and format; the extent is nonzero.
    pub open spec fn valid_in(self, m: Map<u64, TexModel>) -> bool {
        &&& m.dom().contains(self.handle.id)
        &&& m[self.handle.id].width == self.handle.width
        &&& m[self.handle.id].height == self.handle.height
        &&& m[self.handle.id].format == self.handle.format
        &&& 1 <= self.handle.width
        &&& 1 <= self.handle.height
    }

    /// A clone of the handle to the device resource.
    pub fn handle(&self) -> (r: TextureHandle)
        ensures
            r == self.handle,
    {
        self.handle
    }

    /// The texture's extent, read from the handle's own metadata, never
    /// from a separately cached copy.
    pub fn get_size(&self) -> (r: (u32, u32))
        ensures
            r == (self.handle.width, self.handle.height),
    {
        (self.handle.width, self.handle.height)
    }

    /// Allocates the smallest valid texture: 1x1, linear format, its single
    /// pixel fully transparent black.
    pub fn empty<D: GraphicsDevice>(device: &mut D) -> (r: Result<Texture, DeviceError>)
        ensures
            match r {
                Ok(t) => {
                    &&& creates_resource(
                        old(device).model(),
                        final(device).model(),
                        t.handle.id,
                        1,
                        1,
                        TexFormat::Rgba8,
                        transparent_pixel(),
                    )
                    &&& final(device).model()[t.handle.id].has_mipmap == false
                    &&& t.handle.width == 1
                    &&& t.handle.height == 1
                    &&& t.handle.format == TexFormat::Rgba8
                    &&& t.valid_in(final(device).model())
                },
                Err(_) => final(device).model() == old(device).model(),
            },
    {
        let pixels: Vec<u8> = vec![0u8, 0u8, 0u8, 0u8];
        proof {
            assert(pixels@ =~= transparent_pixel());
        }
        match device.create_texture(TexFormat::Rgba8, 1, 1, pixels.as_slice()) {
            Ok(h) => Ok(Texture { handle: h }),
            Err(e) => Err(e),
        }
    }

    /// Allocates a texture of the given extent from row-major RGBA bytes.
    /// The settings choose the format; mipmap generation, when requested, is
    /// a best-effort step after the upload.  A zero extent is excluded: the
    /// device is never asked for a zero-dimension resource.
    pub fn from_memory<D: GraphicsDevice>(
        device: &mut D,
        memory: &[u8],
        width: u32,
        height: u32,
        settings: &TextureSettings,
    ) -> (r: Result<Texture, DeviceError>)
        requires
            1 <= width,
            1 <= height,
            memory@.len() == 4 * width * height,
        ensures
            match r {
                Ok(t) => {
                    &&& creates_resource(
                        old(device).model(),
                        final(device).model(),
                        t.handle.id,
                        width,
                        height,
                        format_for(*settings),
                        memory@,
                    )
                    &&& (!settings.generate_mipmap ==> final(device).model()[t.handle.id].has_mipmap
                        == false)
                    &&& t.handle.width == width
                    &&& t.handle.height == height
                    &&& t.handle.format == format_for(*settings)
                    &&& t.valid_in(final(device).model())
                },
                Err(_) => final(device).model() == old(device).model(),
            },
    {
        let format = if settings.get_convert_gamma() {
            TexFormat::Srgba8
        } else {
            TexFormat::Rgba8
        };
        let handle = match device.create_texture(format, width, height, memory) {
            Ok(h) => h,
            Err(e) => {
                return Err(e);
            },
        };
        let ghost mid = *device;
        if settings.get_generate_mipmap() {
            device.generate_mipmap(&handle);
            proof {
                assert forall|i: u64| #[trigger] old(device).model().dom().contains(i) implies
                    device.model()[i] == old(device).model()[i] by {
                    assert(mid.model().dom().contains(i));
                    assert(i != handle.id);
                    assert(device.model()[i] == mid.model()[i]);
                }
                assert(device.model().dom() =~= old(device).model().dom().insert(handle.id));
            }
        }
        Ok(Texture { handle })
    }

    /// Allocates a texture from an already decoded RGBA image.  The format
    /// follows `convert_gamma`; the full buffer becomes the initial
    /// contents; mipmap generation, when requested, is best effort.  A zero
    /// extent is excluded: the device is never asked for a zero-dimension
    /// resource.
    pub fn from_image<D: GraphicsDevice>(
        device: &mut D,
        img: &RgbaImage,
        settings: &TextureSettings,
    ) -> (r: Result<Texture, DeviceError>)
        requires
            img.wf(),
            1 <= img.width,
            1 <= img.height,
        ensures
            match r {
                Ok(t) => {
                    &&& creates_resource(
                        old(device).model(),
                        final(device).model(),
                        t.handle.id,
                        img.width,
                        img.height,
                        format_for(*settings),
                        img.data@,
                    )
                    &&& (!settings.generate_mipmap ==> final(device).model()[t.handle.id].has_mipmap
                        == false)
                    &&& t.handle.width == img.width
                    &&& t.handle.height == img.height
                    &&& t.handle.format == format_for(*settings)
                    &&& t.valid_in(final(device).model())
                },
                Err(_) => final(device).model() == old(device).model(),
            },
    {
        Texture::from_memory(device, img.data.as_slice(), img.width, img.height, settings)
    }

    /// Allocates a texture from a single-channel alpha mask: every mask byte
    /// becomes an opaque-white pixel `[255, 255, 255, alpha]`.
    ///
    /// Degenerate-size policy: a request with `width == 0` or `height == 0`
    /// falls back entirely to the 1x1 transparent placeholder of
    /// [`Texture::empty`]; a zero-dimension resource is never allocated, and
    /// the fallback does not depend on the buffer.
    pub fn from_memory_alpha<D: GraphicsDevice>(
        device: &mut D,
        buffer: &[u8],
        width: u32,
        height: u32,
        settings: &TextureSettings,
    ) -> (r: Result<Texture, DeviceError>)
        requires
            width != 0 && height != 0 ==> buffer@.len() == width * height,
        ensures
            match r {
                Ok(t) => {
                    &&& t.valid_in(final(device).model())
                    &&& if width == 0 || height == 0 {
                        &&& creates_resource(
                            old(device).model(),
                            final(device).model(),
                            t.handle.id,
                            1,
                            1,
                            TexFormat::Rgba8,
                            transparent_pixel(),
                        )
                        &&& final(device).model()[t.handle.id].has_mipmap == false
                        &&& t.handle.width == 1
                        &&& t.handle.height == 1
                    } else {
                        &&& creates_resource(
                            old(device).model(),
                            final(device).model(),
                            t.handle.id,
                            width,
                            height,
                            format_for(*settings),
                            alpha_expanded(buffer@),
                        )
                        &&& (!settings.generate_mipmap ==> final(device).model()[t.handle.id]
                            .has_mipmap == false)
                        &&& t.handle.width == width
                        &&& t.handle.height == height
                        &&& t.handle.format == format_for(*settings)
                    }
                },
                Err(_) => final(device).model() == old(device).model(),
            },
    {
        if width == 0 || height == 0 {
            return Texture::empty(device);
        }
        let pixels = alpha_to_rgba(buffer);
        proof {
            assert(pixels@.len() == 4 * width * height) by (nonlinear_arith)
                requires
                    pixels@.len() == 4 * buffer@.len(),
                    buffer@.len() == width * height,
            ;
        }
        Texture::from_memory(device, pixels.as_slice(), width, height, settings)
    }

    /// Decodes encoded image bytes and allocates a texture from the result.
    ///
    /// Any color model the decoder knows is coerced to RGBA before upload;
    /// when `flip_vertical` is set the decoded image is mirrored vertically
    /// first.  `path` is where the bytes came from and is carried in the
    /// error when the bytes cannot be decoded.  A decoded image with a zero
    /// dimension falls back to the 1x1 transparent placeholder, like a
    /// degenerate alpha request.
    pub fn from_encoded<D: GraphicsDevice>(
        device: &mut D,
        bytes: &[u8],
        path: &str,
        settings: &TextureSettings,
    ) -> (r: Result<Texture, TextureError>)
        ensures
            match r {
                Ok(t) => {
                    &&& decoded_rgba(bytes@) is Some
                    &&& t.valid_in(final(device).model())
                    &&& decoded_creation(
                        old(device).model(),
                        final(device).model(),
                        t,
                        decoded_rgba(bytes@)->Some_0,
                        *settings,
                    )
                },
                Err(TextureError::Decode { path: failed, message: _ }) => {
                    &&& decoded_rgba(bytes@) is None
                    &&& failed@ == path@
                    &&& final(device).model() == old(device).model()
                },
                Err(TextureError::Device(_)) => {
                    &&& decoded_rgba(bytes@) is Some
                    &&& final(device).model() == old(device).model()
                },
            },
    {
        let (width, height, px) = match decode_rgba(bytes) {
            Ok(d) => d,
            Err(message) => {
                return Err(TextureError::Decode { path: path.to_owned(), message });
            },
        };
        if width == 0 || height == 0 {
            return match Texture::empty(device) {
                Ok(t) => Ok(t),
                Err(e) => Err(TextureError::Device(e)),
            };
        }
        let img = RgbaImage { width, height, data: px };
        let img = if settings.get_flip_vertical() {
            flip_vertical(&img)
        } else {
            img
        };
        match Texture::from_image(device, &img, settings) {
            Ok(t) => Ok(t),
            Err(e) => Err(TextureError::Device(e)),
        }
    }

    /// Rewrites the full pixel contents of this texture's resource with
    /// `img`, which must match the texture's extent exactly.  No resize, no
    /// format change, no re-applied settings; a previously generated mipmap
    /// chain becomes stale and is dropped, not regenerated.
    pub fn update<D: GraphicsDevice>(
        &mut self,
        device: &mut D,
        img: &RgbaImage,
    ) -> (r: Result<(), DeviceError>)
        requires
            img.wf(),
            old(self).valid_in(old(device).model()),
            img.width == old(self).handle.width,
            img.height == old(self).handle.height,
        ensures
            *final(self) == *old(self),
            match r {
                Ok(()) => {
                    &&& rewrites_pixels(
                        old(device).model(),
                        final(device).model(),
                        old(self).handle.id,
                        img.data@,
                    )
                    &&& final(self).valid_in(final(device).model())
                },
                Err(_) => final(device).model() == old(device).model(),
            },
    {
        let r = device.upload(&self.handle, img.data.as_slice());
        proof {
            if r is Ok {
                assert(device.model().dom() =~= old(device).model().dom());
            }
        }
        r
    }
}

/// The resource state that decoding leaves behind, given the decoder's
/// output `(width, height, pixels)`: the flip setting is applied to the
/// pixels, the gamma setting picks the format, and a zero decoded dimension
/// falls back to the 1x1 transparent placeholder.
pub open spec fn decoded_creation(
    pre: Map<u64, TexModel>,
    post: Map<u64, TexModel>,
    t: Texture,
    decoded: (u32, u32, Seq<u8>),
    settings: TextureSettings,
) -> bool {
    let width = decoded.0;
    let height = decoded.1;
    let uploaded = if settings.flip_vertical {
        flipped_vertical(decoded.2, width as int, height as int)
    } else {
        decoded.2
    };
    if width == 0 || height == 0 {
        &&& creates_resource(pre, post, t.handle.id, 1, 1, TexFormat::Rgba8, transparent_pixel())
        &&& post[t.handle.id].has_mipmap == false
        &&& t.handle.width == 1
        &&& t.handle.height == 1
    } else {
        &&& creates_resource(
            pre,
            post,
            t.handle.id,
            width,
            height,
            format_for(settings),
            uploaded,
        )
        &&& (!settings.generate_mipmap ==> post[t.handle.id].has_mipmap == false)
        &&& t.handle.width == width
        &&& t.handle.height == height
        &&& t.handle.format == format_for(settings)
    }
}

/// A texture valid on a device reports exactly the extent the device holds
/// for its resource: the handle-borne size can never diverge from the
/// resource table.
pub proof fn lemma_size_matches_device(t: Texture, m: Map<u64, TexModel>)
    requires
        t.valid_in(m),
    ensures
        t.handle.width == m[t.handle.id].width,
        t.handle.height == m[t.handle.id].height,
{
}

/// Round trip: creating a texture and then rewriting it with the identical
/// pixel buffer leaves the resource's extent, format and pixel contents
/// exactly as creation left them, and allocates nothing new.
pub proof fn lemma_create_then_update_round_trip(
    m0: Map<u64, TexModel>,
    m1: Map<u64, TexModel>,
    m2: Map<u64, TexModel>,
    t: Texture,
    width: u32,
    height: u32,
    format: TexFormat,
    pixels: Seq<u8>,
)
    requires
        creates_resource(m0, m1, t.handle.id, width, height, format, pixels),
        rewrites_pixels(m1, m2, t.handle.id, pixels),
    ensures
        m2.dom() == m1.dom(),
        m2[t.handle.id].width == m1[t.handle.id].width,
        m2[t.handle.id].height == m1[t.handle.id].height,
        m2[t.handle.id].format == m1[t.handle.id].format,
        m2[t.handle.id].pixels == m1[t.handle.id].pixels,
{
}

/// The degenerate-size fallback is consistent: any two textures created by
/// the zero-dimension fallback hold identical resource states - the 1x1
/// transparent placeholder - whatever either request's buffer was.
pub proof fn lemma_degenerate_fallback_consistent(
    pre1: Map<u64, TexModel>,
    post1: Map<u64, TexModel>,
    t1: Texture,
    pre2: Map<u64, TexModel>,
    post2: Map<u64, TexModel>,
    t2: Texture,
)
    requires
        creates_resource(pre1, post1, t1.handle.id, 1, 1, TexFormat::Rgba8, transparent_pixel()),
        post1[t1.handle.id].has_mipmap == false,
        creates_resource(pre2, post2, t2.handle.id, 1, 1, TexFormat::Rgba8, transparent_pixel()),
        post2[t2.handle.id].has_mipmap == false,
    ensures
        post1[t1.handle.id] == post2[t2.handle.id],
{
    assert(post1[t1.handle.id] =~= post2[t2.handle.id]);
}

} // verus!
