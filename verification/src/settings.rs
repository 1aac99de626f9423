//! Texture creation settings.
//!
//! A flat record of four independent flags.  All combinations are legal; the
//! value only parameterizes texture creation and is never retained by a
//! created texture.

use vstd::prelude::*;

verus! {

/// Configuration for texture creation.
///
/// * `flip_vertical`: flip a decoded image vertically before upload.
/// * `convert_gamma`: treat source pixels as sRGB and request the
///   gamma-corrected GPU format.
/// * `compress`: reserved; no compressed-format path is wired up, the flag is
///   carried but has no effect on creation.
/// * `generate_mipmap`: request device-side mipmap generation after upload.
#[derive(Clone, Copy, Debug, PartialEq, Eq, Structural)]
pub struct TextureSettings {
    /// Flip a decoded image vertically before upload.
    pub flip_vertical: bool,
    /// Treat source pixels as sRGB and request the gamma-corrected format.
    pub convert_gamma: bool,
    /// Reserved; carried but not applied to any creation path.
    pub compress: bool,
    /// Request device-side mipmap generation after upload.
    pub generate_mipmap: bool,
}

impl TextureSettings {
    /// Settings with every flag off.
    pub fn new() -> (r: TextureSettings)
        ensures
            !r.flip_vertical,
            !r.convert_gamma,
            !r.compress,
            !r.generate_mipmap,
    {
        TextureSettings {
            flip_vertical: false,
            convert_gamma: false,
            compress: false,
            generate_mipmap: false,
        }
    }

    /// Whether a decoded image is flipped vertically before upload.
    pub fn get_flip_vertical(&self) -> (r: bool)
        ensures
            r == self.flip_vertical,
    {
        self.flip_vertical
    }

    /// Sets whether a decoded image is flipped vertically before upload.
    pub fn set_flip_vertical(&mut self, flip_vertical: bool)
        ensures
            *final(self) == (TextureSettings { flip_vertical, ..*old(self) }),
    {
        self.flip_vertical = flip_vertical;
    }

    /// Returns the settings with `flip_vertical` replaced.
    pub fn with_flip_vertical(self, flip_vertical: bool) -> (r: TextureSettings)
        ensures
            r == (TextureSettings { flip_vertical, ..self }),
    {
        TextureSettings { flip_vertical, ..self }
    }

    /// Whether the gamma-corrected GPU format is requested.
    pub fn get_convert_gamma(&self) -> (r: bool)
        ensures
            r == self.convert_gamma,
    {
        self.convert_gamma
    }

    /// Sets whether the gamma-corrected GPU format is requested.
    pub fn set_convert_gamma(&mut self, convert_gamma: bool)
        ensures
            *final(self) == (TextureSettings { convert_gamma, ..*old(self) }),
    {
        self.convert_gamma = convert_gamma;
    }

    /// Returns the settings with `convert_gamma` replaced.
    pub fn with_convert_gamma(self, convert_gamma: bool) -> (r: TextureSettings)
        ensures
            r == (TextureSettings { convert_gamma, ..self }),
    {
        TextureSettings { convert_gamma, ..self }
    }

    /// Whether compression is requested (reserved, currently without effect).
    pub fn get_compress(&self) -> (r: bool)
        ensures
            r == self.compress,
    {
        self.compress
    }

    /// Sets the reserved compression flag.
    pub fn set_compress(&mut self, compress: bool)
        ensures
            *final(self) == (TextureSettings { compress, ..*old(self) }),
    {
        self.compress = compress;
    }

    /// Returns the settings with `compress` replaced.
    pub fn with_compress(self, compress: bool) -> (r: TextureSettings)
        ensures
            r == (TextureSettings { compress, ..self }),
    {
        TextureSettings { compress, ..self }
    }

    /// Whether mipmap generation is requested after upload.
    pub fn get_generate_mipmap(&self) -> (r: bool)
        ensures
            r == self.generate_mipmap,
    {
        self.generate_mipmap
    }

    /// Sets whether mipmap generation is requested after upload.
    pub fn set_generate_mipmap(&mut self, generate_mipmap: bool)
        ensures
            *final(self) == (TextureSettings { generate_mipmap, ..*old(self) }),
    {
        self.generate_mipmap = generate_mipmap;
    }

    /// Returns the settings with `generate_mipmap` replaced.
    pub fn with_generate_mipmap(self, generate_mipmap: bool) -> (r: TextureSettings)
        ensures
            r == (TextureSettings { generate_mipmap, ..self }),
    {
        TextureSettings { generate_mipmap, ..self }
    }
}

impl Default for TextureSettings {
    /// Settings with every flag off.
    fn default() -> (r: TextureSettings)
        ensures
            !r.flip_vertical,
            !r.convert_gamma,
            !r.compress,
            !r.generate_mipmap,
    {
        TextureSettings::new()
    }
}

} // verus!
