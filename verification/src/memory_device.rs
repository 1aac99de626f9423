//! A verified in-memory implementation of the device capability.
//!
//! `MemoryDevice` keeps every resource's pixels in ordinary memory and is
//! proved to meet the [`GraphicsDevice`] contracts.  It serves as the
//! reference device and as an inspectable test double: unlike a real GPU, it
//! lets a caller read allocated pixel contents and formats back.

use vstd::prelude::*;

use crate::device::DeviceError;
use crate::device::GraphicsDevice;
use crate::device::TexFormat;
use crate::device::TexModel;
use crate::device::TextureHandle;

verus! {

/// One resource of a [`MemoryDevice`]'s table.
struct StoredTexture {
    width: u32,
    height: u32,
    format: TexFormat,
    pixels: Vec<u8>,
    has_mipmap: bool,
}

impl View for StoredTexture {
    type V = TexModel;

    closed spec fn view(&self) -> TexModel {
        TexModel {
            width: self.width,
            height: self.height,
            format: self.format,
            pixels: self.pixels@,
            has_mipmap: self.has_mipmap,
        }
    }
}

/// A device whose resource table lives in ordinary memory.
///
/// Resource ids are handed out consecutively from zero.  A bound on the
/// number of live resources may be set at construction, after which further
/// allocations are refused; this models a device running out of room.
pub struct MemoryDevice {
    textures: Vec<StoredTexture>,
    limit: usize,
}

impl MemoryDevice {
    /// Turns an allocated resource id into its index in the table.
    fn slot(&self, handle: &TextureHandle) -> (i: usize)
        requires
            self.model().dom().contains(handle.id),
        ensures
            i == handle.id,
            i < self.textures@.len(),
    {
        let n = self.textures.len();
        assert(handle.id < n);
        handle.id as usize
    }

    /// A device with no allocation bound.
    pub fn new() -> (r: MemoryDevice)
        ensures
            r.model() == Map::<u64, TexModel>::empty(),
    {
        let r = MemoryDevice { textures: Vec::new(), limit: usize::MAX };
        proof {
            assert(r.model() =~= Map::<u64, TexModel>::empty());
        }
        r
    }

    /// A device that refuses to hold more than `limit` resources at once.
    pub fn with_limit(limit: usize) -> (r: MemoryDevice)
        ensures
            r.model() == Map::<u64, TexModel>::empty(),
    {
        let r = MemoryDevice { textures: Vec::new(), limit };
        proof {
            assert(r.model() =~= Map::<u64, TexModel>::empty());
        }
        r
    }

    /// How many resources the device currently holds: exactly the ids below
    /// the returned count are allocated.
    pub fn texture_count(&self) -> (r: usize)
        ensures
            forall|i: u64| self.model().dom().contains(i) <==> i < r,
    {
        self.textures.len()
    }

    /// Reads back the pixel bytes of an allocated resource.
    pub fn read_pixels(&self, handle: &TextureHandle) -> (r: Vec<u8>)
        requires
            self.model().dom().contains(handle.id),
        ensures
            r@ == self.model()[handle.id].pixels,
    {
        let i = self.slot(handle);
        vstd::slice::slice_to_vec(self.textures[i].pixels.as_slice())
    }

    /// Reads back the format an allocated resource was created with.
    pub fn format_of(&self, handle: &TextureHandle) -> (r: TexFormat)
        requires
            self.model().dom().contains(handle.id),
        ensures
            r == self.model()[handle.id].format,
    {
        let i = self.slot(handle);
        self.textures[i].format
    }

    /// Whether an allocated resource currently carries a mipmap chain.
    pub fn mipmap_present(&self, handle: &TextureHandle) -> (r: bool)
        requires
            self.model().dom().contains(handle.id),
        ensures
            r == self.model()[handle.id].has_mipmap,
    {
        let i = self.slot(handle);
        self.textures[i].has_mipmap
    }
}

impl GraphicsDevice for MemoryDevice {
    closed spec fn model(&self) -> Map<u64, TexModel> {
        Map::new(|i: u64| i < self.textures@.len(), |i: u64| self.textures@[i as int]@)
    }

    fn create_texture(
        &mut self,
        format: TexFormat,
        width: u32,
        height: u32,
        pixels: &[u8],
    ) -> (r: Result<TextureHandle, DeviceError>) {
        if self.textures.len() >= self.limit {
            return Err(DeviceError { message: "texture limit reached".to_owned() });
        }
        let id = self.textures.len() as u64;
        let stored = StoredTexture {
            width,
            height,
            format,
            pixels: vstd::slice::slice_to_vec(pixels),
            has_mipmap: false,
        };
        self.textures.push(stored);
        let handle = TextureHandle { id, width, height, format };
        proof {
            assert(self.model() =~= old(self).model().insert(
                id,
                (TexModel { width, height, format, pixels: pixels@, has_mipmap: false }),
            ));
        }
        Ok(handle)
    }

    fn upload(&mut self, handle: &TextureHandle, pixels: &[u8]) -> (r: Result<(), DeviceError>) {
        let i = self.slot(handle);
        let entry = StoredTexture {
            width: self.textures[i].width,
            height: self.textures[i].height,
            format: self.textures[i].format,
            pixels: vstd::slice::slice_to_vec(pixels),
            has_mipmap: false,
        };
        self.textures[i] = entry;
        proof {
            assert(self.model() =~= old(self).model().insert(
                handle.id,
                (TexModel {
                    width: old(self).model()[handle.id].width,
                    height: old(self).model()[handle.id].height,
                    format: old(self).model()[handle.id].format,
                    pixels: pixels@,
                    has_mipmap: false,
                }),
            ));
        }
        Ok(())
    }

    fn generate_mipmap(&mut self, handle: &TextureHandle) {
        let i = self.slot(handle);
        let entry = StoredTexture {
            width: self.textures[i].width,
            height: self.textures[i].height,
            format: self.textures[i].format,
            pixels: vstd::slice::slice_to_vec(self.textures[i].pixels.as_slice()),
            has_mipmap: true,
        };
        self.textures[i] = entry;
        proof {
            assert(self.model().dom() =~= old(self).model().dom());
        }
    }

    fn query_extent(&self, handle: &TextureHandle) -> (r: (u32, u32)) {
        let i = self.slot(handle);
        (self.textures[i].width, self.textures[i].height)
    }
}

} // verus!
