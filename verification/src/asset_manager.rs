//! Registry of decoded textures.  Decoding a file and uploading texels to
//! the GPU happen outside the library; the manager holds the decoded
//! records and hands out the stable handles everything else refers to.

use vstd::prelude::*;

use crate::types::{TextureId, TextureInfo};

verus! {

/// A decoded texture: its pixel dimensions and its raw texel bytes as the
/// decoder produced them.
pub struct TextureData {
    pub width: u32,
    pub height: u32,
    pub texels: Vec<u8>,
}

/// The texture registry.
pub struct AssetManager {
    tex_storage: Vec<TextureData>,
    tex_count: usize,
}

impl AssetManager {
    /// The number of textures registered so far; the next handle issued.
    pub closed spec fn count(self) -> int {
        self.tex_count as int
    }

    /// The registered textures, oldest first; a handle indexes this.
    pub closed spec fn storage(self) -> Seq<TextureData> {
        self.tex_storage@
    }

    /// The handle counter matches the storage.
    pub open spec fn wf(self) -> bool {
        self.count() == self.storage().len()
    }

    /// An empty registry.
    pub fn new() -> (r: AssetManager)
        ensures
            r.wf(),
            r.count() == 0,
    {
        AssetManager { tex_storage: Vec::new(), tex_count: 0 }
    }

    /// Register a decoded texture and hand back its record: the next free
    /// handle together with the dimensions passed in.
    pub fn register_texture(&mut self, width: u32, height: u32, texels: Vec<u8>) -> (info:
        TextureInfo)
        requires
            old(self).wf(),
            old(self).count() < usize::MAX,
        ensures
            final(self).wf(),
            final(self).count() == old(self).count() + 1,
            info.id == old(self).count(),
            info.width == width,
            info.height == height,
            final(self).storage() == old(self).storage().push(
                (TextureData { width, height, texels }),
            ),
    {
        let id = self.tex_count;
        self.tex_storage.push(TextureData { width, height, texels });
        self.tex_count = self.tex_count + 1;
        TextureInfo::new(id, width, height)
    }

    /// How many textures have been registered.
    pub fn count_loaded(&self) -> (n: usize)
        requires
            self.wf(),
        ensures
            n == self.count(),
    {
        self.tex_count
    }

    /// The texture a handle names, while the handle is in range.
    pub fn get(&self, id: TextureId) -> (r: Option<&TextureData>)
        ensures
            id < self.storage().len() ==> (r matches Some(t) && *t == self.storage()[id as int]),
            id >= self.storage().len() ==> r is None,
    {
        if id < self.tex_storage.len() {
            Some(&self.tex_storage[id])
        } else {
            None
        }
    }
}

} // verus!
