//! Textures as the scene knows them: a handle of the graphics library and
//! the size of the image.

use vstd::prelude::*;

verus! {

/// A texture. The handle 0 stands for "nothing loaded".
#[derive(Clone, Copy, PartialEq, Eq, Structural, Debug)]
pub struct Texture {
    pub texture_id: u32,
    pub width: u32,
    pub height: u32,
}

impl Texture {
    /// A texture with nothing loaded.
    pub open spec fn spec_new() -> Texture {
        Texture { texture_id: 0, width: 0, height: 0 }
    }

    /// A texture with nothing loaded.
    #[verifier::when_used_as_spec(spec_new)]
    pub fn new() -> (t: Texture)
        ensures
            t == Texture::spec_new(),
    {
        Texture { texture_id: 0, width: 0, height: 0 }
    }

    /// Records an image that was loaded: its handle and its size.
    pub fn load(&mut self, texture_id: u32, width: u32, height: u32)
        ensures
            *final(self) == (Texture { texture_id, width, height }),
    {
        self.width = width;
        self.height = height;
        self.texture_id = texture_id;
    }

    /// Forgets the handle and answers it, for the caller to release; answers
    /// nothing where nothing was loaded. The size stays.
    pub fn unload(&mut self) -> (released: Option<u32>)
        ensures
            *final(self) == (Texture { texture_id: 0, ..*old(self) }),
            released == (if old(self).texture_id != 0 {
                Some(old(self).texture_id)
            } else {
                None
            }),
    {
        if self.texture_id != 0 {
            let id = self.texture_id;
            self.texture_id = 0;
            Some(id)
        } else {
            None
        }
    }

    pub fn get_texture_id(&self) -> (id: u32)
        ensures
            id == self.texture_id,
    {
        self.texture_id
    }

    pub fn get_width(&self) -> (width: u32)
        ensures
            width == self.width,
    {
        self.width
    }

    pub fn get_height(&self) -> (height: u32)
        ensures
            height == self.height,
    {
        self.height
    }
}

} // verus!
