use vstd::prelude::*;

verus! {

/// Descriptor of a texture resource. Two textures back the same requests
/// exactly when their descriptors are equal, so the transient cache pools
/// textures by this value.
#[derive(Debug, Clone, Copy, PartialEq, Eq, Structural)]
pub struct TextureInfo {
    pub width: u32,
    pub height: u32,
}

/// Backend contract for a materialized texture.
pub trait TextureTrait: 'static + Send + Sync {

}

/// Object-safe form of [`TextureTrait`].
pub trait ErasedTextureTrait: 'static + Send + Sync {

}

impl<T: TextureTrait> ErasedTextureTrait for T {

}

/// A type-erased texture together with the descriptor it was created from.
pub struct Texture {
    value: Box<dyn ErasedTextureTrait>,
    desc: TextureInfo,
}

impl Texture {
    /// The descriptor this texture was created from.
    pub closed spec fn spec_desc(&self) -> TextureInfo {
        self.desc
    }

    pub fn new<T: TextureTrait>(value: T, desc: TextureInfo) -> (r: Self)
        ensures
            r.spec_desc() == desc,
    {
        Texture { value: Box::new(value), desc }
    }

    pub fn get_desc(&self) -> (r: &TextureInfo)
        ensures
            *r == self.spec_desc(),
    {
        &self.desc
    }
}

} // verus!
