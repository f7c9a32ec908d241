use vstd::prelude::*;

verus! {

/// Backend contract for a view onto a texture. Implemented by the concrete
/// GPU backend; the graph itself never looks inside one.
pub trait TextureViewTrait: 'static + Send + Sync {

}

/// Object-safe form of [`TextureViewTrait`], the type every implementor is
/// erased to.
pub trait ErasedTextureViewTrait: 'static + Send + Sync {

}

impl<T: TextureViewTrait> ErasedTextureViewTrait for T {

}

/// A type-erased texture view handed out by a swap chain.
pub struct TextureView {
    value: Box<dyn ErasedTextureViewTrait>,
}

impl TextureView {
    pub fn new<T: TextureViewTrait>(value: T) -> Self {
        TextureView { value: Box::new(value) }
    }
}

} // verus!
