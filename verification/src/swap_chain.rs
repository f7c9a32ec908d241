use crate::texture_view::TextureView;
use vstd::prelude::*;

verus! {

/// Descriptor of a swap-chain surface. Surfaces are owned by the windowing
/// layer and only ever imported, so the descriptor is just a label.
#[derive(Debug)]
pub struct SwapChainInfo {
    pub name: String,
}

impl Clone for SwapChainInfo {
    fn clone(&self) -> (r: Self)
        ensures
            r == *self,
    {
        SwapChainInfo { name: self.name.clone() }
    }
}

impl SwapChainInfo {
    pub fn new(name: String) -> (r: Self)
        ensures
            r.name == name,
    {
        SwapChainInfo { name }
    }
}

/// Backend contract for a swap-chain surface: the one thing the graph asks
/// of it is a view to attach render output to.
pub trait SwapChainTrait: 'static + Send + Sync {
    fn get_texture_view(&self) -> TextureView;
}

/// Object-safe form of [`SwapChainTrait`].
pub trait ErasedSwapChainTrait: 'static + Send + Sync {
    fn get_texture_view(&self) -> TextureView;
}

impl<T: SwapChainTrait> ErasedSwapChainTrait for T {
    fn get_texture_view(&self) -> TextureView {
        <T as SwapChainTrait>::get_texture_view(self)
    }
}

/// A type-erased swap-chain surface.
pub struct SwapChain {
    value: Box<dyn ErasedSwapChainTrait>,
}

impl SwapChain {
    pub fn new<T: SwapChainTrait>(value: T) -> Self {
        SwapChain { value: Box::new(value) }
    }

    pub fn get_texture_view(&self) -> TextureView {
        self.value.get_texture_view()
    }
}

} // verus!
