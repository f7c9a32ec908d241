use crate::pass_node::{GpuRead, ResourceNodeRef};
use crate::swap_chain::SwapChain;
use crate::texture::Texture;
use vstd::prelude::*;

verus! {

/// An output binding of a pass: where its color results land.
pub enum ColorAttachment {
    Texture(ResourceNodeRef<Texture, GpuRead>),
    SwapChain(ResourceNodeRef<SwapChain, GpuRead>),
}

impl Clone for ColorAttachment {
    fn clone(&self) -> (r: Self)
        ensures
            r == *self,
    {
        match self {
            ColorAttachment::Texture(node) => ColorAttachment::Texture(*node),
            ColorAttachment::SwapChain(node) => ColorAttachment::SwapChain(*node),
        }
    }
}

impl Copy for ColorAttachment {}

} // verus!
