use crate::render_pass::RenderPass;
use std::ops::Range;
use vstd::prelude::*;

verus! {

/// Backend contract for a command buffer: the recording surface one device
/// pass draws into.
pub trait CommandBufferTrait: 'static + Send + Sync {
    fn begin_render_pass(&mut self, render_pass: RenderPass);

    fn end_render_pass(&mut self);

    fn draw(&mut self, vertices: Range<u32>, instances: Range<u32>);
}

/// Object-safe form of [`CommandBufferTrait`].
pub trait ErasedCommandBufferTrait: 'static + Send + Sync {
    fn begin_render_pass(&mut self, render_pass: RenderPass);

    fn end_render_pass(&mut self);

    fn draw(&mut self, vertices: Range<u32>, instances: Range<u32>);
}

impl<T: CommandBufferTrait> ErasedCommandBufferTrait for T {
    fn begin_render_pass(&mut self, render_pass: RenderPass) {
        <T as CommandBufferTrait>::begin_render_pass(self, render_pass);
    }

    fn end_render_pass(&mut self) {
        <T as CommandBufferTrait>::end_render_pass(self);
    }

    fn draw(&mut self, vertices: Range<u32>, instances: Range<u32>) {
        <T as CommandBufferTrait>::draw(self, vertices, instances);
    }
}

/// A type-erased command buffer.
pub struct CommandBuffer {
    value: Box<dyn ErasedCommandBufferTrait>,
}

impl CommandBuffer {
    pub fn new<T: CommandBufferTrait>(value: T) -> Self {
        CommandBuffer { value: Box::new(value) }
    }

    pub fn begin_render_pass(&mut self, render_pass: RenderPass) {
        self.value.begin_render_pass(render_pass);
    }

    pub fn end_render_pass(&mut self) {
        self.value.end_render_pass();
    }

    pub fn draw(&mut self, vertices: Range<u32>, instances: Range<u32>) {
        self.value.draw(vertices, instances);
    }
}

} // verus!
