use crate::command_buffer::CommandBuffer;
use crate::render_pass::{RenderPass, RenderPassInfo};
use crate::resource::{AnyFGResource, AnyFGResourceDescriptor};
use vstd::prelude::*;

verus! {

/// Backend contract of the GPU device: command buffers and render-pass
/// scopes come from it, non-imported resources are created by it, and
/// finished command buffers are submitted through it.
pub trait DeviceTrait: 'static + Send + Sync {
    fn create_command_buffer(&self) -> CommandBuffer;

    fn create_render_pass(&self, desc: &RenderPassInfo) -> RenderPass;

    /// Materialize an owned resource from its descriptor. Only resource
    /// kinds the graph cannot import ready-made are created this way.
    fn create(&self, desc: &AnyFGResourceDescriptor) -> (r: AnyFGResource)
        requires
            desc is Texture,
        ensures
            r is OwnedTexture,
            r->OwnedTexture_0.spec_desc() == desc->Texture_0,
    ;

    fn submit(&self, command_buffers: Vec<CommandBuffer>);
}

/// Object-safe form of [`DeviceTrait`].
pub trait ErasedDeviceTrait: 'static + Send + Sync {
    fn create_command_buffer(&self) -> CommandBuffer;

    fn create_render_pass(&self, desc: &RenderPassInfo) -> RenderPass;

    fn create(&self, desc: &AnyFGResourceDescriptor) -> (r: AnyFGResource)
        requires
            desc is Texture,
        ensures
            r is OwnedTexture,
            r->OwnedTexture_0.spec_desc() == desc->Texture_0,
    ;

    fn submit(&self, command_buffers: Vec<CommandBuffer>);
}

impl<T: DeviceTrait> ErasedDeviceTrait for T {
    fn create_command_buffer(&self) -> CommandBuffer {
        <T as DeviceTrait>::create_command_buffer(self)
    }

    fn create_render_pass(&self, desc: &RenderPassInfo) -> RenderPass {
        <T as DeviceTrait>::create_render_pass(self, desc)
    }

    fn create(&self, desc: &AnyFGResourceDescriptor) -> AnyFGResource {
        <T as DeviceTrait>::create(self, desc)
    }

    fn submit(&self, command_buffers: Vec<CommandBuffer>) {
        <T as DeviceTrait>::submit(self, command_buffers);
    }
}

/// The type-erased GPU device the graph executes against.
pub struct Device {
    value: Box<dyn ErasedDeviceTrait>,
}

impl Device {
    pub fn new<T: DeviceTrait>(value: T) -> Self {
        Device { value: Box::new(value) }
    }

    pub fn create_command_buffer(&self) -> CommandBuffer {
        self.value.create_command_buffer()
    }

    pub fn create_render_pass(&self, desc: &RenderPassInfo) -> RenderPass {
        self.value.create_render_pass(desc)
    }

    /// Materialize an owned resource from its descriptor.
    pub fn create(&self, desc: &AnyFGResourceDescriptor) -> (r: AnyFGResource)
        requires
            desc is Texture,
        ensures
            r is OwnedTexture,
            r->OwnedTexture_0.spec_desc() == desc->Texture_0,
    {
        self.value.create(desc)
    }

    /// Hand the frame's finished command buffers to the backend queue.
    pub fn submit(&self, command_buffers: Vec<CommandBuffer>) {
        self.value.submit(command_buffers);
    }
}

} // verus!
