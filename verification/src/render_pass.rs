use crate::color_attachment::ColorAttachment;
use crate::resource_table::ResourceTable;
use vstd::prelude::*;

verus! {

/// Descriptor of a GPU render-pass scope: the union of the attachment sets
/// of the logic passes grouped into one device pass.
pub struct RenderPassInfo {
    pub color_attachments: Vec<ColorAttachment>,
}

impl RenderPassInfo {
    pub fn new() -> (r: Self)
        ensures
            r.color_attachments@ == Seq::<ColorAttachment>::empty(),
    {
        RenderPassInfo { color_attachments: Vec::new() }
    }
}

impl Default for RenderPassInfo {
    fn default() -> (r: Self)
        ensures
            r.color_attachments@ == Seq::<ColorAttachment>::empty(),
    {
        RenderPassInfo::new()
    }
}

impl Clone for RenderPassInfo {
    fn clone(&self) -> (r: Self)
        ensures
            r.color_attachments@ == self.color_attachments@,
    {
        let mut color_attachments: Vec<ColorAttachment> = Vec::new();
        let mut i: usize = 0;
        while i < self.color_attachments.len()
            invariant
                0 <= i <= self.color_attachments.len(),
                color_attachments@ == self.color_attachments@.subrange(0, i as int),
            decreases self.color_attachments.len() - i,
        {
            color_attachments.push(self.color_attachments[i]);
            i = i + 1;
        }
        proof {
            assert(color_attachments@ == self.color_attachments@);
        }
        RenderPassInfo { color_attachments }
    }
}

/// Backend contract for a GPU render-pass scope. `do_init` receives the
/// materialized resources of its device pass so the backend can resolve the
/// declared attachments.
pub trait RenderPassTrait: 'static {
    fn do_init(&mut self, resource_table: &ResourceTable);
}

/// Object-safe form of [`RenderPassTrait`].
pub trait ErasedRenderPassTrait: 'static {
    fn do_init(&mut self, resource_table: &ResourceTable);
}

impl<T: RenderPassTrait> ErasedRenderPassTrait for T {
    fn do_init(&mut self, resource_table: &ResourceTable) {
        <T as RenderPassTrait>::do_init(self, resource_table);
    }
}

/// A type-erased GPU render-pass scope.
pub struct RenderPass {
    value: Box<dyn ErasedRenderPassTrait>,
}

impl RenderPass {
    pub fn new<T: RenderPassTrait>(value: T) -> Self {
        RenderPass { value: Box::new(value) }
    }

    pub fn do_init(&mut self, resource_table: &ResourceTable) {
        self.value.do_init(resource_table);
    }
}

} // verus!
