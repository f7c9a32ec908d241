use crate::command_buffer::CommandBuffer;
use crate::pass_node::{GpuRead, ResourceNodeRef};
use crate::resource::FGResource;
use crate::resource_table::ResourceTable;
use std::ops::Range;
use vstd::prelude::*;

verus! {

/// Shared execution state of one `execute` call: the live resource table,
/// the command buffer of the device pass currently recording, and the
/// frame's finished command buffers awaiting submission.
pub struct RenderContext {
    pub resource_table: ResourceTable,
    pub cb: Option<CommandBuffer>,
    pub queue_cbs: Vec<CommandBuffer>,
}

impl RenderContext {
    /// Whether a command buffer is currently recording.
    pub open spec fn spec_has_cb(&self) -> bool {
        self.cb is Some
    }

    pub fn new() -> (r: Self)
        ensures
            r.resource_table@ == Seq::<
                Option<crate::resource::AnyFGResource>,
            >::empty(),
            !r.spec_has_cb(),
            r.queue_cbs@.len() == 0,
    {
        RenderContext { resource_table: ResourceTable::new(), cb: None, queue_cbs: Vec::new() }
    }

    /// Record a draw into the current command buffer; a draw outside a
    /// device pass's render scope is ignored.
    pub fn draw(&mut self, vertices: Range<u32>, instances: Range<u32>)
        ensures
            final(self).resource_table == old(self).resource_table,
            final(self).queue_cbs == old(self).queue_cbs,
            final(self).spec_has_cb() == old(self).spec_has_cb(),
    {
        let cb = self.cb.take();
        match cb {
            Some(mut cb) => {
                cb.draw(vertices, instances);
                self.cb = Some(cb);
            },
            None => {
                self.cb = None;
            },
        }
    }

    /// Hand the context the command buffer a device pass just began.
    pub fn set_cb(&mut self, cb: CommandBuffer)
        ensures
            final(self).spec_has_cb(),
            final(self).resource_table == old(self).resource_table,
            final(self).queue_cbs == old(self).queue_cbs,
    {
        self.cb = Some(cb);
    }

    /// Take the current command buffer out of the context, if any.
    pub fn take_cb(&mut self) -> (r: Option<CommandBuffer>)
        ensures
            !final(self).spec_has_cb(),
            r is Some <==> old(self).spec_has_cb(),
            final(self).resource_table == old(self).resource_table,
            final(self).queue_cbs == old(self).queue_cbs,
    {
        self.cb.take()
    }

    /// Look up the materialized resource behind a read reference. `None`
    /// means the resource is not available this frame; a lookup under the
    /// wrong kind is a programmer error and is excluded.
    pub fn get_resource<ResourceType: FGResource>(
        &self,
        handle: &ResourceNodeRef<ResourceType, GpuRead>,
    ) -> (r: Option<&ResourceType>)
        requires
            self.resource_table.spec_get(handle.spec_resource_handle()@) matches Some(res)
                ==> ResourceType::spec_matches(&res),
        ensures
            r is Some <==> self.resource_table.spec_get(handle.spec_resource_handle()@) is Some,
            self.resource_table.spec_get(handle.spec_resource_handle()@) matches Some(res) ==> (
            r matches Some(v) && *v == ResourceType::spec_borrow(&res)),
    {
        self.resource_table.get_resource(&handle.resource_handle())
    }
}

} // verus!
