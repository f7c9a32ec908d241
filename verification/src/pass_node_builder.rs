use crate::color_attachment::ColorAttachment;
use crate::graph::{FrameGraph, pass_wf};
use crate::pass::DynPass;
use crate::pass_node::{GpuRead, GpuWrite, PassNode, ResourceNodeRef};
use crate::resource::{FGResource, FGResourceDescriptor, ImportToFrameGraph, TypeEquals};
use crate::resource_board::board_find;
use crate::resource_node::ResourceNodeHandle;
use std::sync::Arc;
use vstd::prelude::*;

verus! {

/// Scoped constructor of one pass node, pre-bound to a reserved pass slot.
/// Resources can be declared while building; `build` commits the finished
/// node into the graph. Building must end in exactly one `build` call:
/// consuming `self` forbids a second, and dropping the builder without
/// building loses the pass.
#[must_use]
pub struct PassNodeBuilder {
    pass_node: PassNode,
}

impl PassNodeBuilder {
    /// The pass node as built so far.
    pub closed spec fn spec_pass_node(&self) -> PassNode {
        self.pass_node
    }

    pub fn new(insert_point: usize, name: &str, graph: &FrameGraph) -> (r: Self)
        ensures
            r.spec_pass_node().handle@ == graph.spec_pass_nodes().len(),
            r.spec_pass_node().name@ == name@,
            r.spec_pass_node().insert_point == insert_point,
            r.spec_pass_node().reads@.len() == 0,
            r.spec_pass_node().writes@.len() == 0,
            r.spec_pass_node().resource_request_array@.len() == 0,
            r.spec_pass_node().resource_release_array@.len() == 0,
            r.spec_pass_node().pass is None,
            r.spec_pass_node().color_attachments@.len() == 0,
    {
        let handle = graph.get_current_pass_node_handle();
        PassNodeBuilder { pass_node: PassNode::new(insert_point, name, handle) }
    }

    /// Declare an output binding of the pass being built.
    pub fn add_attachment(&mut self, color_attachment: ColorAttachment)
        ensures
            final(self).spec_pass_node().color_attachments@ == old(
                self,
            ).spec_pass_node().color_attachments@.push(color_attachment),
            final(self).spec_pass_node().name == old(self).spec_pass_node().name,
            final(self).spec_pass_node().handle == old(self).spec_pass_node().handle,
            final(self).spec_pass_node().writes == old(self).spec_pass_node().writes,
            final(self).spec_pass_node().reads == old(self).spec_pass_node().reads,
            final(self).spec_pass_node().insert_point == old(self).spec_pass_node().insert_point,
            final(self).spec_pass_node().resource_request_array == old(
                self,
            ).spec_pass_node().resource_request_array,
            final(self).spec_pass_node().resource_release_array == old(
                self,
            ).spec_pass_node().resource_release_array,
            final(self).spec_pass_node().pass == old(self).spec_pass_node().pass,
    {
        self.pass_node.add_attachment(color_attachment);
    }

    /// Attach the externally authored pass body.
    pub fn set_pass(&mut self, pass: DynPass)
        ensures
            final(self).spec_pass_node().pass is Some,
            final(self).spec_pass_node().name == old(self).spec_pass_node().name,
            final(self).spec_pass_node().handle == old(self).spec_pass_node().handle,
            final(self).spec_pass_node().writes == old(self).spec_pass_node().writes,
            final(self).spec_pass_node().reads == old(self).spec_pass_node().reads,
            final(self).spec_pass_node().insert_point == old(self).spec_pass_node().insert_point,
            final(self).spec_pass_node().resource_request_array == old(
                self,
            ).spec_pass_node().resource_request_array,
            final(self).spec_pass_node().resource_release_array == old(
                self,
            ).spec_pass_node().resource_release_array,
            final(self).spec_pass_node().color_attachments == old(
                self,
            ).spec_pass_node().color_attachments,
    {
        self.pass_node.set_pass(pass);
    }

    /// Commit the built pass node into the graph. The graph must not have
    /// gained a pass since this builder reserved its slot.
    pub fn build(self, graph: &mut FrameGraph)
        requires
            old(graph).wf(),
            self.spec_pass_node().handle@ == old(graph).spec_pass_nodes().len(),
            pass_wf(
                self.spec_pass_node(),
                old(graph).spec_resource_nodes().len() as int,
                old(graph).spec_resources().len() as int,
            ),
        ensures
            final(graph).wf(),
            final(graph).spec_pass_nodes() == old(graph).spec_pass_nodes().push(
                self.spec_pass_node(),
            ),
            final(graph).spec_resources() == old(graph).spec_resources(),
            final(graph).spec_resource_nodes() == old(graph).spec_resource_nodes(),
            final(graph).spec_board() == old(graph).spec_board(),
            final(graph).spec_device_passes() == old(graph).spec_device_passes(),
    {
        graph.add_pass_node(self.pass_node);
    }

    /// Declare a new setup resource while building; delegates to the graph.
    pub fn create<DescriptorType>(
        &self,
        graph: &mut FrameGraph,
        name: &str,
        desc: DescriptorType,
    ) -> (r: ResourceNodeHandle<DescriptorType::Resource>) where
        DescriptorType: FGResourceDescriptor + TypeEquals<
            Other = <<DescriptorType as FGResourceDescriptor>::Resource as FGResource>::Descriptor,
        >,

        requires
            old(graph).wf(),
        ensures
            final(graph).wf(),
            final(graph).spec_resources().len() == old(graph).spec_resources().len() + 1,
            final(graph).spec_resource_nodes().len() == old(graph).spec_resource_nodes().len()
                + 1,
            final(graph).spec_pass_nodes() == old(graph).spec_pass_nodes(),
            final(graph).spec_board() == old(graph).spec_board(),
            final(graph).spec_device_passes() == old(graph).spec_device_passes(),
            forall|i: int|
                0 <= i < old(graph).spec_resources().len() ==> final(graph).spec_resources()[i]
                    == old(graph).spec_resources()[i],
            forall|i: int|
                0 <= i < old(graph).spec_resource_nodes().len() ==> final(graph).spec_resource_nodes()[i] == old(graph).spec_resource_nodes()[i],
            ({
                let v = final(graph).spec_resources().last();
                &&& v.info.name@ == name@
                &&& v.info.handle@ == old(graph).spec_resources().len()
                &&& v.info.spec_version() == 0
                &&& v.info.first_pass_node_handle is None
                &&& v.info.last_pass_node_handle is None
                &&& v.state == crate::resource::ResourceState::Setup(desc.spec_any())
            }),
            r.spec_resource_node_handle()@ == old(graph).spec_resource_nodes().len(),
            r.spec_resource_handle()@ == old(graph).spec_resources().len(),
    {
        graph.create(name, desc)
    }

    /// Import an externally owned resource while building; delegates to the
    /// graph.
    pub fn import<ResourceType>(
        &self,
        graph: &mut FrameGraph,
        name: &str,
        resource: Arc<ResourceType>,
        desc: ResourceType::Descriptor,
    ) -> (r: ResourceNodeHandle<ResourceType>) where
        ResourceType: ImportToFrameGraph,
        ResourceType::Descriptor: FGResourceDescriptor,

        requires
            old(graph).wf(),
        ensures
            final(graph).wf(),
            final(graph).spec_resources().len() == old(graph).spec_resources().len() + 1,
            final(graph).spec_resource_nodes().len() == old(graph).spec_resource_nodes().len()
                + 1,
            final(graph).spec_pass_nodes() == old(graph).spec_pass_nodes(),
            final(graph).spec_device_passes() == old(graph).spec_device_passes(),
            r.spec_resource_node_handle()@ == old(graph).spec_resource_nodes().len(),
            r.spec_resource_handle()@ == old(graph).spec_resources().len(),
            forall|n: Seq<char>|
                board_find(final(graph).spec_board(), n) == if n == name@ {
                    Some(r.raw_spec())
                } else {
                    board_find(old(graph).spec_board(), n)
                },
    {
        graph.import(name, resource, desc)
    }

    /// Declare a write of `resource_handle` by the pass being built.
    pub fn write<ResourceType>(
        &mut self,
        graph: &mut FrameGraph,
        resource_handle: ResourceNodeHandle<ResourceType>,
    ) -> (r: ResourceNodeRef<ResourceType, GpuWrite>)
        requires
            old(graph).wf(),
            resource_handle.spec_resource_node_handle()@ < old(
                graph,
            ).spec_resource_nodes().len(),
            old(graph).spec_resources()[old(graph).spec_resource_nodes()[resource_handle.spec_resource_node_handle()@].resource_handle@].info.spec_version()
                < u32::MAX,
        ensures
            final(graph).wf(),
            final(graph).spec_resource_nodes().len() == old(graph).spec_resource_nodes().len()
                + 1,
            final(graph).spec_pass_nodes() == old(graph).spec_pass_nodes(),
            final(graph).spec_board() == old(graph).spec_board(),
            final(graph).spec_device_passes() == old(graph).spec_device_passes(),
            forall|i: int|
                0 <= i < old(graph).spec_resource_nodes().len() ==> final(graph).spec_resource_nodes()[i] == old(graph).spec_resource_nodes()[i],
            ({
                let rh = old(
                    graph,
                ).spec_resource_nodes()[resource_handle.spec_resource_node_handle()@].resource_handle;
                &&& final(graph).spec_resources().len() == old(graph).spec_resources().len()
                &&& forall|i: int|
                    0 <= i < old(graph).spec_resources().len() && i != rh@ ==> final(graph).spec_resources()[i] == old(graph).spec_resources()[i]
                &&& ({
                    let v = final(graph).spec_resources()[rh@];
                    let w = old(graph).spec_resources()[rh@];
                    &&& v.info.spec_version() == w.info.spec_version() + 1
                    &&& v.info.name == w.info.name
                    &&& v.info.handle == w.info.handle
                    &&& v.info.first_pass_node_handle == w.info.first_pass_node_handle
                    &&& v.info.last_pass_node_handle == w.info.last_pass_node_handle
                    &&& v.state == w.state
                })
                &&& ({
                    let node = final(graph).spec_resource_nodes().last();
                    &&& node.handle@ == old(graph).spec_resource_nodes().len()
                    &&& node.resource_handle == rh
                    &&& node.version == old(graph).spec_resources()[rh@].info.spec_version() + 1
                    &&& node.writer_handle == Some(old(self).spec_pass_node().handle)
                })
                &&& r.spec_resource_handle() == rh
            }),
            r.spec_resource_node_handle()@ == old(graph).spec_resource_nodes().len(),
            final(self).spec_pass_node().writes@ == old(self).spec_pass_node().writes@.push(
                r.spec_resource_node_handle(),
            ),
            final(self).spec_pass_node().name == old(self).spec_pass_node().name,
            final(self).spec_pass_node().handle == old(self).spec_pass_node().handle,
            final(self).spec_pass_node().reads == old(self).spec_pass_node().reads,
            final(self).spec_pass_node().insert_point == old(self).spec_pass_node().insert_point,
            final(self).spec_pass_node().resource_request_array == old(
                self,
            ).spec_pass_node().resource_request_array,
            final(self).spec_pass_node().resource_release_array == old(
                self,
            ).spec_pass_node().resource_release_array,
            final(self).spec_pass_node().pass == old(self).spec_pass_node().pass,
            final(self).spec_pass_node().color_attachments == old(
                self,
            ).spec_pass_node().color_attachments,
    {
        self.pass_node.write(graph, resource_handle)
    }

    /// Declare a read of `resource_handle` by the pass being built; a second
    /// read of the same node does not grow the read list.
    pub fn read<ResourceType>(
        &mut self,
        graph: &FrameGraph,
        resource_handle: ResourceNodeHandle<ResourceType>,
    ) -> (r: ResourceNodeRef<ResourceType, GpuRead>)
        requires
            graph.wf(),
            resource_handle.spec_resource_node_handle()@ < graph.spec_resource_nodes().len(),
        ensures
            final(self).spec_pass_node().reads@ == crate::pass_node::with_read(
                old(self).spec_pass_node().reads@,
                resource_handle.spec_resource_node_handle(),
            ),
            final(self).spec_pass_node().name == old(self).spec_pass_node().name,
            final(self).spec_pass_node().handle == old(self).spec_pass_node().handle,
            final(self).spec_pass_node().writes == old(self).spec_pass_node().writes,
            final(self).spec_pass_node().insert_point == old(self).spec_pass_node().insert_point,
            final(self).spec_pass_node().resource_request_array == old(
                self,
            ).spec_pass_node().resource_request_array,
            final(self).spec_pass_node().resource_release_array == old(
                self,
            ).spec_pass_node().resource_release_array,
            final(self).spec_pass_node().pass == old(self).spec_pass_node().pass,
            final(self).spec_pass_node().color_attachments == old(
                self,
            ).spec_pass_node().color_attachments,
            r.spec_resource_node_handle() == resource_handle.spec_resource_node_handle(),
            r.spec_resource_handle()
                == graph.spec_resource_nodes()[resource_handle.spec_resource_node_handle()@].resource_handle,
    {
        self.pass_node.read(graph, resource_handle)
    }

    /// Look up an imported resource by board name, typed as `ResourceType`.
    pub fn read_from_board<ResourceType>(&self, graph: &FrameGraph, name: &str) -> (r: Option<
        ResourceNodeHandle<ResourceType>,
    >)
        ensures
            match r {
                None => board_find(graph.spec_board(), name@) is None,
                Some(handle) => {
                    &&& board_find(graph.spec_board(), name@) matches Some(raw)
                    &&& handle.spec_resource_node_handle()
                        == board_find(
                        graph.spec_board(),
                        name@,
                    )->Some_0.spec_resource_node_handle()
                    &&& handle.spec_resource_handle() == board_find(
                        graph.spec_board(),
                        name@,
                    )->Some_0.spec_resource_handle()
                },
            },
    {
        match graph.get_resource_board().get(name) {
            Some(raw) => Some(
                ResourceNodeHandle::new(raw.resource_node_handle(), raw.resource_handle()),
            ),
            None => None,
        }
    }
}

} // verus!
