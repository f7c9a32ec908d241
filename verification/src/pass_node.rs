use crate::color_attachment::ColorAttachment;
use crate::handle::{PassNodeSlot, ResourceNodeSlot, TypeHandle, VirtualResourceSlot, contains_handle};
use crate::pass::DynPass;
use crate::resource_node::ResourceNodeHandle;
use std::marker::PhantomData;
use vstd::prelude::*;

verus! {

/// The read list after registering a read of node `h`: unchanged if `h` is
/// already registered, extended by `h` otherwise.
pub open spec fn with_read(
    reads: Seq<TypeHandle<ResourceNodeSlot>>,
    h: TypeHandle<ResourceNodeSlot>,
) -> Seq<TypeHandle<ResourceNodeSlot>> {
    if reads.contains(h) {
        reads
    } else {
        reads.push(h)
    }
}

/// Registering a read of the same resource node twice leaves the read list
/// exactly as one registration does: read registration is idempotent.
pub proof fn lemma_read_registration_idempotent(
    reads: Seq<TypeHandle<ResourceNodeSlot>>,
    h: TypeHandle<ResourceNodeSlot>,
)
    ensures
        with_read(with_read(reads, h), h) == with_read(reads, h),
{
    if !reads.contains(h) {
        assert(reads.push(h)[reads.len() as int] == h);
        assert(reads.push(h).contains(h));
    }
}

/// A duplicate-free read list stays duplicate-free under read registration,
/// and afterwards holds the registered node: together with idempotence, a
/// node read any number of times is registered exactly once.
pub proof fn lemma_read_registration_exactly_once(
    reads: Seq<TypeHandle<ResourceNodeSlot>>,
    h: TypeHandle<ResourceNodeSlot>,
)
    requires
        forall|i: int, j: int| 0 <= i < j < reads.len() ==> reads[i] != reads[j],
    ensures
        with_read(reads, h).contains(h),
        forall|i: int, j: int|
            0 <= i < j < with_read(reads, h).len() ==> with_read(reads, h)[i] != with_read(
                reads,
                h,
            )[j],
{
    if !reads.contains(h) {
        let grown = reads.push(h);
        assert(grown[reads.len() as int] == h);
        assert(grown.contains(h));
        assert forall|i: int, j: int| 0 <= i < j < grown.len() implies grown[i] != grown[j] by {
            if j == reads.len() as int {
                if grown[i] == h {
                    assert(reads[i] == h);
                    assert(reads.contains(h));
                }
            }
        }
    } else {
        let w = choose|i: int| 0 <= i < reads.len() && reads[i] == h;
        assert(with_read(reads, h)[w] == h);
    }
}

/// Capability tag of a resource-node reference: read or write intent.
pub trait GpuViewType: 'static {

}

/// Tag of a reference obtained through `read`.
pub struct GpuRead;

impl GpuViewType for GpuRead {

}

/// Tag of a reference obtained through `write`.
pub struct GpuWrite;

impl GpuViewType for GpuWrite {

}

/// Reference to a resource node returned by `read` or `write`, tagged with
/// the declared intent so a read-only reference cannot stand where write
/// access is required.
#[verifier::reject_recursive_types(ResourceType)]
#[verifier::reject_recursive_types(ViewType)]
pub struct ResourceNodeRef<ResourceType, ViewType> {
    handle: TypeHandle<ResourceNodeSlot>,
    resource_handle: TypeHandle<VirtualResourceSlot>,
    marker: PhantomData<(ResourceType, ViewType)>,
}

impl<ResourceType, ViewType> Clone for ResourceNodeRef<ResourceType, ViewType> {
    fn clone(&self) -> (r: Self)
        ensures
            r == *self,
    {
        ResourceNodeRef {
            handle: self.handle,
            resource_handle: self.resource_handle,
            marker: PhantomData,
        }
    }
}

impl<ResourceType, ViewType> Copy for ResourceNodeRef<ResourceType, ViewType> {}

impl<ResourceType, ViewType> ResourceNodeRef<ResourceType, ViewType> {
    /// The resource-node slot this reference refers to.
    pub closed spec fn spec_resource_node_handle(&self) -> TypeHandle<ResourceNodeSlot> {
        self.handle
    }

    /// The virtual-resource slot this reference refers to.
    pub closed spec fn spec_resource_handle(&self) -> TypeHandle<VirtualResourceSlot> {
        self.resource_handle
    }

    pub fn new(
        handle: TypeHandle<ResourceNodeSlot>,
        resource_handle: TypeHandle<VirtualResourceSlot>,
    ) -> (r: Self)
        ensures
            r.spec_resource_node_handle() == handle,
            r.spec_resource_handle() == resource_handle,
    {
        ResourceNodeRef { handle, resource_handle, marker: PhantomData }
    }

    pub fn resource_handle(&self) -> (r: TypeHandle<VirtualResourceSlot>)
        ensures
            r == self.spec_resource_handle(),
    {
        self.resource_handle
    }

    pub fn resource_node_handle(&self) -> (r: TypeHandle<ResourceNodeSlot>)
        ensures
            r == self.spec_resource_node_handle(),
    {
        self.handle
    }
}

/// A declared unit of GPU work: its ordering key, its read and write
/// declarations, the resource lifetimes the compiler derived for it, and the
/// externally authored pass body.
pub struct PassNode {
    pub name: String,
    /// Slot of this node in the graph's pass array.
    pub handle: TypeHandle<PassNodeSlot>,
    /// Resource nodes produced by this pass's writes.
    pub writes: Vec<TypeHandle<ResourceNodeSlot>>,
    /// Resource nodes this pass reads.
    pub reads: Vec<TypeHandle<ResourceNodeSlot>>,
    /// Ordering key: lower runs earlier, ties run in declaration order.
    pub insert_point: usize,
    /// Resources this pass must materialize before running; filled in by
    /// compile for each resource whose first user this pass is.
    pub resource_request_array: Vec<TypeHandle<VirtualResourceSlot>>,
    /// Resources this pass releases after running; filled in by compile for
    /// each resource whose last user this pass is.
    pub resource_release_array: Vec<TypeHandle<VirtualResourceSlot>>,
    /// The externally authored pass body.
    pub pass: Option<DynPass>,
    /// Output bindings declared while building.
    pub color_attachments: Vec<ColorAttachment>,
}

impl PassNode {
    pub fn new(insert_point: usize, name: &str, handle: TypeHandle<PassNodeSlot>) -> (r: Self)
        ensures
            r.name@ == name@,
            r.handle == handle,
            r.writes@ == Seq::<TypeHandle<ResourceNodeSlot>>::empty(),
            r.reads@ == Seq::<TypeHandle<ResourceNodeSlot>>::empty(),
            r.insert_point == insert_point,
            r.resource_request_array@ == Seq::<TypeHandle<VirtualResourceSlot>>::empty(),
            r.resource_release_array@ == Seq::<TypeHandle<VirtualResourceSlot>>::empty(),
            r.pass is None,
            r.color_attachments@ == Seq::<ColorAttachment>::empty(),
    {
        PassNode {
            name: name.to_owned(),
            handle,
            writes: Vec::new(),
            reads: Vec::new(),
            insert_point,
            resource_request_array: Vec::new(),
            resource_release_array: Vec::new(),
            pass: None,
            color_attachments: Vec::new(),
        }
    }

    /// Attach the externally authored pass body.
    pub fn set_pass(&mut self, pass: DynPass)
        ensures
            final(self).pass is Some,
            final(self).name == old(self).name,
            final(self).handle == old(self).handle,
            final(self).writes == old(self).writes,
            final(self).reads == old(self).reads,
            final(self).insert_point == old(self).insert_point,
            final(self).resource_request_array == old(self).resource_request_array,
            final(self).resource_release_array == old(self).resource_release_array,
            final(self).color_attachments == old(self).color_attachments,
    {
        self.pass = Some(pass);
    }

    /// Declare a write of the resource behind `resource_handle`: bump the
    /// resource's version and allocate a brand-new resource node recording
    /// this pass as its writer. Reads never mutate the version.
    pub fn write<ResourceType>(
        &mut self,
        graph: &mut crate::graph::FrameGraph,
        resource_handle: ResourceNodeHandle<ResourceType>,
    ) -> (r: ResourceNodeRef<ResourceType, GpuWrite>)
        requires
            old(graph).wf(),
            resource_handle.spec_resource_node_handle()@ < old(
                graph,
            ).spec_resource_nodes().len(),
            old(graph).spec_resources()[old(graph).spec_resource_nodes()[resource_handle.spec_resource_node_handle()@].resource_handle@].info.spec_version()
                < u32::MAX,
        ensures
            final(graph).wf(),
            ({
                let rh = old(
                    graph,
                ).spec_resource_nodes()[resource_handle.spec_resource_node_handle()@].resource_handle;
                &&& final(graph).spec_resources().len() == old(graph).spec_resources().len()
                &&& forall|i: int|
                    0 <= i < old(graph).spec_resources().len() && i != rh@ ==> final(graph).spec_resources()[i] == old(graph).spec_resources()[i]
                &&& ({
                    let v = final(graph).spec_resources()[rh@];
                    let w = old(graph).spec_resources()[rh@];
                    &&& v.info.spec_version() == w.info.spec_version() + 1
                    &&& v.info.name == w.info.name
                    &&& v.info.handle == w.info.handle
                    &&& v.info.first_pass_node_handle == w.info.first_pass_node_handle
                    &&& v.info.last_pass_node_handle == w.info.last_pass_node_handle
                    &&& v.state == w.state
                })
                &&& final(graph).spec_resource_nodes().len() == old(
                    graph,
                ).spec_resource_nodes().len() + 1
                &&& forall|i: int|
                    0 <= i < old(graph).spec_resource_nodes().len() ==> final(graph).spec_resource_nodes()[i] == old(graph).spec_resource_nodes()[i]
                &&& ({
                    let node = final(graph).spec_resource_nodes().last();
                    &&& node.handle@ == old(graph).spec_resource_nodes().len()
                    &&& node.resource_handle == rh
                    &&& node.version == old(graph).spec_resources()[rh@].info.spec_version() + 1
                    &&& node.writer_handle == Some(old(self).handle)
                })
                &&& r.spec_resource_handle() == rh
            }),
            final(graph).spec_pass_nodes() == old(graph).spec_pass_nodes(),
            final(graph).spec_board() == old(graph).spec_board(),
            final(graph).spec_device_passes() == old(graph).spec_device_passes(),
            r.spec_resource_node_handle()@ == old(graph).spec_resource_nodes().len(),
            final(self).writes@ == old(self).writes@.push(r.spec_resource_node_handle()),
            final(self).name == old(self).name,
            final(self).handle == old(self).handle,
            final(self).reads == old(self).reads,
            final(self).insert_point == old(self).insert_point,
            final(self).resource_request_array == old(self).resource_request_array,
            final(self).resource_release_array == old(self).resource_release_array,
            final(self).pass == old(self).pass,
            final(self).color_attachments == old(self).color_attachments,
    {
        let node_handle = resource_handle.resource_node_handle();
        proof {
            assert(0 <= old(graph).spec_resource_nodes()[node_handle@].resource_handle@ < old(
                graph,
            ).spec_resources().len());
        }
        let rh = graph.get_resource_node(&node_handle).resource_handle();
        graph.bump_resource_version(&rh);
        let resource_info = graph.get_resource(&rh).info.clone();
        proof {
            crate::handle::lemma_type_handle_view_injective(resource_info.handle, rh);
        }
        let new_node_handle = graph.create_resource_node(resource_info);
        graph.set_node_writer(&new_node_handle, self.handle);
        self.writes.push(new_node_handle);
        ResourceNodeRef::new(new_node_handle, rh)
    }

    /// Declare a read of the resource node behind `resource_handle`. A
    /// second read of the same node is idempotent: the read list does not
    /// grow, and an equivalent reference is returned.
    pub fn read<ResourceType>(
        &mut self,
        graph: &crate::graph::FrameGraph,
        resource_handle: ResourceNodeHandle<ResourceType>,
    ) -> (r: ResourceNodeRef<ResourceType, GpuRead>)
        requires
            graph.wf(),
            resource_handle.spec_resource_node_handle()@ < graph.spec_resource_nodes().len(),
        ensures
            final(self).reads@ == with_read(
                old(self).reads@,
                resource_handle.spec_resource_node_handle(),
            ),
            final(self).name == old(self).name,
            final(self).handle == old(self).handle,
            final(self).writes == old(self).writes,
            final(self).insert_point == old(self).insert_point,
            final(self).resource_request_array == old(self).resource_request_array,
            final(self).resource_release_array == old(self).resource_release_array,
            final(self).pass == old(self).pass,
            final(self).color_attachments == old(self).color_attachments,
            r.spec_resource_node_handle() == resource_handle.spec_resource_node_handle(),
            r.spec_resource_handle()
                == graph.spec_resource_nodes()[resource_handle.spec_resource_node_handle()@].resource_handle,
    {
        let node_handle = resource_handle.resource_node_handle();
        if !contains_handle(&self.reads, &node_handle) {
            self.reads.push(node_handle);
        }
        let rh = graph.get_resource_node(&node_handle).resource_handle();
        ResourceNodeRef::new(node_handle, rh)
    }

    pub fn add_attachment(&mut self, color_attachment: ColorAttachment)
        ensures
            final(self).color_attachments@ == old(self).color_attachments@.push(color_attachment),
            final(self).name == old(self).name,
            final(self).handle == old(self).handle,
            final(self).writes == old(self).writes,
            final(self).reads == old(self).reads,
            final(self).insert_point == old(self).insert_point,
            final(self).resource_request_array == old(self).resource_request_array,
            final(self).resource_release_array == old(self).resource_release_array,
            final(self).pass == old(self).pass,
    {
        self.color_attachments.push(color_attachment);
    }
}

} // verus!
