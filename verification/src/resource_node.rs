use crate::handle::{PassNodeSlot, ResourceNodeSlot, TypeHandle, VirtualResourceSlot};
use std::marker::PhantomData;
use vstd::prelude::*;

verus! {

/// A versioned reference onto a virtual resource at one point in the pass
/// timeline. Many nodes may point at one virtual resource: one per version,
/// plus one per distinct read registration.
#[derive(Clone, Copy)]
pub struct ResourceNode {
    /// Slot of this node in the graph's resource-node array.
    pub handle: TypeHandle<ResourceNodeSlot>,
    /// The virtual resource this node refers to.
    pub resource_handle: TypeHandle<VirtualResourceSlot>,
    /// The version of the virtual resource this node refers to.
    pub version: u32,
    /// The pass that produced this version, if it was produced by a write.
    pub writer_handle: Option<TypeHandle<PassNodeSlot>>,
}

impl ResourceNode {
    pub fn new(
        handle: TypeHandle<ResourceNodeSlot>,
        resource_handle: TypeHandle<VirtualResourceSlot>,
        version: u32,
    ) -> (r: Self)
        ensures
            r.handle == handle,
            r.resource_handle == resource_handle,
            r.version == version,
            r.writer_handle is None,
    {
        ResourceNode { handle, resource_handle, version, writer_handle: None }
    }

    pub fn resource_node_handle(&self) -> (r: TypeHandle<ResourceNodeSlot>)
        ensures
            r == self.handle,
    {
        self.handle
    }

    pub fn resource_handle(&self) -> (r: TypeHandle<VirtualResourceSlot>)
        ensures
            r == self.resource_handle,
    {
        self.resource_handle
    }
}

/// External-facing reference to a resource node, tagged with the resource
/// kind it was declared as.
#[verifier::reject_recursive_types(ResourceType)]
pub struct ResourceNodeHandle<ResourceType> {
    handle: TypeHandle<ResourceNodeSlot>,
    resource_handle: TypeHandle<VirtualResourceSlot>,
    marker: PhantomData<ResourceType>,
}

/// Untyped form of [`ResourceNodeHandle`], used where handles of different
/// resource kinds are stored together (the resource board).
pub struct RawResourceNodeHandle {
    handle: TypeHandle<ResourceNodeSlot>,
    resource_handle: TypeHandle<VirtualResourceSlot>,
}

impl RawResourceNodeHandle {
    /// The resource-node slot this handle refers to.
    pub closed spec fn spec_resource_node_handle(&self) -> TypeHandle<ResourceNodeSlot> {
        self.handle
    }

    /// The virtual-resource slot this handle refers to.
    pub closed spec fn spec_resource_handle(&self) -> TypeHandle<VirtualResourceSlot> {
        self.resource_handle
    }

    pub fn resource_handle(&self) -> (r: TypeHandle<VirtualResourceSlot>)
        ensures
            r == self.spec_resource_handle(),
    {
        self.resource_handle
    }

    pub fn resource_node_handle(&self) -> (r: TypeHandle<ResourceNodeSlot>)
        ensures
            r == self.spec_resource_node_handle(),
    {
        self.handle
    }
}

impl Clone for RawResourceNodeHandle {
    fn clone(&self) -> (r: Self)
        ensures
            r == *self,
    {
        RawResourceNodeHandle { handle: self.handle, resource_handle: self.resource_handle }
    }
}

impl Copy for RawResourceNodeHandle {}

impl<ResourceType> ResourceNodeHandle<ResourceType> {
    /// The resource-node slot this handle refers to.
    pub closed spec fn spec_resource_node_handle(&self) -> TypeHandle<ResourceNodeSlot> {
        self.handle
    }

    /// The virtual-resource slot this handle refers to.
    pub closed spec fn spec_resource_handle(&self) -> TypeHandle<VirtualResourceSlot> {
        self.resource_handle
    }

    pub fn new(
        handle: TypeHandle<ResourceNodeSlot>,
        resource_handle: TypeHandle<VirtualResourceSlot>,
    ) -> (r: Self)
        ensures
            r.spec_resource_node_handle() == handle,
            r.spec_resource_handle() == resource_handle,
    {
        ResourceNodeHandle { handle, resource_handle, marker: PhantomData }
    }

    /// The value `raw` returns: this handle without its resource-kind tag.
    pub closed spec fn raw_spec(&self) -> RawResourceNodeHandle {
        RawResourceNodeHandle { handle: self.handle, resource_handle: self.resource_handle }
    }

    /// This handle without its resource-kind tag.
    pub fn raw(&self) -> (r: RawResourceNodeHandle)
        ensures
            r == self.raw_spec(),
            r.spec_resource_node_handle() == self.spec_resource_node_handle(),
            r.spec_resource_handle() == self.spec_resource_handle(),
    {
        RawResourceNodeHandle { handle: self.handle, resource_handle: self.resource_handle }
    }

    pub fn resource_handle(&self) -> (r: TypeHandle<VirtualResourceSlot>)
        ensures
            r == self.spec_resource_handle(),
    {
        self.resource_handle
    }

    pub fn resource_node_handle(&self) -> (r: TypeHandle<ResourceNodeSlot>)
        ensures
            r == self.spec_resource_node_handle(),
    {
        self.handle
    }
}

impl<ResourceType> Clone for ResourceNodeHandle<ResourceType> {
    fn clone(&self) -> (r: Self)
        ensures
            r == *self,
    {
        ResourceNodeHandle {
            handle: self.handle,
            resource_handle: self.resource_handle,
            marker: PhantomData,
        }
    }
}

impl<ResourceType> Copy for ResourceNodeHandle<ResourceType> {}

} // verus!
