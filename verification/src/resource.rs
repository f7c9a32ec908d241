use crate::handle::{PassNodeSlot, TypeHandle, VirtualResourceSlot};
use crate::swap_chain::{SwapChain, SwapChainInfo};
use crate::texture::{Texture, TextureInfo};
use std::sync::Arc;
use vstd::prelude::*;

verus! {

/// Relies on Arc::clone: the returned handle shares the same underlying
/// value as the argument.
#[verifier::external_body]
fn clone_arc<T>(a: &Arc<T>) -> (res: Arc<T>)
    ensures
        res == *a,
{
    a.clone()
}

/// Closed tagged union over the descriptors of all resource kinds.
#[derive(Debug)]
pub enum AnyFGResourceDescriptor {
    Texture(TextureInfo),
    SwapChain(SwapChainInfo),
}

impl Clone for AnyFGResourceDescriptor {
    fn clone(&self) -> (r: Self)
        ensures
            r == *self,
    {
        match self {
            AnyFGResourceDescriptor::Texture(info) => AnyFGResourceDescriptor::Texture(*info),
            AnyFGResourceDescriptor::SwapChain(info) => AnyFGResourceDescriptor::SwapChain(
                SwapChainInfo { name: info.name.clone() },
            ),
        }
    }
}

/// Closed tagged union over the materialized forms of all resource kinds.
pub enum AnyFGResource {
    OwnedTexture(Texture),
    ImportedTexture(Arc<Texture>),
    ImportedSwapChain(Arc<SwapChain>),
}

/// An externally owned resource handed to the graph by `import`.
pub enum ImportedResource {
    Texture(Arc<Texture>),
    SwapChain(Arc<SwapChain>),
}

impl Clone for ImportedResource {
    fn clone(&self) -> (r: Self)
        ensures
            r == *self,
    {
        match self {
            ImportedResource::Texture(res) => ImportedResource::Texture(clone_arc(res)),
            ImportedResource::SwapChain(res) => ImportedResource::SwapChain(clone_arc(res)),
        }
    }
}

/// The held reference and descriptor of an imported resource.
pub struct ImportedResourceState {
    pub desc: AnyFGResourceDescriptor,
    pub resource: ImportedResource,
}

impl Clone for ImportedResourceState {
    fn clone(&self) -> (r: Self)
        ensures
            r == *self,
    {
        ImportedResourceState { desc: self.desc.clone(), resource: self.resource.clone() }
    }
}

/// How a virtual resource will be materialized at execution time: either
/// created from a descriptor, or imported ready-made.
pub enum ResourceState {
    Imported(ImportedResourceState),
    Setup(AnyFGResourceDescriptor),
}

impl Clone for ResourceState {
    fn clone(&self) -> (r: Self)
        ensures
            r == *self,
    {
        match self {
            ResourceState::Imported(state) => ResourceState::Imported(state.clone()),
            ResourceState::Setup(desc) => ResourceState::Setup(desc.clone()),
        }
    }
}

/// Identity, version counter and lifetime bookkeeping of one virtual
/// resource.
pub struct ResourceInfo {
    /// Unique resource name.
    pub name: String,
    /// Slot of this resource in the graph's resource array.
    pub handle: TypeHandle<VirtualResourceSlot>,
    /// How many writes have been declared against this resource.
    pub version: u32,
    /// Earliest pass, in compiled order, that uses any version of this
    /// resource; filled in by compile.
    pub first_pass_node_handle: Option<TypeHandle<PassNodeSlot>>,
    /// Latest pass, in compiled order, that uses any version of this
    /// resource; filled in by compile.
    pub last_pass_node_handle: Option<TypeHandle<PassNodeSlot>>,
}

impl ResourceInfo {
    /// The version counter: 0 at creation, bumped by exactly 1 per write.
    pub open spec fn spec_version(&self) -> u32 {
        self.version
    }

    pub fn new(name: &str, handle: TypeHandle<VirtualResourceSlot>) -> (r: Self)
        ensures
            r.name@ == name@,
            r.handle == handle,
            r.spec_version() == 0,
            r.first_pass_node_handle is None,
            r.last_pass_node_handle is None,
    {
        ResourceInfo {
            name: name.to_owned(),
            handle,
            version: 0,
            first_pass_node_handle: None,
            last_pass_node_handle: None,
        }
    }

    pub fn version(&self) -> (r: u32)
        ensures
            r == self.spec_version(),
    {
        self.version
    }

    /// Bump the version counter; called once per declared write.
    pub fn new_version(&mut self)
        requires
            old(self).spec_version() < u32::MAX,
        ensures
            final(self).spec_version() == old(self).spec_version() + 1,
            final(self).name == old(self).name,
            final(self).handle == old(self).handle,
            final(self).first_pass_node_handle == old(self).first_pass_node_handle,
            final(self).last_pass_node_handle == old(self).last_pass_node_handle,
    {
        self.version = self.version + 1;
    }

    /// Record that the pass `handle` uses this resource. Passes are walked
    /// in compiled order, so the first caller becomes the first user and the
    /// latest caller so far the last.
    pub fn update_lifetime(&mut self, handle: TypeHandle<PassNodeSlot>)
        ensures
            final(self).first_pass_node_handle == if old(self).first_pass_node_handle is None {
                Some(handle)
            } else {
                old(self).first_pass_node_handle
            },
            final(self).last_pass_node_handle == Some(handle),
            final(self).name == old(self).name,
            final(self).handle == old(self).handle,
            final(self).spec_version() == old(self).spec_version(),
    {
        if self.first_pass_node_handle.is_none() {
            self.first_pass_node_handle = Some(handle);
        }
        self.last_pass_node_handle = Some(handle);
    }
}

impl Clone for ResourceInfo {
    fn clone(&self) -> (r: Self)
        ensures
            r == *self,
    {
        ResourceInfo {
            name: self.name.clone(),
            handle: self.handle,
            version: self.version,
            first_pass_node_handle: self.first_pass_node_handle,
            last_pass_node_handle: self.last_pass_node_handle,
        }
    }
}

/// One logical resource of the frame: its materialization state plus its
/// bookkeeping record. One instance exists per logical resource for the
/// whole frame, however many versions writes create.
pub struct VirtualResource {
    pub state: ResourceState,
    pub info: ResourceInfo,
}

impl Clone for VirtualResource {
    fn clone(&self) -> (r: Self)
        ensures
            r == *self,
    {
        VirtualResource { state: self.state.clone(), info: self.info.clone() }
    }
}

impl VirtualResource {
    /// Register a resource the graph itself must create from `desc`.
    pub fn setup(
        name: &str,
        handle: TypeHandle<VirtualResourceSlot>,
        desc: AnyFGResourceDescriptor,
    ) -> (r: VirtualResource)
        ensures
            r.info.name@ == name@,
            r.info.handle == handle,
            r.info.spec_version() == 0,
            r.info.first_pass_node_handle is None,
            r.info.last_pass_node_handle is None,
            r.state == ResourceState::Setup(desc),
    {
        let info = ResourceInfo::new(name, handle);
        VirtualResource { state: ResourceState::Setup(desc), info }
    }

    /// Register an externally owned resource handed in ready-made.
    pub fn imported(
        name: &str,
        handle: TypeHandle<VirtualResourceSlot>,
        resource: ImportedResource,
        desc: AnyFGResourceDescriptor,
    ) -> (r: VirtualResource)
        ensures
            r.info.name@ == name@,
            r.info.handle == handle,
            r.info.spec_version() == 0,
            r.info.first_pass_node_handle is None,
            r.info.last_pass_node_handle is None,
            r.state == ResourceState::Imported(ImportedResourceState { desc, resource }),
    {
        let info = ResourceInfo::new(name, handle);
        VirtualResource { state: ResourceState::Imported(ImportedResourceState { desc, resource }), info }
    }
}

/// A kind of resource the graph can manage. The set of kinds is closed:
/// every kind maps into the tagged unions above.
pub trait FGResource: Sized {
    /// The descriptor type this resource kind is created from.
    type Descriptor;

    /// Whether the materialized `res` holds a resource of this kind.
    spec fn spec_matches(res: &AnyFGResource) -> bool;

    /// The resource of this kind held by `res`, assuming it matches.
    spec fn spec_borrow(res: &AnyFGResource) -> Self;

    fn borrow_resource(res: &AnyFGResource) -> (r: &Self)
        requires
            Self::spec_matches(res),
        ensures
            *r == Self::spec_borrow(res),
    ;
}

/// A descriptor of one resource kind, convertible into the closed
/// descriptor union.
pub trait FGResourceDescriptor: Sized {
    /// The resource kind this descriptor creates.
    type Resource: FGResource;

    /// The descriptor as a value of the closed union.
    spec fn spec_any(&self) -> AnyFGResourceDescriptor;

    fn to_any(&self) -> (r: AnyFGResourceDescriptor)
        ensures
            r == self.spec_any(),
    ;
}

/// Witness that two types are the same; its blanket implementation makes
/// `create` demand that a descriptor belongs to the resource kind it
/// produces.
pub trait TypeEquals: Sized {
    type Other;

    fn same(value: Self) -> Self::Other;
}

impl<T: Sized> TypeEquals for T {
    type Other = Self;

    fn same(value: Self) -> Self::Other {
        value
    }
}

/// A resource kind that can be imported ready-made into a frame graph.
pub trait ImportToFrameGraph: FGResource {
    /// The imported form of this resource.
    spec fn spec_import(res: Arc<Self>) -> ImportedResource;

    fn import(self: Arc<Self>) -> (r: ImportedResource)
        ensures
            r == Self::spec_import(self),
    ;
}

impl FGResource for Texture {
    type Descriptor = TextureInfo;

    open spec fn spec_matches(res: &AnyFGResource) -> bool {
        res is OwnedTexture || res is ImportedTexture
    }

    open spec fn spec_borrow(res: &AnyFGResource) -> Texture {
        match *res {
            AnyFGResource::OwnedTexture(t) => t,
            AnyFGResource::ImportedTexture(t) => *t,
            AnyFGResource::ImportedSwapChain(_) => arbitrary(),
        }
    }

    fn borrow_resource(res: &AnyFGResource) -> &Texture {
        match res {
            AnyFGResource::OwnedTexture(t) => t,
            AnyFGResource::ImportedTexture(t) => t,
            AnyFGResource::ImportedSwapChain(_) => unreached(),
        }
    }
}

impl FGResourceDescriptor for TextureInfo {
    type Resource = Texture;

    open spec fn spec_any(&self) -> AnyFGResourceDescriptor {
        AnyFGResourceDescriptor::Texture(*self)
    }

    fn to_any(&self) -> AnyFGResourceDescriptor {
        AnyFGResourceDescriptor::Texture(*self)
    }
}

impl ImportToFrameGraph for Texture {
    open spec fn spec_import(res: Arc<Texture>) -> ImportedResource {
        ImportedResource::Texture(res)
    }

    fn import(self: Arc<Self>) -> ImportedResource {
        ImportedResource::Texture(self)
    }
}

impl FGResource for SwapChain {
    type Descriptor = SwapChainInfo;

    open spec fn spec_matches(res: &AnyFGResource) -> bool {
        res is ImportedSwapChain
    }

    open spec fn spec_borrow(res: &AnyFGResource) -> SwapChain {
        match *res {
            AnyFGResource::ImportedSwapChain(s) => *s,
            _ => arbitrary(),
        }
    }

    fn borrow_resource(res: &AnyFGResource) -> &SwapChain {
        match res {
            AnyFGResource::ImportedSwapChain(s) => s,
            _ => unreached(),
        }
    }
}

impl FGResourceDescriptor for SwapChainInfo {
    type Resource = SwapChain;

    open spec fn spec_any(&self) -> AnyFGResourceDescriptor {
        AnyFGResourceDescriptor::SwapChain(SwapChainInfo { name: self.name })
    }

    fn to_any(&self) -> AnyFGResourceDescriptor {
        AnyFGResourceDescriptor::SwapChain(SwapChainInfo { name: self.name.clone() })
    }
}

impl ImportToFrameGraph for SwapChain {
    open spec fn spec_import(res: Arc<SwapChain>) -> ImportedResource {
        ImportedResource::SwapChain(res)
    }

    fn import(self: Arc<Self>) -> ImportedResource {
        ImportedResource::SwapChain(self)
    }
}

} // verus!
