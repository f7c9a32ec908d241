use crate::device::Device;
use crate::handle::{TypeHandle, VirtualResourceSlot};
use crate::resource::{
    AnyFGResource, AnyFGResourceDescriptor, FGResource, ImportedResource, ResourceState,
    VirtualResource,
};
use crate::transient_resource_cache::{TransientResourceCache, pool_has_desc};
use vstd::pervasive::VecAdditionalExecFns;
use vstd::prelude::*;

verus! {

/// The materialized form an imported resource takes in the table.
pub open spec fn spec_imported_any(resource: ImportedResource) -> AnyFGResource {
    match resource {
        ImportedResource::Texture(t) => AnyFGResource::ImportedTexture(t),
        ImportedResource::SwapChain(s) => AnyFGResource::ImportedSwapChain(s),
    }
}

/// Execution-scoped map from virtual-resource handle to the materialized,
/// type-erased resource. A table lives for one `execute` call only and is
/// never persisted across frames.
pub struct ResourceTable {
    slots: Vec<Option<AnyFGResource>>,
}

impl View for ResourceTable {
    type V = Seq<Option<AnyFGResource>>;

    closed spec fn view(&self) -> Seq<Option<AnyFGResource>> {
        self.slots@
    }
}

impl Default for ResourceTable {
    fn default() -> (r: Self)
        ensures
            r@ == Seq::<Option<AnyFGResource>>::empty(),
    {
        ResourceTable { slots: Vec::new() }
    }
}

impl ResourceTable {
    /// The materialized resource stored for virtual-resource slot `k`.
    pub open spec fn spec_get(&self, k: int) -> Option<AnyFGResource> {
        if 0 <= k < self@.len() {
            self@[k]
        } else {
            None
        }
    }

    pub fn new() -> (r: Self)
        ensures
            r@ == Seq::<Option<AnyFGResource>>::empty(),
    {
        ResourceTable { slots: Vec::new() }
    }

    /// Grow the slot array so that `index` is addressable.
    fn ensure_slot(&mut self, index: usize)
        ensures
            final(self)@.len() > index,
            final(self)@.len() >= old(self)@.len(),
            forall|k: int| 0 <= k < old(self)@.len() ==> final(self)@[k] == old(self)@[k],
            forall|k: int| old(self)@.len() <= k < final(self)@.len() ==> final(self)@[k] is None,
    {
        while self.slots.len() <= index
            invariant
                self@.len() >= old(self)@.len(),
                forall|k: int| 0 <= k < old(self)@.len() ==> self@[k] == old(self)@[k],
                forall|k: int| old(self)@.len() <= k < self@.len() ==> self@[k] is None,
            decreases index + 1 - self.slots.len(),
        {
            self.slots.push(None);
        }
    }

    /// Look up the materialized resource for `handle`, narrowed to the
    /// resource kind it was declared as. `None` means nothing is stored for
    /// `handle` this frame. Asking for a stored resource under the wrong
    /// kind is a programmer error, not a missing resource: such inputs are
    /// excluded here, and outside verified code they stop the frame.
    pub fn get_resource<ResourceType: FGResource>(
        &self,
        handle: &TypeHandle<VirtualResourceSlot>,
    ) -> (r: Option<&ResourceType>)
        requires
            self.spec_get(handle@) matches Some(res) ==> ResourceType::spec_matches(&res),
        ensures
            r is Some <==> self.spec_get(handle@) is Some,
            self.spec_get(handle@) matches Some(res) ==> (r matches Some(v) && *v
                == ResourceType::spec_borrow(&res)),
    {
        let idx = handle.index();
        if idx < self.slots.len() {
            match &self.slots[idx] {
                Some(res) => Some(ResourceType::borrow_resource(res)),
                None => None,
            }
        } else {
            None
        }
    }

    /// Materialize `resource` into the table: imported resources are cloned
    /// from their held reference; setup textures are taken from the
    /// transient cache when a pooled texture with an equal descriptor
    /// exists, and freshly created by the device otherwise. Resource kinds
    /// without a pooling policy (swap-chain surfaces) are deliberately
    /// skipped.
    pub fn request_resources(
        &mut self,
        resource: &VirtualResource,
        device: &Device,
        transient_resource_cache: &mut TransientResourceCache,
    )
        ensures
            match resource.state {
                ResourceState::Imported(state) => {
                    &&& final(transient_resource_cache)@ == old(transient_resource_cache)@
                    &&& final(self).spec_get(resource.info.handle@) == Some(
                        spec_imported_any(state.resource),
                    )
                    &&& forall|k: int|
                        k != resource.info.handle@ ==> final(self).spec_get(k) == old(
                            self,
                        ).spec_get(k)
                },
                ResourceState::Setup(desc) => match desc {
                    AnyFGResourceDescriptor::Texture(texture_desc) => {
                        &&& (if pool_has_desc(old(transient_resource_cache)@, texture_desc) {
                            exists|i: int|
                                {
                                    &&& 0 <= i < old(transient_resource_cache)@.len()
                                    &&& old(transient_resource_cache)@[i].spec_desc()
                                        == texture_desc
                                    &&& final(self).spec_get(resource.info.handle@) == Some(
                                        AnyFGResource::OwnedTexture(
                                            old(transient_resource_cache)@[i],
                                        ),
                                    )
                                    &&& final(transient_resource_cache)@ == old(
                                        transient_resource_cache,
                                    )@.remove(i)
                                }
                        } else {
                            &&& final(transient_resource_cache)@ == old(transient_resource_cache)@
                            &&& match final(self).spec_get(resource.info.handle@) {
                                Some(res) => res is OwnedTexture
                                    && res->OwnedTexture_0.spec_desc() == texture_desc,
                                None => false,
                            }
                        })
                        &&& forall|k: int|
                            k != resource.info.handle@ ==> final(self).spec_get(k) == old(
                                self,
                            ).spec_get(k)
                    },
                    AnyFGResourceDescriptor::SwapChain(_) => {
                        &&& final(self)@ == old(self)@
                        &&& final(transient_resource_cache)@ == old(transient_resource_cache)@
                    },
                },
            },
    {
        let materialized: AnyFGResource = match &resource.state {
            ResourceState::Imported(state) => match state.resource.clone() {
                ImportedResource::Texture(res) => AnyFGResource::ImportedTexture(res),
                ImportedResource::SwapChain(res) => AnyFGResource::ImportedSwapChain(res),
            },
            ResourceState::Setup(desc) => match desc {
                AnyFGResourceDescriptor::Texture(texture_desc) => {
                    match transient_resource_cache.get_image(texture_desc) {
                        Some(texture) => AnyFGResource::OwnedTexture(texture),
                        None => device.create(desc),
                    }
                },
                AnyFGResourceDescriptor::SwapChain(_) => {
                    return ;
                },
            },
        };
        let idx = resource.info.handle.index();
        self.ensure_slot(idx);
        self.slots.set(idx, Some(materialized));
    }

    /// Remove the resource stored for `handle`. An owned texture returns to
    /// the transient pool under its descriptor; imported resources are
    /// dropped without pooling.
    pub fn release_resource(
        &mut self,
        handle: &TypeHandle<VirtualResourceSlot>,
        transient_resource_cache: &mut TransientResourceCache,
    )
        ensures
            final(self).spec_get(handle@) is None,
            forall|k: int| k != handle@ ==> final(self).spec_get(k) == old(self).spec_get(k),
            match old(self).spec_get(handle@) {
                Some(res) => match res {
                    AnyFGResource::OwnedTexture(texture) => final(transient_resource_cache)@
                        == old(transient_resource_cache)@.push(texture),
                    _ => final(transient_resource_cache)@ == old(transient_resource_cache)@,
                },
                None => final(transient_resource_cache)@ == old(transient_resource_cache)@,
            },
    {
        let idx = handle.index();
        if idx < self.slots.len() {
            let mut taken: Option<AnyFGResource> = None;
            self.slots.set_and_swap(idx, &mut taken);
            match taken {
                Some(resource) => match resource {
                    AnyFGResource::OwnedTexture(texture) => {
                        let desc = *texture.get_desc();
                        transient_resource_cache.insert_image(desc, texture);
                    },
                    AnyFGResource::ImportedTexture(_) => {},
                    AnyFGResource::ImportedSwapChain(_) => {},
                },
                None => {},
            }
        }
    }
}

} // verus!
