use crate::color_attachment::ColorAttachment;
use crate::device::Device;
use crate::device_pass::DevicePass;
use crate::error::RendererError;
use crate::handle::{PassNodeSlot, ResourceNodeSlot, TypeHandle, VirtualResourceSlot};
use crate::pass::DynPass;
use crate::pass_node::PassNode;
use crate::pass_node_builder::PassNodeBuilder;
use crate::render_context::RenderContext;
use crate::resource::{
    FGResource, FGResourceDescriptor, ImportToFrameGraph, ImportedResourceState, ResourceInfo,
    ResourceState, TypeEquals, VirtualResource,
};
use crate::resource_board::{ResourceBoard, board_find};
use crate::resource_node::{ResourceNode, ResourceNodeHandle};
use crate::transient_resource_cache::TransientResourceCache;
use vstd::pervasive::VecAdditionalExecFns;
use vstd::prelude::*;

verus! {

/// Whether the virtual resource in slot `r` is referenced by one of the
/// first `tr` read declarations or the first `tw` write declarations.
pub open spec fn touches_prefix(
    reads: Seq<TypeHandle<ResourceNodeSlot>>,
    writes: Seq<TypeHandle<ResourceNodeSlot>>,
    tr: int,
    tw: int,
    nodes: Seq<ResourceNode>,
    r: int,
) -> bool {
    (exists|t: int|
        0 <= t < tr && t < reads.len() && 0 <= (#[trigger] reads[t])@ < nodes.len()
            && nodes[reads[t]@].resource_handle@ == r) || (exists|t: int|
        0 <= t < tw && t < writes.len() && 0 <= (#[trigger] writes[t])@ < nodes.len()
            && nodes[writes[t]@].resource_handle@ == r)
}

/// Whether the pass `p` reads or writes any version of the virtual resource
/// in slot `r`, judged against the resource-node array `nodes`.
pub open spec fn pass_touches(p: PassNode, nodes: Seq<ResourceNode>, r: int) -> bool {
    touches_prefix(
        p.reads@,
        p.writes@,
        p.reads@.len() as int,
        p.writes@.len() as int,
        nodes,
        r,
    )
}

/// Whether some element of `list` is a handle with index `r`.
pub open spec fn in_handle_list(list: Seq<TypeHandle<VirtualResourceSlot>>, r: int) -> bool {
    exists|t: int| 0 <= t < list.len() && (#[trigger] list[t])@ == r
}

/// Well-formedness of one pass node against the graph's array sizes: every
/// handle it stores indexes its array.
pub open spec fn pass_wf(p: PassNode, n_nodes: int, n_resources: int) -> bool {
    &&& forall|t: int| 0 <= t < p.reads@.len() ==> 0 <= (#[trigger] p.reads@[t])@ < n_nodes
    &&& forall|t: int| 0 <= t < p.writes@.len() ==> 0 <= (#[trigger] p.writes@[t])@ < n_nodes
    &&& forall|t: int|
        0 <= t < p.resource_request_array@.len() ==> 0 <= (
        #[trigger] p.resource_request_array@[t])@ < n_resources
    &&& forall|t: int|
        0 <= t < p.resource_release_array@.len() ==> 0 <= (
        #[trigger] p.resource_release_array@[t])@ < n_resources
}

/// Whether some position of `order` holds a handle with index `p`.
pub open spec fn in_order(order: Seq<TypeHandle<PassNodeSlot>>, p: int) -> bool {
    exists|i: int| 0 <= i < order.len() && (#[trigger] order[i])@ == p
}

/// A stable execution order of the pass nodes: pass handles sorted by insert
/// point alone, with ties left in declaration order. No dependency analysis
/// is performed.
pub open spec fn is_execution_order(
    passes: Seq<PassNode>,
    order: Seq<TypeHandle<PassNodeSlot>>,
) -> bool {
    &&& order.len() == passes.len()
    &&& forall|i: int| 0 <= i < order.len() ==> 0 <= (#[trigger] order[i])@ < passes.len()
    &&& forall|i: int, j: int|
        0 <= i < j < order.len() ==> passes[(#[trigger] order[i])@].insert_point <= passes[(
        #[trigger] order[j])@].insert_point
    &&& forall|i: int, j: int|
        0 <= i < j < order.len() && passes[(#[trigger] order[i])@].insert_point == passes[(
        #[trigger] order[j])@].insert_point ==> order[i]@ < order[j]@
    &&& forall|p: int| 0 <= p < passes.len() ==> #[trigger] in_order(order, p)
}

/// Whether some pass among the first `k` of `order` touches resource `r`.
pub open spec fn touched_in_order_prefix(
    passes: Seq<PassNode>,
    nodes: Seq<ResourceNode>,
    order: Seq<TypeHandle<PassNodeSlot>>,
    k: int,
    r: int,
) -> bool {
    exists|k2: int|
        0 <= k2 < k && k2 < order.len() && pass_touches(passes[(#[trigger] order[k2])@], nodes, r)
}

/// Whether `f` is the handle of the earliest pass among the first `k` of
/// `order` that touches resource `r`.
pub open spec fn is_first_toucher(
    passes: Seq<PassNode>,
    nodes: Seq<ResourceNode>,
    order: Seq<TypeHandle<PassNodeSlot>>,
    k: int,
    r: int,
    f: TypeHandle<PassNodeSlot>,
) -> bool {
    exists|k2: int|
        {
            &&& 0 <= k2 < k && k2 < order.len()
            &&& (#[trigger] order[k2])@ == f@
            &&& pass_touches(passes[f@], nodes, r)
            &&& forall|k3: int|
                0 <= k3 < k2 ==> !pass_touches(passes[(#[trigger] order[k3])@], nodes, r)
        }
}

/// Whether `l` is the handle of the latest pass among the first `k` of
/// `order` that touches resource `r`.
pub open spec fn is_last_toucher(
    passes: Seq<PassNode>,
    nodes: Seq<ResourceNode>,
    order: Seq<TypeHandle<PassNodeSlot>>,
    k: int,
    r: int,
    l: TypeHandle<PassNodeSlot>,
) -> bool {
    exists|k2: int|
        {
            &&& 0 <= k2 < k && k2 < order.len()
            &&& (#[trigger] order[k2])@ == l@
            &&& pass_touches(passes[l@], nodes, r)
            &&& forall|k3: int|
                k2 < k3 < k && k3 < order.len() ==> !pass_touches(
                    passes[(#[trigger] order[k3])@],
                    nodes,
                    r,
                )
        }
}

/// For every touched resource, `first_pass` and `last_pass` name the
/// earliest and latest pass, in compiled order, that touch it: least and
/// greatest insert point among its touchers, with ties resolved by
/// declaration order (the pass handle).
pub open spec fn lifetimes_are_extremal(
    passes: Seq<PassNode>,
    nodes: Seq<ResourceNode>,
    resources: Seq<VirtualResource>,
) -> bool {
    forall|r: int|
        #![trigger resources[r]]
        0 <= r < resources.len() ==> {
            let first = resources[r].info.first_pass_node_handle;
            let last = resources[r].info.last_pass_node_handle;
            &&& (first is Some <==> exists|p: int|
                0 <= p < passes.len() && pass_touches(#[trigger] passes[p], nodes, r))
            &&& (first is Some <==> last is Some)
            &&& (first matches Some(f) ==> {
                &&& 0 <= f@ < passes.len()
                &&& f == passes[f@].handle
                &&& pass_touches(passes[f@], nodes, r)
                &&& forall|p: int|
                    0 <= p < passes.len() && pass_touches(#[trigger] passes[p], nodes, r)
                        ==> (passes[f@].insert_point < passes[p].insert_point || (
                        passes[f@].insert_point == passes[p].insert_point && f@ <= p))
            })
            &&& (last matches Some(l) ==> {
                &&& 0 <= l@ < passes.len()
                &&& l == passes[l@].handle
                &&& pass_touches(passes[l@], nodes, r)
                &&& forall|p: int|
                    0 <= p < passes.len() && pass_touches(#[trigger] passes[p], nodes, r)
                        ==> (passes[l@].insert_point > passes[p].insert_point || (
                        passes[l@].insert_point == passes[p].insert_point && l@ >= p))
            })
        }
}

/// Soundness of the lifetime assignment: everything in a pass's request
/// array is a resource whose first user it is, and everything in its release
/// array a resource whose last user it is.
pub open spec fn arrays_sound(passes: Seq<PassNode>, resources: Seq<VirtualResource>) -> bool {
    &&& forall|p: int, t: int|
        0 <= p < passes.len() && 0 <= t < passes[p].resource_request_array@.len() ==> {
            let rr = (#[trigger] passes[p].resource_request_array@[t])@;
            &&& 0 <= rr < resources.len()
            &&& resources[rr].info.first_pass_node_handle == Some(passes[p].handle)
        }
    &&& forall|p: int, t: int|
        0 <= p < passes.len() && 0 <= t < passes[p].resource_release_array@.len() ==> {
            let rr = (#[trigger] passes[p].resource_release_array@[t])@;
            &&& 0 <= rr < resources.len()
            &&& resources[rr].info.last_pass_node_handle == Some(passes[p].handle)
        }
}

/// Exactly-once half of the lifetime assignment: no pass's request or
/// release array lists the same resource twice, so together with soundness
/// and completeness each touched resource is acquired by exactly one pass
/// and released by exactly one pass, once each.
pub open spec fn arrays_unique(passes: Seq<PassNode>) -> bool {
    &&& forall|p: int, t1: int, t2: int|
        0 <= p < passes.len() && 0 <= t1 < t2 < passes[p].resource_request_array@.len() ==> (
        #[trigger] passes[p].resource_request_array@[t1])@ != (
        #[trigger] passes[p].resource_request_array@[t2])@
    &&& forall|p: int, t1: int, t2: int|
        0 <= p < passes.len() && 0 <= t1 < t2 < passes[p].resource_release_array@.len() ==> (
        #[trigger] passes[p].resource_release_array@[t1])@ != (
        #[trigger] passes[p].resource_release_array@[t2])@
}

/// Completeness of the lifetime assignment: every touched resource stands in
/// the request array of its first user and the release array of its last
/// user.
pub open spec fn arrays_complete(passes: Seq<PassNode>, resources: Seq<VirtualResource>) -> bool {
    forall|r: int|
        #![trigger resources[r]]
        0 <= r < resources.len() ==> {
            &&& (resources[r].info.first_pass_node_handle matches Some(f) ==> (0 <= f@
                < passes.len() ==> in_handle_list(passes[f@].resource_request_array@, r)))
            &&& (resources[r].info.last_pass_node_handle matches Some(l) ==> (0 <= l@
                < passes.len() ==> in_handle_list(passes[l@].resource_release_array@, r)))
        }
}

/// Per-frame dependency graph of passes and virtual resources. It owns the
/// flat arrays every handle indexes; all cross-references are integer
/// handles, never pointers.
pub struct FrameGraph {
    pass_nodes: Vec<PassNode>,
    resources: Vec<VirtualResource>,
    resource_nodes: Vec<ResourceNode>,
    device_passes: Option<Vec<DevicePass>>,
    resource_board: ResourceBoard,
}

impl Default for FrameGraph {
    fn default() -> (r: Self)
        ensures
            r.spec_pass_nodes().len() == 0,
            r.spec_resources().len() == 0,
            r.spec_resource_nodes().len() == 0,
            r.spec_device_passes() is None,
            r.spec_board().len() == 0,
            r.wf(),
    {
        FrameGraph {
            pass_nodes: Vec::new(),
            resources: Vec::new(),
            resource_nodes: Vec::new(),
            device_passes: None,
            resource_board: ResourceBoard::new(),
        }
    }
}

impl FrameGraph {
    /// The declared pass nodes, in declaration order.
    pub closed spec fn spec_pass_nodes(&self) -> Seq<PassNode> {
        self.pass_nodes@
    }

    /// The virtual resources, in creation order.
    pub closed spec fn spec_resources(&self) -> Seq<VirtualResource> {
        self.resources@
    }

    /// The resource nodes, in creation order.
    pub closed spec fn spec_resource_nodes(&self) -> Seq<ResourceNode> {
        self.resource_nodes@
    }

    /// The compiled device passes, present only between compile and execute.
    pub closed spec fn spec_device_passes(&self) -> Option<Seq<DevicePass>> {
        match self.device_passes {
            Some(v) => Some(v@),
            None => None,
        }
    }

    /// The name registry filled by `import`.
    pub closed spec fn spec_board(&self) -> Seq<
        (String, crate::resource_node::RawResourceNodeHandle),
    > {
        self.resource_board@
    }

    /// Every stored handle indexes its array, and every slot records its own
    /// index as its handle.
    pub open spec fn wf(&self) -> bool {
        &&& forall|i: int|
            0 <= i < self.spec_resources().len() ==> (#[trigger] self.spec_resources()[i]).info.handle@
                == i
        &&& forall|i: int|
            0 <= i < self.spec_resource_nodes().len() ==> (#[trigger] self.spec_resource_nodes()[i]).handle@
                == i
        &&& forall|i: int|
            0 <= i < self.spec_resource_nodes().len() ==> 0 <= (
            #[trigger] self.spec_resource_nodes()[i]).resource_handle@
                < self.spec_resources().len()
        &&& forall|i: int|
            0 <= i < self.spec_pass_nodes().len() ==> (#[trigger] self.spec_pass_nodes()[i]).handle@
                == i
        &&& forall|i: int|
            0 <= i < self.spec_pass_nodes().len() ==> pass_wf(
                #[trigger] self.spec_pass_nodes()[i],
                self.spec_resource_nodes().len() as int,
                self.spec_resources().len() as int,
            )
    }

    /// Discard the frame's passes, resources, nodes, compiled device passes
    /// and board entries; imports must be re-declared next frame.
    pub fn reset(&mut self)
        ensures
            final(self).spec_pass_nodes().len() == 0,
            final(self).spec_resources().len() == 0,
            final(self).spec_resource_nodes().len() == 0,
            final(self).spec_device_passes() is None,
            final(self).spec_board().len() == 0,
            forall|n: Seq<char>| board_find(final(self).spec_board(), n) is None,
            final(self).wf(),
    {
        self.device_passes = None;
        self.resource_nodes = Vec::new();
        self.resources = Vec::new();
        self.pass_nodes = Vec::new();
        self.resource_board.clear();
    }

    /// Register a new virtual resource to be created from `desc`, and a
    /// resource node for its version 0.
    pub fn create<DescriptorType>(&mut self, name: &str, desc: DescriptorType) -> (r:
        ResourceNodeHandle<DescriptorType::Resource>) where
        DescriptorType: FGResourceDescriptor + TypeEquals<
            Other = <<DescriptorType as FGResourceDescriptor>::Resource as FGResource>::Descriptor,
        >,

        requires
            old(self).wf(),
        ensures
            final(self).wf(),
            final(self).spec_resources().len() == old(self).spec_resources().len() + 1,
            final(self).spec_resource_nodes().len() == old(self).spec_resource_nodes().len() + 1,
            final(self).spec_pass_nodes() == old(self).spec_pass_nodes(),
            final(self).spec_board() == old(self).spec_board(),
            final(self).spec_device_passes() == old(self).spec_device_passes(),
            forall|i: int|
                0 <= i < old(self).spec_resources().len() ==> final(self).spec_resources()[i]
                    == old(self).spec_resources()[i],
            forall|i: int|
                0 <= i < old(self).spec_resource_nodes().len() ==> final(self).spec_resource_nodes()[i] == old(self).spec_resource_nodes()[i],
            ({
                let v = final(self).spec_resources().last();
                &&& v.info.name@ == name@
                &&& v.info.handle@ == old(self).spec_resources().len()
                &&& v.info.spec_version() == 0
                &&& v.info.first_pass_node_handle is None
                &&& v.info.last_pass_node_handle is None
                &&& v.state == ResourceState::Setup(desc.spec_any())
            }),
            ({
                let node = final(self).spec_resource_nodes().last();
                &&& node.handle@ == old(self).spec_resource_nodes().len()
                &&& node.resource_handle@ == old(self).spec_resources().len()
                &&& node.version == 0
                &&& node.writer_handle is None
            }),
            r.spec_resource_node_handle()@ == old(self).spec_resource_nodes().len(),
            r.spec_resource_handle()@ == old(self).spec_resources().len(),
    {
        let any_desc = desc.to_any();
        let resource_handle: TypeHandle<VirtualResourceSlot> = TypeHandle::new(
            self.resources.len(),
        );
        let resource: VirtualResource = VirtualResource::setup(name, resource_handle, any_desc);
        let resource_info = resource.info.clone();
        self.resources.push(resource);
        let handle = self.create_resource_node(resource_info);
        ResourceNodeHandle::new(handle, resource_handle)
    }

    /// Register an externally owned resource, record it on the board under
    /// `name`, and create a resource node for its version 0.
    pub fn import<ResourceType>(
        &mut self,
        name: &str,
        resource: std::sync::Arc<ResourceType>,
        desc: ResourceType::Descriptor,
    ) -> (r: ResourceNodeHandle<ResourceType>) where
        ResourceType: ImportToFrameGraph,
        ResourceType::Descriptor: FGResourceDescriptor,

        requires
            old(self).wf(),
        ensures
            final(self).wf(),
            final(self).spec_resources().len() == old(self).spec_resources().len() + 1,
            final(self).spec_resource_nodes().len() == old(self).spec_resource_nodes().len() + 1,
            final(self).spec_pass_nodes() == old(self).spec_pass_nodes(),
            final(self).spec_device_passes() == old(self).spec_device_passes(),
            forall|i: int|
                0 <= i < old(self).spec_resources().len() ==> final(self).spec_resources()[i]
                    == old(self).spec_resources()[i],
            forall|i: int|
                0 <= i < old(self).spec_resource_nodes().len() ==> final(self).spec_resource_nodes()[i] == old(self).spec_resource_nodes()[i],
            ({
                let v = final(self).spec_resources().last();
                &&& v.info.name@ == name@
                &&& v.info.handle@ == old(self).spec_resources().len()
                &&& v.info.spec_version() == 0
                &&& v.info.first_pass_node_handle is None
                &&& v.info.last_pass_node_handle is None
                &&& v.state == ResourceState::Imported(
                    ImportedResourceState {
                        desc: desc.spec_any(),
                        resource: ResourceType::spec_import(resource),
                    },
                )
            }),
            ({
                let node = final(self).spec_resource_nodes().last();
                &&& node.handle@ == old(self).spec_resource_nodes().len()
                &&& node.resource_handle@ == old(self).spec_resources().len()
                &&& node.version == 0
                &&& node.writer_handle is None
            }),
            r.spec_resource_node_handle()@ == old(self).spec_resource_nodes().len(),
            r.spec_resource_handle()@ == old(self).spec_resources().len(),
            forall|n: Seq<char>|
                board_find(final(self).spec_board(), n) == if n == name@ {
                    Some(r.raw_spec())
                } else {
                    board_find(old(self).spec_board(), n)
                },
    {
        let any_desc = desc.to_any();
        let imported_resource = ImportToFrameGraph::import(resource);
        let resource_handle: TypeHandle<VirtualResourceSlot> = TypeHandle::new(
            self.resources.len(),
        );
        let resource: VirtualResource = VirtualResource::imported(
            name,
            resource_handle,
            imported_resource,
            any_desc,
        );
        let resource_info = resource.info.clone();
        self.resources.push(resource);
        let handle = self.create_resource_node(resource_info);
        let handle = ResourceNodeHandle::new(handle, resource_handle);
        self.resource_board.put(name, handle.raw());
        handle
    }

    /// Slot of the next resource node, as a handle.
    pub fn create_resource_node(&mut self, resource_info: ResourceInfo) -> (r: TypeHandle<
        ResourceNodeSlot,
    >)
        requires
            old(self).wf(),
            resource_info.handle@ < old(self).spec_resources().len(),
        ensures
            final(self).wf(),
            final(self).spec_resource_nodes().len() == old(self).spec_resource_nodes().len() + 1,
            forall|i: int|
                0 <= i < old(self).spec_resource_nodes().len() ==> final(self).spec_resource_nodes()[i] == old(self).spec_resource_nodes()[i],
            ({
                let node = final(self).spec_resource_nodes().last();
                &&& node.handle@ == old(self).spec_resource_nodes().len()
                &&& node.resource_handle == resource_info.handle
                &&& node.version == resource_info.spec_version()
                &&& node.writer_handle is None
            }),
            final(self).spec_resources() == old(self).spec_resources(),
            final(self).spec_pass_nodes() == old(self).spec_pass_nodes(),
            final(self).spec_board() == old(self).spec_board(),
            final(self).spec_device_passes() == old(self).spec_device_passes(),
            r@ == old(self).spec_resource_nodes().len(),
    {
        let resource_handle = resource_info.handle;
        let version = resource_info.version();
        let handle: TypeHandle<ResourceNodeSlot> = TypeHandle::new(self.resource_nodes.len());
        self.resource_nodes.push(ResourceNode::new(handle, resource_handle, version));
        proof {
            let nodes = self.spec_resource_nodes();
            let prev = old(self).spec_resource_nodes();
            assert forall|i: int| 0 <= i < nodes.len() implies (#[trigger] nodes[i]).handle@
                == i && 0 <= nodes[i].resource_handle@ < self.spec_resources().len() by {
                if i < prev.len() {
                    assert(nodes[i] == prev[i]);
                } else {
                    assert(nodes[i] == nodes.last());
                }
            }
        }
        handle
    }

    /// Handle of the pass node a builder created now would occupy.
    pub fn get_current_pass_node_handle(&self) -> (r: TypeHandle<PassNodeSlot>)
        ensures
            r@ == self.spec_pass_nodes().len(),
    {
        TypeHandle::new(self.pass_nodes.len())
    }

    /// Append a finished pass node; its handle must be the slot it lands in.
    pub fn add_pass_node(&mut self, pass_node: PassNode)
        requires
            old(self).wf(),
            pass_node.handle@ == old(self).spec_pass_nodes().len(),
            pass_wf(
                pass_node,
                old(self).spec_resource_nodes().len() as int,
                old(self).spec_resources().len() as int,
            ),
        ensures
            final(self).wf(),
            final(self).spec_pass_nodes() == old(self).spec_pass_nodes().push(pass_node),
            final(self).spec_resources() == old(self).spec_resources(),
            final(self).spec_resource_nodes() == old(self).spec_resource_nodes(),
            final(self).spec_board() == old(self).spec_board(),
            final(self).spec_device_passes() == old(self).spec_device_passes(),
    {
        self.pass_nodes.push(pass_node);
    }

    /// Begin building a pass node in the next pass slot.
    pub fn create_pass_node_builder(&self, insert_point: usize, name: &str) -> (r: PassNodeBuilder)
        ensures
            r.spec_pass_node().handle@ == self.spec_pass_nodes().len(),
            r.spec_pass_node().name@ == name@,
            r.spec_pass_node().insert_point == insert_point,
            r.spec_pass_node().reads@.len() == 0,
            r.spec_pass_node().writes@.len() == 0,
            r.spec_pass_node().resource_request_array@.len() == 0,
            r.spec_pass_node().resource_release_array@.len() == 0,
            r.spec_pass_node().pass is None,
            r.spec_pass_node().color_attachments@.len() == 0,
    {
        PassNodeBuilder::new(insert_point, name, self)
    }

    pub fn get_pass_node(&self, handle: &TypeHandle<PassNodeSlot>) -> (r: &PassNode)
        requires
            handle@ < self.spec_pass_nodes().len(),
        ensures
            *r == self.spec_pass_nodes()[handle@],
    {
        &self.pass_nodes[handle.index()]
    }

    pub fn get_resource_node(&self, handle: &TypeHandle<ResourceNodeSlot>) -> (r: &ResourceNode)
        requires
            handle@ < self.spec_resource_nodes().len(),
        ensures
            *r == self.spec_resource_nodes()[handle@],
    {
        &self.resource_nodes[handle.index()]
    }

    pub fn get_resource(&self, handle: &TypeHandle<VirtualResourceSlot>) -> (r: &VirtualResource)
        requires
            handle@ < self.spec_resources().len(),
        ensures
            *r == self.spec_resources()[handle@],
    {
        &self.resources[handle.index()]
    }

    pub fn get_resource_board(&self) -> (r: &ResourceBoard)
        ensures
            r@ == self.spec_board(),
    {
        &self.resource_board
    }

    /// Compute the execution order: a stable sort of the pass handles on
    /// insert point alone, ties in declaration order.
    fn sort(&self) -> (order: Vec<TypeHandle<PassNodeSlot>>)
        requires
            self.wf(),
        ensures
            is_execution_order(self.spec_pass_nodes(), order@),
    {
        let ghost passes = self.spec_pass_nodes();
        let mut order: Vec<TypeHandle<PassNodeSlot>> = Vec::new();
        let mut p: usize = 0;
        while p < self.pass_nodes.len()
            invariant
                self.wf(),
                passes == self.spec_pass_nodes(),
                0 <= p <= passes.len(),
                order@.len() == p,
                forall|i: int| 0 <= i < order@.len() ==> 0 <= (#[trigger] order@[i])@ < p,
                forall|i: int, j: int|
                    0 <= i < j < order@.len() ==> passes[(#[trigger] order@[i])@].insert_point
                        <= passes[(#[trigger] order@[j])@].insert_point,
                forall|i: int, j: int|
                    0 <= i < j < order@.len() && passes[(#[trigger] order@[i])@].insert_point
                        == passes[(#[trigger] order@[j])@].insert_point ==> order@[i]@ < order@[j]@,
                forall|q: int| 0 <= q < p ==> #[trigger] in_order(order@, q),
            decreases passes.len() - p,
        {
            let key = self.pass_nodes[p].insert_point;
            let mut pos: usize = 0;
            while pos < order.len() && self.pass_nodes[order[pos].index()].insert_point <= key
                invariant
                    self.wf(),
                    passes == self.spec_pass_nodes(),
                    0 <= pos <= order@.len(),
                    key == passes[p as int].insert_point,
                    p < passes.len(),
                    forall|i: int| 0 <= i < order@.len() ==> 0 <= (#[trigger] order@[i])@ < p,
                    forall|t: int|
                        0 <= t < pos ==> passes[(#[trigger] order@[t])@].insert_point <= key,
                decreases order@.len() - pos,
            {
                pos = pos + 1;
            }
            let ghost before = order@;
            let handle: TypeHandle<PassNodeSlot> = TypeHandle::new(p);
            order.insert(pos, handle);
            proof {
                let now = order@;
                assert forall|q: int| 0 <= q < p + 1 implies #[trigger] in_order(now, q) by {
                    if q == p {
                        assert(now[pos as int]@ == q);
                    } else {
                        assert(in_order(before, q));
                        let i = choose|i: int|
                            0 <= i < before.len() && (#[trigger] before[i])@ == q;
                        if i < pos {
                            assert(now[i] == before[i]);
                            assert(now[i]@ == q);
                        } else {
                            assert(now[i + 1] == before[i]);
                            assert(now[i + 1]@ == q);
                        }
                    }
                }
                assert forall|i: int, j: int| 0 <= i < j < now.len() implies passes[(
                #[trigger] now[i])@].insert_point <= passes[(#[trigger] now[j])@].insert_point by {
                    if j < pos {
                    } else if i > pos {
                    } else if i == pos && j > pos {
                        assert(now[j] == before[j - 1]);
                        if pos < before.len() {
                            assert(passes[before[pos as int]@].insert_point > key);
                        }
                    } else if j == pos && i < pos {
                        assert(now[i] == before[i]);
                    } else if i < pos && j > pos {
                        assert(now[i] == before[i]);
                        assert(now[j] == before[j - 1]);
                    }
                }
                assert forall|i: int, j: int|
                    0 <= i < j < now.len() && passes[(#[trigger] now[i])@].insert_point == passes[(
                    #[trigger] now[j])@].insert_point implies now[i]@ < now[j]@ by {
                    if i == pos && j > pos {
                        assert(now[j] == before[j - 1]);
                        assert(passes[before[j - 1]@].insert_point > key);
                    } else if j == pos && i < pos {
                        assert(now[i] == before[i]);
                        assert(now[i]@ < p);
                    } else if i < pos && j > pos {
                        assert(now[i] == before[i]);
                        assert(now[j] == before[j - 1]);
                    }
                }
            }
            p = p + 1;
        }
        order
    }

    /// Bump the version counter of the resource in `handle`'s slot; used by
    /// `write` to open a new version.
    pub(crate) fn bump_resource_version(&mut self, handle: &TypeHandle<VirtualResourceSlot>)
        requires
            old(self).wf(),
            handle@ < old(self).spec_resources().len(),
            old(self).spec_resources()[handle@].info.spec_version() < u32::MAX,
        ensures
            final(self).wf(),
            final(self).spec_resources().len() == old(self).spec_resources().len(),
            forall|i: int|
                0 <= i < old(self).spec_resources().len() && i != handle@ ==> final(self).spec_resources()[i] == old(self).spec_resources()[i],
            ({
                let v = final(self).spec_resources()[handle@];
                let w = old(self).spec_resources()[handle@];
                &&& v.info.spec_version() == w.info.spec_version() + 1
                &&& v.info.name == w.info.name
                &&& v.info.handle == w.info.handle
                &&& v.info.first_pass_node_handle == w.info.first_pass_node_handle
                &&& v.info.last_pass_node_handle == w.info.last_pass_node_handle
                &&& v.state == w.state
            }),
            final(self).spec_resource_nodes() == old(self).spec_resource_nodes(),
            final(self).spec_pass_nodes() == old(self).spec_pass_nodes(),
            final(self).spec_board() == old(self).spec_board(),
            final(self).spec_device_passes() == old(self).spec_device_passes(),
    {
        let idx = handle.index();
        let current = &self.resources[idx];
        let mut info = current.info.clone();
        info.new_version();
        let updated = VirtualResource { state: current.state.clone(), info };
        self.resources.set(idx, updated);
        proof {
            let res = self.spec_resources();
            let prev = old(self).spec_resources();
            assert forall|i: int| 0 <= i < res.len() implies (#[trigger] res[i]).info.handle@
                == i by {
                if i != idx {
                    assert(res[i] == prev[i]);
                }
            }
        }
    }

    /// Record `pass_handle` as the writer of the resource node in
    /// `node_handle`'s slot.
    pub(crate) fn set_node_writer(
        &mut self,
        node_handle: &TypeHandle<ResourceNodeSlot>,
        pass_handle: TypeHandle<PassNodeSlot>,
    )
        requires
            old(self).wf(),
            node_handle@ < old(self).spec_resource_nodes().len(),
        ensures
            final(self).wf(),
            final(self).spec_resource_nodes().len() == old(self).spec_resource_nodes().len(),
            forall|i: int|
                0 <= i < old(self).spec_resource_nodes().len() && i != node_handle@ ==> final(self).spec_resource_nodes()[i] == old(self).spec_resource_nodes()[i],
            ({
                let node = final(self).spec_resource_nodes()[node_handle@];
                let was = old(self).spec_resource_nodes()[node_handle@];
                &&& node.handle == was.handle
                &&& node.resource_handle == was.resource_handle
                &&& node.version == was.version
                &&& node.writer_handle == Some(pass_handle)
            }),
            final(self).spec_resources() == old(self).spec_resources(),
            final(self).spec_pass_nodes() == old(self).spec_pass_nodes(),
            final(self).spec_board() == old(self).spec_board(),
            final(self).spec_device_passes() == old(self).spec_device_passes(),
    {
        let idx = node_handle.index();
        let mut node = self.resource_nodes[idx];
        node.writer_handle = Some(pass_handle);
        self.resource_nodes.set(idx, node);
        proof {
            let nodes = self.spec_resource_nodes();
            let prev = old(self).spec_resource_nodes();
            assert forall|i: int| 0 <= i < nodes.len() implies (#[trigger] nodes[i]).handle@
                == i && 0 <= nodes[i].resource_handle@ < self.spec_resources().len() by {
                if i != idx {
                    assert(nodes[i] == prev[i]);
                }
            }
        }
    }

    /// Record that pass `pass_handle` uses the resource in `handle`'s slot:
    /// the first recorder becomes the first user, the latest so far the last.
    fn update_resource_lifetime(
        &mut self,
        handle: &TypeHandle<VirtualResourceSlot>,
        pass_handle: TypeHandle<PassNodeSlot>,
    )
        requires
            old(self).wf(),
            handle@ < old(self).spec_resources().len(),
        ensures
            final(self).wf(),
            final(self).spec_resources().len() == old(self).spec_resources().len(),
            forall|i: int|
                0 <= i < old(self).spec_resources().len() && i != handle@ ==> final(self).spec_resources()[i] == old(self).spec_resources()[i],
            ({
                let v = final(self).spec_resources()[handle@];
                let w = old(self).spec_resources()[handle@];
                &&& v.info.first_pass_node_handle == if w.info.first_pass_node_handle is None {
                    Some(pass_handle)
                } else {
                    w.info.first_pass_node_handle
                }
                &&& v.info.last_pass_node_handle == Some(pass_handle)
                &&& v.info.name == w.info.name
                &&& v.info.handle == w.info.handle
                &&& v.info.spec_version() == w.info.spec_version()
                &&& v.state == w.state
            }),
            final(self).spec_resource_nodes() == old(self).spec_resource_nodes(),
            final(self).spec_pass_nodes() == old(self).spec_pass_nodes(),
            final(self).spec_board() == old(self).spec_board(),
            final(self).spec_device_passes() == old(self).spec_device_passes(),
    {
        let idx = handle.index();
        let current = &self.resources[idx];
        let mut info = current.info.clone();
        info.update_lifetime(pass_handle);
        let updated = VirtualResource { state: current.state.clone(), info };
        self.resources.set(idx, updated);
        proof {
            let res = self.spec_resources();
            let prev = old(self).spec_resources();
            assert forall|i: int| 0 <= i < res.len() implies (#[trigger] res[i]).info.handle@
                == i by {
                if i != idx {
                    assert(res[i] == prev[i]);
                }
            }
        }
    }

    /// Record pass `ph` as a user of every resource its reads and writes
    /// reference.
    fn update_pass_lifetimes(&mut self, ph: TypeHandle<PassNodeSlot>)
        requires
            old(self).wf(),
            ph@ < old(self).spec_pass_nodes().len(),
        ensures
            final(self).wf(),
            final(self).spec_resources().len() == old(self).spec_resources().len(),
            forall|r: int|
                #![trigger final(self).spec_resources()[r]]
                0 <= r < old(self).spec_resources().len() ==> {
                    let v = final(self).spec_resources()[r];
                    let w = old(self).spec_resources()[r];
                    let p = old(self).spec_pass_nodes()[ph@];
                    &&& v.info.name == w.info.name
                    &&& v.info.handle == w.info.handle
                    &&& v.info.spec_version() == w.info.spec_version()
                    &&& v.state == w.state
                    &&& v.info.first_pass_node_handle == if pass_touches(
                        p,
                        old(self).spec_resource_nodes(),
                        r,
                    ) {
                        if w.info.first_pass_node_handle is None {
                            Some(p.handle)
                        } else {
                            w.info.first_pass_node_handle
                        }
                    } else {
                        w.info.first_pass_node_handle
                    }
                    &&& v.info.last_pass_node_handle == if pass_touches(
                        p,
                        old(self).spec_resource_nodes(),
                        r,
                    ) {
                        Some(p.handle)
                    } else {
                        w.info.last_pass_node_handle
                    }
                },
            final(self).spec_resource_nodes() == old(self).spec_resource_nodes(),
            final(self).spec_pass_nodes() == old(self).spec_pass_nodes(),
            final(self).spec_board() == old(self).spec_board(),
            final(self).spec_device_passes() == old(self).spec_device_passes(),
    {
        let ghost g0 = *old(self);
        let ghost p = old(self).spec_pass_nodes()[ph@];
        let ghost nodes = old(self).spec_resource_nodes();
        let pass_handle = self.get_pass_node(&ph).handle;
        proof {
            assert(pass_handle == p.handle);
        }
        let n_reads = self.get_pass_node(&ph).reads.len();
        let mut t: usize = 0;
        while t < n_reads
            invariant
                self.wf(),
                ph@ < self.spec_pass_nodes().len(),
                self.spec_pass_nodes() == g0.spec_pass_nodes(),
                self.spec_resource_nodes() == g0.spec_resource_nodes(),
                self.spec_board() == g0.spec_board(),
                self.spec_device_passes() == g0.spec_device_passes(),
                self.spec_resources().len() == g0.spec_resources().len(),
                p == g0.spec_pass_nodes()[ph@],
                nodes == g0.spec_resource_nodes(),
                pass_handle == p.handle,
                n_reads == p.reads@.len(),
                0 <= t <= n_reads,
                forall|r: int|
                    #![trigger self.spec_resources()[r]]
                    0 <= r < g0.spec_resources().len() ==> {
                        let v = self.spec_resources()[r];
                        let w = g0.spec_resources()[r];
                        &&& v.info.name == w.info.name
                        &&& v.info.handle == w.info.handle
                        &&& v.info.spec_version() == w.info.spec_version()
                        &&& v.state == w.state
                        &&& v.info.first_pass_node_handle == if touches_prefix(
                            p.reads@,
                            p.writes@,
                            t as int,
                            0,
                            nodes,
                            r,
                        ) {
                            if w.info.first_pass_node_handle is None {
                                Some(p.handle)
                            } else {
                                w.info.first_pass_node_handle
                            }
                        } else {
                            w.info.first_pass_node_handle
                        }
                        &&& v.info.last_pass_node_handle == if touches_prefix(
                            p.reads@,
                            p.writes@,
                            t as int,
                            0,
                            nodes,
                            r,
                        ) {
                            Some(p.handle)
                        } else {
                            w.info.last_pass_node_handle
                        }
                    },
            decreases n_reads - t,
        {
            let node_handle = self.get_pass_node(&ph).reads[t];
            let rh = self.get_resource_node(&node_handle).resource_handle();
            self.update_resource_lifetime(&rh, pass_handle);
            proof {
                assert(nodes[node_handle@].resource_handle@ == rh@);
                assert(touches_prefix(p.reads@, p.writes@, t + 1, 0, nodes, rh@));
            }
            t = t + 1;
        }
        let n_writes = self.get_pass_node(&ph).writes.len();
        let mut u: usize = 0;
        while u < n_writes
            invariant
                self.wf(),
                ph@ < self.spec_pass_nodes().len(),
                self.spec_pass_nodes() == g0.spec_pass_nodes(),
                self.spec_resource_nodes() == g0.spec_resource_nodes(),
                self.spec_board() == g0.spec_board(),
                self.spec_device_passes() == g0.spec_device_passes(),
                self.spec_resources().len() == g0.spec_resources().len(),
                p == g0.spec_pass_nodes()[ph@],
                nodes == g0.spec_resource_nodes(),
                pass_handle == p.handle,
                n_writes == p.writes@.len(),
                0 <= u <= n_writes,
                forall|r: int|
                    #![trigger self.spec_resources()[r]]
                    0 <= r < g0.spec_resources().len() ==> {
                        let v = self.spec_resources()[r];
                        let w = g0.spec_resources()[r];
                        &&& v.info.name == w.info.name
                        &&& v.info.handle == w.info.handle
                        &&& v.info.spec_version() == w.info.spec_version()
                        &&& v.state == w.state
                        &&& v.info.first_pass_node_handle == if touches_prefix(
                            p.reads@,
                            p.writes@,
                            p.reads@.len() as int,
                            u as int,
                            nodes,
                            r,
                        ) {
                            if w.info.first_pass_node_handle is None {
                                Some(p.handle)
                            } else {
                                w.info.first_pass_node_handle
                            }
                        } else {
                            w.info.first_pass_node_handle
                        }
                        &&& v.info.last_pass_node_handle == if touches_prefix(
                            p.reads@,
                            p.writes@,
                            p.reads@.len() as int,
                            u as int,
                            nodes,
                            r,
                        ) {
                            Some(p.handle)
                        } else {
                            w.info.last_pass_node_handle
                        }
                    },
            decreases n_writes - u,
        {
            let node_handle = self.get_pass_node(&ph).writes[u];
            let rh = self.get_resource_node(&node_handle).resource_handle();
            self.update_resource_lifetime(&rh, pass_handle);
            proof {
                assert(nodes[node_handle@].resource_handle@ == rh@);
                assert(touches_prefix(
                    p.reads@,
                    p.writes@,
                    p.reads@.len() as int,
                    u + 1,
                    nodes,
                    rh@,
                ));
            }
            u = u + 1;
        }
    }

    /// Append `rh` to the request array of pass `p`.
    fn push_request(&mut self, p: usize, rh: TypeHandle<VirtualResourceSlot>)
        requires
            old(self).wf(),
            p < old(self).spec_pass_nodes().len(),
            rh@ < old(self).spec_resources().len(),
        ensures
            final(self).wf(),
            final(self).spec_pass_nodes().len() == old(self).spec_pass_nodes().len(),
            forall|i: int|
                0 <= i < old(self).spec_pass_nodes().len() && i != p ==> final(self).spec_pass_nodes()[i] == old(self).spec_pass_nodes()[i],
            ({
                let a = final(self).spec_pass_nodes()[p as int];
                let b = old(self).spec_pass_nodes()[p as int];
                &&& a.resource_request_array@ == b.resource_request_array@.push(rh)
                &&& a.name == b.name
                &&& a.handle == b.handle
                &&& a.writes == b.writes
                &&& a.reads == b.reads
                &&& a.insert_point == b.insert_point
                &&& a.resource_release_array == b.resource_release_array
                &&& a.pass == b.pass
                &&& a.color_attachments == b.color_attachments
            }),
            final(self).spec_resources() == old(self).spec_resources(),
            final(self).spec_resource_nodes() == old(self).spec_resource_nodes(),
            final(self).spec_board() == old(self).spec_board(),
            final(self).spec_device_passes() == old(self).spec_device_passes(),
    {
        let mut taken = PassNode::new(0, "", TypeHandle::new(0));
        self.pass_nodes.set_and_swap(p, &mut taken);
        taken.resource_request_array.push(rh);
        self.pass_nodes.set_and_swap(p, &mut taken);
        proof {
            let passes = self.spec_pass_nodes();
            let prev = old(self).spec_pass_nodes();
            assert forall|i: int| 0 <= i < passes.len() implies (#[trigger] passes[i]).handle@
                == i && pass_wf(
                passes[i],
                self.spec_resource_nodes().len() as int,
                self.spec_resources().len() as int,
            ) by {
                if i != p {
                    assert(passes[i] == prev[i]);
                }
            }
        }
    }

    /// Append `rh` to the release array of pass `p`.
    fn push_release(&mut self, p: usize, rh: TypeHandle<VirtualResourceSlot>)
        requires
            old(self).wf(),
            p < old(self).spec_pass_nodes().len(),
            rh@ < old(self).spec_resources().len(),
        ensures
            final(self).wf(),
            final(self).spec_pass_nodes().len() == old(self).spec_pass_nodes().len(),
            forall|i: int|
                0 <= i < old(self).spec_pass_nodes().len() && i != p ==> final(self).spec_pass_nodes()[i] == old(self).spec_pass_nodes()[i],
            ({
                let a = final(self).spec_pass_nodes()[p as int];
                let b = old(self).spec_pass_nodes()[p as int];
                &&& a.resource_release_array@ == b.resource_release_array@.push(rh)
                &&& a.name == b.name
                &&& a.handle == b.handle
                &&& a.writes == b.writes
                &&& a.reads == b.reads
                &&& a.insert_point == b.insert_point
                &&& a.resource_request_array == b.resource_request_array
                &&& a.pass == b.pass
                &&& a.color_attachments == b.color_attachments
            }),
            final(self).spec_resources() == old(self).spec_resources(),
            final(self).spec_resource_nodes() == old(self).spec_resource_nodes(),
            final(self).spec_board() == old(self).spec_board(),
            final(self).spec_device_passes() == old(self).spec_device_passes(),
    {
        let mut taken = PassNode::new(0, "", TypeHandle::new(0));
        self.pass_nodes.set_and_swap(p, &mut taken);
        taken.resource_release_array.push(rh);
        self.pass_nodes.set_and_swap(p, &mut taken);
        proof {
            let passes = self.spec_pass_nodes();
            let prev = old(self).spec_pass_nodes();
            assert forall|i: int| 0 <= i < passes.len() implies (#[trigger] passes[i]).handle@
                == i && pass_wf(
                passes[i],
                self.spec_resource_nodes().len() as int,
                self.spec_resources().len() as int,
            ) by {
                if i != p {
                    assert(passes[i] == prev[i]);
                }
            }
        }
    }

    /// Walk the passes in execution order and record, for every touched
    /// resource, its earliest and latest user; then hand each touched
    /// resource to its first user's request array and its last user's
    /// release array.
    pub fn compute_resource_lifetime(&mut self, order: &Vec<TypeHandle<PassNodeSlot>>)
        requires
            old(self).wf(),
            is_execution_order(old(self).spec_pass_nodes(), order@),
            forall|r: int|
                #![trigger old(self).spec_resources()[r]]
                0 <= r < old(self).spec_resources().len() ==> old(
                    self,
                ).spec_resources()[r].info.first_pass_node_handle is None && old(
                    self,
                ).spec_resources()[r].info.last_pass_node_handle is None,
            forall|p: int|
                #![trigger old(self).spec_pass_nodes()[p]]
                0 <= p < old(self).spec_pass_nodes().len() ==> old(
                    self,
                ).spec_pass_nodes()[p].resource_request_array@.len() == 0 && old(
                    self,
                ).spec_pass_nodes()[p].resource_release_array@.len() == 0,
        ensures
            final(self).wf(),
            final(self).spec_resource_nodes() == old(self).spec_resource_nodes(),
            final(self).spec_board() == old(self).spec_board(),
            final(self).spec_device_passes() == old(self).spec_device_passes(),
            final(self).spec_resources().len() == old(self).spec_resources().len(),
            forall|r: int|
                #![trigger final(self).spec_resources()[r]]
                0 <= r < old(self).spec_resources().len() ==> {
                    let v = final(self).spec_resources()[r];
                    let w = old(self).spec_resources()[r];
                    &&& v.info.name == w.info.name
                    &&& v.info.handle == w.info.handle
                    &&& v.info.spec_version() == w.info.spec_version()
                    &&& v.state == w.state
                },
            final(self).spec_pass_nodes().len() == old(self).spec_pass_nodes().len(),
            forall|p: int|
                #![trigger final(self).spec_pass_nodes()[p]]
                0 <= p < old(self).spec_pass_nodes().len() ==> {
                    let a = final(self).spec_pass_nodes()[p];
                    let b = old(self).spec_pass_nodes()[p];
                    &&& a.name == b.name
                    &&& a.handle == b.handle
                    &&& a.writes == b.writes
                    &&& a.reads == b.reads
                    &&& a.insert_point == b.insert_point
                    &&& a.pass == b.pass
                    &&& a.color_attachments == b.color_attachments
                },
            lifetimes_are_extremal(
                final(self).spec_pass_nodes(),
                old(self).spec_resource_nodes(),
                final(self).spec_resources(),
            ),
            arrays_sound(final(self).spec_pass_nodes(), final(self).spec_resources()),
            arrays_complete(final(self).spec_pass_nodes(), final(self).spec_resources()),
            arrays_unique(final(self).spec_pass_nodes()),
    {
        let ghost g0 = *old(self);
        let ghost passes = g0.spec_pass_nodes();
        let ghost nodes = g0.spec_resource_nodes();
        let mut k: usize = 0;
        while k < order.len()
            invariant
                self.wf(),
                passes == g0.spec_pass_nodes(),
                nodes == g0.spec_resource_nodes(),
                is_execution_order(passes, order@),
                self.spec_pass_nodes() == passes,
                self.spec_resource_nodes() == nodes,
                self.spec_board() == g0.spec_board(),
                self.spec_device_passes() == g0.spec_device_passes(),
                self.spec_resources().len() == g0.spec_resources().len(),
                forall|r: int|
                    #![trigger g0.spec_resources()[r]]
                    0 <= r < g0.spec_resources().len() ==> g0.spec_resources()[r].info.first_pass_node_handle is None
                        && g0.spec_resources()[r].info.last_pass_node_handle is None,
                0 <= k <= order@.len(),
                forall|r: int|
                    #![trigger self.spec_resources()[r]]
                    0 <= r < g0.spec_resources().len() ==> {
                        let v = self.spec_resources()[r];
                        let w = g0.spec_resources()[r];
                        &&& v.info.name == w.info.name
                        &&& v.info.handle == w.info.handle
                        &&& v.info.spec_version() == w.info.spec_version()
                        &&& v.state == w.state
                        &&& (v.info.first_pass_node_handle is Some <==> touched_in_order_prefix(
                            passes,
                            nodes,
                            order@,
                            k as int,
                            r,
                        ))
                        &&& (v.info.last_pass_node_handle is Some <==> touched_in_order_prefix(
                            passes,
                            nodes,
                            order@,
                            k as int,
                            r,
                        ))
                        &&& (v.info.first_pass_node_handle matches Some(f) ==> (0 <= f@
                            < passes.len() && f == passes[f@].handle && is_first_toucher(
                            passes,
                            nodes,
                            order@,
                            k as int,
                            r,
                            f,
                        )))
                        &&& (v.info.last_pass_node_handle matches Some(l) ==> (0 <= l@
                            < passes.len() && l == passes[l@].handle && is_last_toucher(
                            passes,
                            nodes,
                            order@,
                            k as int,
                            r,
                            l,
                        )))
                    },
            decreases order@.len() - k,
        {
            let ghost before = self.spec_resources();
            let ph = order[k];
            self.update_pass_lifetimes(ph);
            proof {
                let p = passes[ph@];
                let now = self.spec_resources();
                assert forall|r: int|
                    #![trigger now[r]]
                    0 <= r < g0.spec_resources().len() implies {
                    let v = now[r];
                    let w = g0.spec_resources()[r];
                    &&& v.info.name == w.info.name
                    &&& v.info.handle == w.info.handle
                    &&& v.info.spec_version() == w.info.spec_version()
                    &&& v.state == w.state
                    &&& (v.info.first_pass_node_handle is Some <==> touched_in_order_prefix(
                        passes,
                        nodes,
                        order@,
                        k + 1,
                        r,
                    ))
                    &&& (v.info.last_pass_node_handle is Some <==> touched_in_order_prefix(
                        passes,
                        nodes,
                        order@,
                        k + 1,
                        r,
                    ))
                    &&& (v.info.first_pass_node_handle matches Some(f) ==> (0 <= f@ < passes.len()
                        && f == passes[f@].handle && is_first_toucher(
                        passes,
                        nodes,
                        order@,
                        k + 1,
                        r,
                        f,
                    )))
                    &&& (v.info.last_pass_node_handle matches Some(l) ==> (0 <= l@ < passes.len()
                        && l == passes[l@].handle && is_last_toucher(
                        passes,
                        nodes,
                        order@,
                        k + 1,
                        r,
                        l,
                    )))
                } by {
                    let v = now[r];
                    let b = before[r];
                    let w = g0.spec_resources()[r];
                    if pass_touches(p, nodes, r) {
                        assert(touched_in_order_prefix(passes, nodes, order@, k + 1, r)) by {
                            assert(pass_touches(passes[(order@[k as int])@], nodes, r));
                        }
                        assert(v.info.last_pass_node_handle == Some(p.handle));
                        assert(is_last_toucher(passes, nodes, order@, k + 1, r, p.handle)) by {
                            assert(order@[k as int]@ == p.handle@);
                        }
                        if b.info.first_pass_node_handle is None {
                            assert(v.info.first_pass_node_handle == Some(p.handle));
                            assert(!touched_in_order_prefix(passes, nodes, order@, k as int, r));
                            assert(is_first_toucher(passes, nodes, order@, k + 1, r, p.handle))
                                by {
                                assert(order@[k as int]@ == p.handle@);
                                assert forall|k3: int| 0 <= k3 < k implies !pass_touches(
                                    passes[(#[trigger] order@[k3])@],
                                    nodes,
                                    r,
                                ) by {
                                    if pass_touches(passes[(order@[k3])@], nodes, r) {
                                        assert(touched_in_order_prefix(
                                            passes,
                                            nodes,
                                            order@,
                                            k as int,
                                            r,
                                        ));
                                    }
                                }
                            }
                        } else {
                            let f = b.info.first_pass_node_handle->Some_0;
                            assert(is_first_toucher(passes, nodes, order@, k as int, r, f));
                            let k2 = choose|k2: int|
                                {
                                    &&& 0 <= k2 < k as int && k2 < order@.len()
                                    &&& (#[trigger] order@[k2])@ == f@
                                    &&& pass_touches(passes[f@], nodes, r)
                                    &&& forall|k3: int|
                                        0 <= k3 < k2 ==> !pass_touches(
                                            passes[(#[trigger] order@[k3])@],
                                            nodes,
                                            r,
                                        )
                                };
                            assert(is_first_toucher(passes, nodes, order@, k + 1, r, f)) by {
                                assert(order@[k2]@ == f@);
                            }
                        }
                    } else {
                        assert(v == b);
                        if b.info.first_pass_node_handle is Some {
                            let f = b.info.first_pass_node_handle->Some_0;
                            assert(is_first_toucher(passes, nodes, order@, k as int, r, f));
                            let k2 = choose|k2: int|
                                {
                                    &&& 0 <= k2 < k as int && k2 < order@.len()
                                    &&& (#[trigger] order@[k2])@ == f@
                                    &&& pass_touches(passes[f@], nodes, r)
                                    &&& forall|k3: int|
                                        0 <= k3 < k2 ==> !pass_touches(
                                            passes[(#[trigger] order@[k3])@],
                                            nodes,
                                            r,
                                        )
                                };
                            assert(is_first_toucher(passes, nodes, order@, k + 1, r, f)) by {
                                assert(order@[k2]@ == f@);
                            }
                        }
                        if b.info.last_pass_node_handle is Some {
                            let l = b.info.last_pass_node_handle->Some_0;
                            assert(is_last_toucher(passes, nodes, order@, k as int, r, l));
                            let k2 = choose|k2: int|
                                {
                                    &&& 0 <= k2 < k as int && k2 < order@.len()
                                    &&& (#[trigger] order@[k2])@ == l@
                                    &&& pass_touches(passes[l@], nodes, r)
                                    &&& forall|k3: int|
                                        k2 < k3 < k as int && k3 < order@.len() ==> !pass_touches(
                                            passes[(#[trigger] order@[k3])@],
                                            nodes,
                                            r,
                                        )
                                };
                            assert(is_last_toucher(passes, nodes, order@, k + 1, r, l)) by {
                                assert(order@[k2]@ == l@);
                                assert forall|k3: int|
                                    k2 < k3 < k + 1 && k3 < order@.len() implies !pass_touches(
                                    passes[(#[trigger] order@[k3])@],
                                    nodes,
                                    r,
                                ) by {
                                    if k3 == k as int {
                                        assert(order@[k3]@ == ph@);
                                        assert(!pass_touches(passes[ph@], nodes, r));
                                    }
                                }
                            }
                        }
                        if touched_in_order_prefix(passes, nodes, order@, k + 1, r) {
                            let k2 = choose|k2: int|
                                0 <= k2 < k + 1 && k2 < order@.len() && pass_touches(
                                    passes[(#[trigger] order@[k2])@],
                                    nodes,
                                    r,
                                );
                            if k2 == k as int {
                                assert(false);
                            } else {
                                assert(touched_in_order_prefix(passes, nodes, order@, k as int, r));
                            }
                        }
                    }
                }
            }
            k = k + 1;
        }
        proof {
            assert forall|r: int|
                #![trigger self.spec_resources()[r]]
                0 <= r < self.spec_resources().len() implies {
                let first = self.spec_resources()[r].info.first_pass_node_handle;
                let last = self.spec_resources()[r].info.last_pass_node_handle;
                &&& (first is Some <==> exists|p: int|
                    0 <= p < passes.len() && pass_touches(#[trigger] passes[p], nodes, r))
                &&& (first is Some <==> last is Some)
                &&& (first matches Some(f) ==> {
                    &&& 0 <= f@ < passes.len()
                    &&& f == passes[f@].handle
                    &&& pass_touches(passes[f@], nodes, r)
                    &&& forall|p: int|
                        0 <= p < passes.len() && pass_touches(#[trigger] passes[p], nodes, r)
                            ==> (passes[f@].insert_point < passes[p].insert_point || (
                            passes[f@].insert_point == passes[p].insert_point && f@ <= p))
                })
                &&& (last matches Some(l) ==> {
                    &&& 0 <= l@ < passes.len()
                    &&& l == passes[l@].handle
                    &&& pass_touches(passes[l@], nodes, r)
                    &&& forall|p: int|
                        0 <= p < passes.len() && pass_touches(#[trigger] passes[p], nodes, r)
                            ==> (passes[l@].insert_point > passes[p].insert_point || (
                            passes[l@].insert_point == passes[p].insert_point && l@ >= p))
                })
            } by {
                let n = order@.len() as int;
                let first = self.spec_resources()[r].info.first_pass_node_handle;
                let last = self.spec_resources()[r].info.last_pass_node_handle;
                if exists|p: int|
                    0 <= p < passes.len() && pass_touches(#[trigger] passes[p], nodes, r) {
                    let p = choose|p: int|
                        0 <= p < passes.len() && pass_touches(#[trigger] passes[p], nodes, r);
                    assert(in_order(order@, p));
                    let kp = choose|i: int| 0 <= i < order@.len() && (#[trigger] order@[i])@ == p;
                    assert(touched_in_order_prefix(passes, nodes, order@, n, r)) by {
                        assert(pass_touches(passes[(order@[kp])@], nodes, r));
                    }
                }
                if first is Some {
                    let f = first->Some_0;
                    let k2 = choose|k2: int|
                        {
                            &&& 0 <= k2 < n && k2 < order@.len()
                            &&& (#[trigger] order@[k2])@ == f@
                            &&& pass_touches(passes[f@], nodes, r)
                            &&& forall|k3: int|
                                0 <= k3 < k2 ==> !pass_touches(
                                    passes[(#[trigger] order@[k3])@],
                                    nodes,
                                    r,
                                )
                        };
                    assert forall|p: int|
                        0 <= p < passes.len() && pass_touches(#[trigger] passes[p], nodes, r)
                            implies (passes[f@].insert_point < passes[p].insert_point || (
                        passes[f@].insert_point == passes[p].insert_point && f@ <= p)) by {
                        assert(in_order(order@, p));
                        let kp = choose|i: int|
                            0 <= i < order@.len() && (#[trigger] order@[i])@ == p;
                        assert(pass_touches(passes[(order@[kp])@], nodes, r));
                        assert(kp >= k2);
                        if kp > k2 {
                            assert(passes[(order@[k2])@].insert_point <= passes[(
                            order@[kp])@].insert_point);
                            if passes[(order@[k2])@].insert_point == passes[(
                            order@[kp])@].insert_point {
                                assert(order@[k2]@ < order@[kp]@);
                            }
                        }
                    }
                }
                if last is Some {
                    let l = last->Some_0;
                    let k2 = choose|k2: int|
                        {
                            &&& 0 <= k2 < n && k2 < order@.len()
                            &&& (#[trigger] order@[k2])@ == l@
                            &&& pass_touches(passes[l@], nodes, r)
                            &&& forall|k3: int|
                                k2 < k3 < n && k3 < order@.len() ==> !pass_touches(
                                    passes[(#[trigger] order@[k3])@],
                                    nodes,
                                    r,
                                )
                        };
                    assert forall|p: int|
                        0 <= p < passes.len() && pass_touches(#[trigger] passes[p], nodes, r)
                            implies (passes[l@].insert_point > passes[p].insert_point || (
                        passes[l@].insert_point == passes[p].insert_point && l@ >= p)) by {
                        assert(in_order(order@, p));
                        let kp = choose|i: int|
                            0 <= i < order@.len() && (#[trigger] order@[i])@ == p;
                        assert(pass_touches(passes[(order@[kp])@], nodes, r));
                        assert(kp <= k2);
                        if kp < k2 {
                            assert(passes[(order@[kp])@].insert_point <= passes[(
                            order@[k2])@].insert_point);
                            if passes[(order@[kp])@].insert_point == passes[(
                            order@[k2])@].insert_point {
                                assert(order@[kp]@ < order@[k2]@);
                            }
                        }
                    }
                }
            }
            assert(lifetimes_are_extremal(
                self.spec_pass_nodes(),
                nodes,
                self.spec_resources(),
            ));
        }
        let ghost g1 = *self;
        let mut r0: usize = 0;
        while r0 < self.resources.len()
            invariant
                self.wf(),
                passes == g0.spec_pass_nodes(),
                nodes == g0.spec_resource_nodes(),
                self.spec_resources() == g1.spec_resources(),
                self.spec_resource_nodes() == nodes,
                self.spec_board() == g1.spec_board(),
                self.spec_device_passes() == g1.spec_device_passes(),
                self.spec_pass_nodes().len() == passes.len(),
                lifetimes_are_extremal(passes, nodes, g1.spec_resources()),
                forall|p: int|
                    #![trigger passes[p]]
                    0 <= p < passes.len() ==> passes[p].resource_request_array@.len() == 0
                        && passes[p].resource_release_array@.len() == 0,
                forall|p: int|
                    #![trigger self.spec_pass_nodes()[p]]
                    0 <= p < passes.len() ==> {
                        let a = self.spec_pass_nodes()[p];
                        let b = passes[p];
                        &&& a.name == b.name
                        &&& a.handle == b.handle
                        &&& a.writes == b.writes
                        &&& a.reads == b.reads
                        &&& a.insert_point == b.insert_point
                        &&& a.pass == b.pass
                        &&& a.color_attachments == b.color_attachments
                    },
                0 <= r0 <= g1.spec_resources().len(),
                arrays_sound(self.spec_pass_nodes(), self.spec_resources()),
                arrays_unique(self.spec_pass_nodes()),
                forall|p: int, t: int|
                    0 <= p < passes.len() && 0 <= t
                        < self.spec_pass_nodes()[p].resource_request_array@.len() ==> (
                    #[trigger] self.spec_pass_nodes()[p].resource_request_array@[t])@ < r0,
                forall|p: int, t: int|
                    0 <= p < passes.len() && 0 <= t
                        < self.spec_pass_nodes()[p].resource_release_array@.len() ==> (
                    #[trigger] self.spec_pass_nodes()[p].resource_release_array@[t])@ < r0,
                forall|r: int|
                    #![trigger self.spec_resources()[r]]
                    0 <= r < r0 ==> {
                        &&& (self.spec_resources()[r].info.first_pass_node_handle matches Some(f)
                            ==> (0 <= f@ < passes.len() ==> in_handle_list(
                            self.spec_pass_nodes()[f@].resource_request_array@,
                            r,
                        )))
                        &&& (self.spec_resources()[r].info.last_pass_node_handle matches Some(l)
                            ==> (0 <= l@ < passes.len() ==> in_handle_list(
                            self.spec_pass_nodes()[l@].resource_release_array@,
                            r,
                        )))
                    },
            decreases g1.spec_resources().len() - r0,
        {
            let ghost passes_before = self.spec_pass_nodes();
            let first = self.resources[r0].info.first_pass_node_handle;
            let last = self.resources[r0].info.last_pass_node_handle;
            if first.is_some() && last.is_some() {
                let fh = first.unwrap();
                let lh = last.unwrap();
                let rh = self.resources[r0].info.handle;
                proof {
                    assert(g1.spec_resources()[r0 as int].info.first_pass_node_handle == Some(fh));
                    assert(g1.spec_resources()[r0 as int].info.last_pass_node_handle == Some(lh));
                    assert(0 <= fh@ < passes.len());
                    assert(0 <= lh@ < passes.len());
                    assert(rh@ == r0 as int);
                }
                self.push_request(fh.index(), rh);
                self.push_release(lh.index(), rh);
                proof {
                    let now = self.spec_pass_nodes();
                    assert forall|r: int|
                        #![trigger self.spec_resources()[r]]
                        0 <= r < r0 + 1 implies {
                        &&& (self.spec_resources()[r].info.first_pass_node_handle matches Some(f)
                            ==> (0 <= f@ < passes.len() ==> in_handle_list(
                            now[f@].resource_request_array@,
                            r,
                        )))
                        &&& (self.spec_resources()[r].info.last_pass_node_handle matches Some(l)
                            ==> (0 <= l@ < passes.len() ==> in_handle_list(
                            now[l@].resource_release_array@,
                            r,
                        )))
                    } by {
                        if r == r0 as int {
                            let req = now[fh@].resource_request_array@;
                            assert(req[req.len() - 1]@ == r);
                            let rel = now[lh@].resource_release_array@;
                            assert(rel[rel.len() - 1]@ == r);
                        } else {
                            if self.spec_resources()[r].info.first_pass_node_handle is Some
                                && 0 <= self.spec_resources()[r].info.first_pass_node_handle->Some_0@ < passes.len() {
                                let f = self.spec_resources()[r].info.first_pass_node_handle->Some_0;
                                assert(in_handle_list(
                                    passes_before[f@].resource_request_array@,
                                    r,
                                ));
                                let t = choose|t: int|
                                    0 <= t < passes_before[f@].resource_request_array@.len() && (
                                    #[trigger] passes_before[f@].resource_request_array@[t])@ == r;
                                assert(now[f@].resource_request_array@[t]@ == r);
                            }
                            if self.spec_resources()[r].info.last_pass_node_handle is Some
                                && 0 <= self.spec_resources()[r].info.last_pass_node_handle->Some_0@ < passes.len() {
                                let l = self.spec_resources()[r].info.last_pass_node_handle->Some_0;
                                assert(in_handle_list(
                                    passes_before[l@].resource_release_array@,
                                    r,
                                ));
                                let t = choose|t: int|
                                    0 <= t < passes_before[l@].resource_release_array@.len() && (
                                    #[trigger] passes_before[l@].resource_release_array@[t])@ == r;
                                assert(now[l@].resource_release_array@[t]@ == r);
                            }
                        }
                    }
                    assert forall|p: int, t: int|
                        0 <= p < now.len() && 0 <= t
                            < now[p].resource_request_array@.len() implies {
                        let rr = (#[trigger] now[p].resource_request_array@[t])@;
                        &&& 0 <= rr < self.spec_resources().len()
                        &&& self.spec_resources()[rr].info.first_pass_node_handle == Some(
                            now[p].handle,
                        )
                    } by {
                        if p == fh@ && t == now[p].resource_request_array@.len() - 1 {
                            assert(now[p].resource_request_array@[t] == rh);
                            assert(now[p].handle == passes_before[p].handle);
                        } else {
                            assert(now[p].resource_request_array@[t]
                                == passes_before[p].resource_request_array@[t]);
                        }
                    }
                    assert forall|p: int, t: int|
                        0 <= p < now.len() && 0 <= t
                            < now[p].resource_release_array@.len() implies {
                        let rr = (#[trigger] now[p].resource_release_array@[t])@;
                        &&& 0 <= rr < self.spec_resources().len()
                        &&& self.spec_resources()[rr].info.last_pass_node_handle == Some(
                            now[p].handle,
                        )
                    } by {
                        if p == lh@ && t == now[p].resource_release_array@.len() - 1 {
                            assert(now[p].resource_release_array@[t] == rh);
                        } else {
                            assert(now[p].resource_release_array@[t]
                                == passes_before[p].resource_release_array@[t]);
                        }
                    }
                }
            }
            r0 = r0 + 1;
        }
        proof {
            let now = self.spec_pass_nodes();
            assert forall|p: int, r: int|
                #![trigger pass_touches(now[p], nodes, r)]
                0 <= p < now.len() && 0 <= r < self.spec_resources().len() implies pass_touches(
                now[p],
                nodes,
                r,
            ) == pass_touches(passes[p], nodes, r) by {
                assert(now[p].reads@ == passes[p].reads@);
                assert(now[p].writes@ == passes[p].writes@);
            }
            assert(lifetimes_are_extremal(now, nodes, self.spec_resources()));
        }
    }

    /// Move the authored pass body and the declared attachments out of pass
    /// `handle`; used when the pass is folded into a device pass.
    pub(crate) fn take_pass_payload(&mut self, handle: &TypeHandle<PassNodeSlot>) -> (r: (
        Option<DynPass>,
        Vec<ColorAttachment>,
    ))
        requires
            old(self).wf(),
            handle@ < old(self).spec_pass_nodes().len(),
        ensures
            final(self).wf(),
            final(self).spec_pass_nodes().len() == old(self).spec_pass_nodes().len(),
            forall|i: int|
                0 <= i < old(self).spec_pass_nodes().len() && i != handle@ ==> final(self).spec_pass_nodes()[i] == old(self).spec_pass_nodes()[i],
            ({
                let a = final(self).spec_pass_nodes()[handle@];
                let b = old(self).spec_pass_nodes()[handle@];
                &&& a.pass is None
                &&& a.color_attachments@.len() == 0
                &&& a.name == b.name
                &&& a.handle == b.handle
                &&& a.writes == b.writes
                &&& a.reads == b.reads
                &&& a.insert_point == b.insert_point
                &&& a.resource_request_array == b.resource_request_array
                &&& a.resource_release_array == b.resource_release_array
            }),
            r.0 == old(self).spec_pass_nodes()[handle@].pass,
            r.1@ == old(self).spec_pass_nodes()[handle@].color_attachments@,
            final(self).spec_resources() == old(self).spec_resources(),
            final(self).spec_resource_nodes() == old(self).spec_resource_nodes(),
            final(self).spec_board() == old(self).spec_board(),
            final(self).spec_device_passes() == old(self).spec_device_passes(),
    {
        let idx = handle.index();
        let mut taken = PassNode::new(0, "", TypeHandle::new(0));
        self.pass_nodes.set_and_swap(idx, &mut taken);
        let PassNode {
            name,
            handle: slot,
            writes,
            reads,
            insert_point,
            resource_request_array,
            resource_release_array,
            pass,
            color_attachments,
        } = taken;
        let mut emptied = PassNode {
            name,
            handle: slot,
            writes,
            reads,
            insert_point,
            resource_request_array,
            resource_release_array,
            pass: None,
            color_attachments: Vec::new(),
        };
        self.pass_nodes.set_and_swap(idx, &mut emptied);
        proof {
            let passes = self.spec_pass_nodes();
            let prev = old(self).spec_pass_nodes();
            assert forall|i: int| 0 <= i < passes.len() implies (#[trigger] passes[i]).handle@
                == i && pass_wf(
                passes[i],
                self.spec_resource_nodes().len() as int,
                self.spec_resources().len() as int,
            ) by {
                if i != idx {
                    assert(passes[i] == prev[i]);
                }
            }
        }
        (pass, color_attachments)
    }

    /// Whether lifetime computation has not yet run: no lifetime bookkeeping
    /// and no request/release assignments. A freshly built frame is in this
    /// state; `compile` consumes it.
    pub open spec fn spec_unplanned(&self) -> bool {
        &&& forall|r: int|
            #![trigger self.spec_resources()[r]]
            0 <= r < self.spec_resources().len() ==> self.spec_resources()[r].info.first_pass_node_handle is None
                && self.spec_resources()[r].info.last_pass_node_handle is None
        &&& forall|p: int|
            #![trigger self.spec_pass_nodes()[p]]
            0 <= p < self.spec_pass_nodes().len() ==> self.spec_pass_nodes()[p].resource_request_array@.len()
                == 0 && self.spec_pass_nodes()[p].resource_release_array@.len() == 0
    }

    /// Generate one device pass per pass node, in execution order (the
    /// current policy is strictly 1:1, no merging or culling).
    fn generate_device_passes(&mut self, order: &Vec<TypeHandle<PassNodeSlot>>)
        requires
            old(self).wf(),
            is_execution_order(old(self).spec_pass_nodes(), order@),
        ensures
            final(self).wf(),
            final(self).spec_resources() == old(self).spec_resources(),
            final(self).spec_resource_nodes() == old(self).spec_resource_nodes(),
            final(self).spec_board() == old(self).spec_board(),
            final(self).spec_pass_nodes().len() == old(self).spec_pass_nodes().len(),
            forall|p: int|
                #![trigger final(self).spec_pass_nodes()[p]]
                0 <= p < old(self).spec_pass_nodes().len() ==> {
                    let a = final(self).spec_pass_nodes()[p];
                    let b = old(self).spec_pass_nodes()[p];
                    &&& a.pass is None
                    &&& a.color_attachments@.len() == 0
                    &&& a.name == b.name
                    &&& a.handle == b.handle
                    &&& a.writes == b.writes
                    &&& a.reads == b.reads
                    &&& a.insert_point == b.insert_point
                    &&& a.resource_request_array == b.resource_request_array
                    &&& a.resource_release_array == b.resource_release_array
                },
            ({
                &&& final(self).spec_device_passes() matches Some(dps)
                &&& final(self).spec_device_passes()->Some_0.len() == order@.len()
                &&& forall|k: int|
                    #![trigger final(self).spec_device_passes()->Some_0[k]]
                    0 <= k < order@.len() ==> {
                        let dp = final(self).spec_device_passes()->Some_0[k];
                        let b = old(self).spec_pass_nodes()[order@[k]@];
                        &&& dp.spec_logic_passes().len() == 1
                        &&& dp.spec_logic_passes()[0].spec_pass() == b.pass
                        &&& dp.spec_logic_passes()[0].spec_release_array()
                            == b.resource_release_array@
                        &&& dp.spec_logic_passes()[0].spec_request_array().len()
                            == b.resource_request_array@.len()
                        &&& (forall|t: int|
                            0 <= t < b.resource_request_array@.len() ==> dp.spec_logic_passes()[0].spec_request_array()[t]
                                == old(self).spec_resources()[(
                            #[trigger] b.resource_request_array@[t])@])
                        &&& dp.spec_attachments() == b.color_attachments@
                    }
            }),
    {
        let ghost g0 = *old(self);
        let ghost passes0 = g0.spec_pass_nodes();
        let mut device_passes: Vec<DevicePass> = Vec::new();
        let mut k: usize = 0;
        while k < order.len()
            invariant
                self.wf(),
                passes0 == g0.spec_pass_nodes(),
                is_execution_order(passes0, order@),
                self.spec_resources() == g0.spec_resources(),
                self.spec_resource_nodes() == g0.spec_resource_nodes(),
                self.spec_board() == g0.spec_board(),
                self.spec_device_passes() == g0.spec_device_passes(),
                self.spec_pass_nodes().len() == passes0.len(),
                0 <= k <= order@.len(),
                device_passes@.len() == k,
                forall|p: int|
                    #![trigger self.spec_pass_nodes()[p]]
                    0 <= p < passes0.len() ==> {
                        let a = self.spec_pass_nodes()[p];
                        let b = passes0[p];
                        &&& a.name == b.name
                        &&& a.handle == b.handle
                        &&& a.writes == b.writes
                        &&& a.reads == b.reads
                        &&& a.insert_point == b.insert_point
                        &&& a.resource_request_array == b.resource_request_array
                        &&& a.resource_release_array == b.resource_release_array
                        &&& (if exists|k2: int| 0 <= k2 < k && (#[trigger] order@[k2])@ == p {
                            a.pass is None && a.color_attachments@.len() == 0
                        } else {
                            a.pass == b.pass && a.color_attachments == b.color_attachments
                        })
                    },
                forall|j: int|
                    #![trigger device_passes@[j]]
                    0 <= j < k ==> {
                        let dp = device_passes@[j];
                        let b = passes0[order@[j]@];
                        &&& dp.spec_logic_passes().len() == 1
                        &&& dp.spec_logic_passes()[0].spec_pass() == b.pass
                        &&& dp.spec_logic_passes()[0].spec_release_array()
                            == b.resource_release_array@
                        &&& dp.spec_logic_passes()[0].spec_request_array().len()
                            == b.resource_request_array@.len()
                        &&& (forall|t: int|
                            0 <= t < b.resource_request_array@.len() ==> dp.spec_logic_passes()[0].spec_request_array()[t]
                                == g0.spec_resources()[(
                            #[trigger] b.resource_request_array@[t])@])
                        &&& dp.spec_attachments() == b.color_attachments@
                    },
            decreases order@.len() - k,
        {
            let pass_node_handle = order[k];
            proof {
                if exists|k2: int| 0 <= k2 < k && (#[trigger] order@[k2])@ == pass_node_handle@ {
                    let k2 = choose|k2: int|
                        0 <= k2 < k && (#[trigger] order@[k2])@ == pass_node_handle@;
                    assert(passes0[order@[k2]@].insert_point
                        == passes0[order@[k as int]@].insert_point);
                    assert(order@[k2]@ < order@[k as int]@);
                    assert(false);
                }
            }
            let mut device_pass = DevicePass::new();
            device_pass.extra(self, pass_node_handle);
            device_passes.push(device_pass);
            k = k + 1;
        }
        proof {
            assert forall|p: int|
                #![trigger passes0[p]]
                0 <= p < passes0.len() implies exists|k2: int|
                0 <= k2 < order@.len() && (#[trigger] order@[k2])@ == p by {
                assert(in_order(order@, p));
                let i = choose|i: int| 0 <= i < order@.len() && (#[trigger] order@[i])@ == p;
                assert(order@[i]@ == p);
            }
        }
        self.device_passes = Some(device_passes);
    }

    /// Compile the frame: stable-sort the passes by insert point, derive
    /// every resource's first and last user and hand it to their request and
    /// release arrays, and generate one device pass per pass node. A graph
    /// with no pass nodes compiles to nothing.
    pub fn compile(&mut self)
        requires
            old(self).wf(),
            old(self).spec_unplanned(),
        ensures
            final(self).wf(),
            old(self).spec_pass_nodes().len() == 0 ==> *final(self) == *old(self),
            final(self).spec_resource_nodes() == old(self).spec_resource_nodes(),
            final(self).spec_board() == old(self).spec_board(),
            final(self).spec_resources().len() == old(self).spec_resources().len(),
            forall|r: int|
                #![trigger final(self).spec_resources()[r]]
                0 <= r < old(self).spec_resources().len() ==> {
                    let v = final(self).spec_resources()[r];
                    let w = old(self).spec_resources()[r];
                    &&& v.info.name == w.info.name
                    &&& v.info.handle == w.info.handle
                    &&& v.info.spec_version() == w.info.spec_version()
                    &&& v.state == w.state
                },
            final(self).spec_pass_nodes().len() == old(self).spec_pass_nodes().len(),
            forall|p: int|
                #![trigger final(self).spec_pass_nodes()[p]]
                0 <= p < old(self).spec_pass_nodes().len() ==> {
                    let a = final(self).spec_pass_nodes()[p];
                    let b = old(self).spec_pass_nodes()[p];
                    &&& a.name == b.name
                    &&& a.handle == b.handle
                    &&& a.writes == b.writes
                    &&& a.reads == b.reads
                    &&& a.insert_point == b.insert_point
                },
            old(self).spec_pass_nodes().len() > 0 ==> {
                &&& lifetimes_are_extremal(
                    final(self).spec_pass_nodes(),
                    old(self).spec_resource_nodes(),
                    final(self).spec_resources(),
                )
                &&& arrays_sound(final(self).spec_pass_nodes(), final(self).spec_resources())
                &&& arrays_complete(final(self).spec_pass_nodes(), final(self).spec_resources())
                &&& arrays_unique(final(self).spec_pass_nodes())
                &&& final(self).spec_device_passes() matches Some(dps)
                &&& final(self).spec_device_passes()->Some_0.len() == old(
                    self,
                ).spec_pass_nodes().len()
                &&& exists|order: Seq<TypeHandle<PassNodeSlot>>|
                    {
                        &&& #[trigger] is_execution_order(final(self).spec_pass_nodes(), order)
                        &&& forall|k: int|
                            #![trigger order[k]]
                            0 <= k < order.len() ==> {
                                let dp = final(self).spec_device_passes()->Some_0[k];
                                let b = old(self).spec_pass_nodes()[order[k]@];
                                &&& dp.spec_logic_passes().len() == 1
                                &&& dp.spec_logic_passes()[0].spec_pass() == b.pass
                                &&& dp.spec_logic_passes()[0].spec_release_array() == final(self).spec_pass_nodes()[order[k]@].resource_release_array@
                                &&& dp.spec_attachments() == b.color_attachments@
                                &&& dp.spec_logic_passes()[0].spec_request_array().len() == final(self).spec_pass_nodes()[order[k]@].resource_request_array@.len()
                                &&& (forall|t: int|
                                    0 <= t < final(self).spec_pass_nodes()[order[k]@].resource_request_array@.len()
                                        ==> dp.spec_logic_passes()[0].spec_request_array()[t]
                                        == final(self).spec_resources()[(#[trigger] final(self).spec_pass_nodes()[order[k]@].resource_request_array@[t])@])
                            }
                    }
            },
    {
        if self.pass_nodes.is_empty() {
            return ;
        }
        let ghost g0 = *old(self);
        let order = self.sort();
        self.compute_resource_lifetime(&order);
        proof {
            let mid = self.spec_pass_nodes();
            assert forall|i: int| 0 <= i < mid.len() implies (#[trigger] mid[i]).insert_point
                == g0.spec_pass_nodes()[i].insert_point by {}
            assert forall|i: int, j: int|
                0 <= i < j < order@.len() implies mid[(#[trigger] order@[i])@].insert_point
                <= mid[(#[trigger] order@[j])@].insert_point by {
                assert(g0.spec_pass_nodes()[order@[i]@].insert_point <= g0.spec_pass_nodes()[(
                order@[j])@].insert_point);
            }
            assert forall|i: int, j: int|
                0 <= i < j < order@.len() && mid[(#[trigger] order@[i])@].insert_point == mid[(
                #[trigger] order@[j])@].insert_point implies order@[i]@ < order@[j]@ by {
                assert(g0.spec_pass_nodes()[order@[i]@].insert_point == g0.spec_pass_nodes()[(
                order@[j])@].insert_point);
            }
            assert(is_execution_order(mid, order@));
        }
        let ghost g1 = *self;
        self.generate_device_passes(&order);
        proof {
            let now = self.spec_pass_nodes();
            let nodes = g0.spec_resource_nodes();
            assert forall|p: int, r: int|
                #![trigger pass_touches(now[p], nodes, r)]
                0 <= p < now.len() && 0 <= r < self.spec_resources().len() implies pass_touches(
                now[p],
                nodes,
                r,
            ) == pass_touches(g1.spec_pass_nodes()[p], nodes, r) by {
                assert(now[p].reads@ == g1.spec_pass_nodes()[p].reads@);
                assert(now[p].writes@ == g1.spec_pass_nodes()[p].writes@);
            }
            assert(lifetimes_are_extremal(now, nodes, self.spec_resources()));
            assert forall|p: int, t: int|
                0 <= p < now.len() && 0 <= t
                    < now[p].resource_request_array@.len() implies {
                let rr = (#[trigger] now[p].resource_request_array@[t])@;
                &&& 0 <= rr < self.spec_resources().len()
                &&& self.spec_resources()[rr].info.first_pass_node_handle == Some(now[p].handle)
            } by {
                assert(now[p].resource_request_array@[t]
                    == g1.spec_pass_nodes()[p].resource_request_array@[t]);
            }
            assert forall|p: int, t: int|
                0 <= p < now.len() && 0 <= t
                    < now[p].resource_release_array@.len() implies {
                let rr = (#[trigger] now[p].resource_release_array@[t])@;
                &&& 0 <= rr < self.spec_resources().len()
                &&& self.spec_resources()[rr].info.last_pass_node_handle == Some(now[p].handle)
            } by {
                assert(now[p].resource_release_array@[t]
                    == g1.spec_pass_nodes()[p].resource_release_array@[t]);
            }
            assert forall|p: int, t1: int, t2: int|
                0 <= p < now.len() && 0 <= t1 < t2
                    < now[p].resource_request_array@.len() implies (
            #[trigger] now[p].resource_request_array@[t1])@ != (
            #[trigger] now[p].resource_request_array@[t2])@ by {
                assert(now[p].resource_request_array
                    == g1.spec_pass_nodes()[p].resource_request_array);
            }
            assert forall|p: int, t1: int, t2: int|
                0 <= p < now.len() && 0 <= t1 < t2
                    < now[p].resource_release_array@.len() implies (
            #[trigger] now[p].resource_release_array@[t1])@ != (
            #[trigger] now[p].resource_release_array@[t2])@ by {
                assert(now[p].resource_release_array
                    == g1.spec_pass_nodes()[p].resource_release_array);
            }
            assert forall|r: int|
                #![trigger self.spec_resources()[r]]
                0 <= r < self.spec_resources().len() implies {
                &&& (self.spec_resources()[r].info.first_pass_node_handle matches Some(f) ==> (0
                    <= f@ < now.len() ==> in_handle_list(now[f@].resource_request_array@, r)))
                &&& (self.spec_resources()[r].info.last_pass_node_handle matches Some(l) ==> (0
                    <= l@ < now.len() ==> in_handle_list(now[l@].resource_release_array@, r)))
            } by {
                if self.spec_resources()[r].info.first_pass_node_handle is Some {
                    let f = self.spec_resources()[r].info.first_pass_node_handle->Some_0;
                    if 0 <= f@ < now.len() {
                        assert(in_handle_list(
                            g1.spec_pass_nodes()[f@].resource_request_array@,
                            r,
                        ));
                        let t = choose|t: int|
                            0 <= t < g1.spec_pass_nodes()[f@].resource_request_array@.len() && (
                            #[trigger] g1.spec_pass_nodes()[f@].resource_request_array@[t])@ == r;
                        assert(now[f@].resource_request_array@[t]@ == r);
                    }
                }
                if self.spec_resources()[r].info.last_pass_node_handle is Some {
                    let l = self.spec_resources()[r].info.last_pass_node_handle->Some_0;
                    if 0 <= l@ < now.len() {
                        assert(in_handle_list(
                            g1.spec_pass_nodes()[l@].resource_release_array@,
                            r,
                        ));
                        let t = choose|t: int|
                            0 <= t < g1.spec_pass_nodes()[l@].resource_release_array@.len() && (
                            #[trigger] g1.spec_pass_nodes()[l@].resource_release_array@[t])@ == r;
                        assert(now[l@].resource_release_array@[t]@ == r);
                    }
                }
            }
            assert forall|i: int, j: int|
                0 <= i < j < order@.len() implies now[(#[trigger] order@[i])@].insert_point
                <= now[(#[trigger] order@[j])@].insert_point by {
                assert(g1.spec_pass_nodes()[order@[i]@].insert_point <= g1.spec_pass_nodes()[(
                order@[j])@].insert_point);
            }
            assert forall|i: int, j: int|
                0 <= i < j < order@.len() && now[(#[trigger] order@[i])@].insert_point == now[(
                #[trigger] order@[j])@].insert_point implies order@[i]@ < order@[j]@ by {
                assert(g1.spec_pass_nodes()[order@[i]@].insert_point == g1.spec_pass_nodes()[(
                order@[j])@].insert_point);
            }
            assert(is_execution_order(now, order@));
        }
    }

    /// Run the compiled frame against the device: each device pass in order,
    /// sharing one execution context, then submit the collected command
    /// buffers. Calling without a prior `compile` is rejected, never silently
    /// a no-op.
    pub fn execute(
        &mut self,
        device: &Device,
        transient_resource_cache: &mut TransientResourceCache,
    ) -> (r: Result<Vec<RendererError>, RendererError>)
        ensures
            r is Err <==> old(self).spec_device_passes() is None,
            r is Err ==> r == Err::<Vec<RendererError>, RendererError>(
                RendererError::ExecuteBeforeCompile,
            ),
            final(self).spec_device_passes() is None,
            final(self).spec_pass_nodes() == old(self).spec_pass_nodes(),
            final(self).spec_resources() == old(self).spec_resources(),
            final(self).spec_resource_nodes() == old(self).spec_resource_nodes(),
            final(self).spec_board() == old(self).spec_board(),
            r matches Ok(errs) ==> ({
                let dps = old(self).spec_device_passes()->Some_0;
                errs@.len() <= crate::device_pass::spec_logic_pass_count(dps, dps.len() as int)
            }),
    {
        let device_passes = self.device_passes.take();
        match device_passes {
            None => Err(RendererError::ExecuteBeforeCompile),
            Some(device_passes) => {
                let mut render_context = RenderContext::new();
                let mut errors: Vec<RendererError> = Vec::new();
                let mut i: usize = 0;
                while i < device_passes.len()
                    invariant
                        0 <= i <= device_passes@.len(),
                        errors@.len() <= crate::device_pass::spec_logic_pass_count(
                            device_passes@,
                            i as int,
                        ),
                    decreases device_passes@.len() - i,
                {
                    let mut pass_errors = device_passes[i].execute(
                        device,
                        transient_resource_cache,
                        &mut render_context,
                    );
                    errors.append(&mut pass_errors);
                    i = i + 1;
                }
                let RenderContext { resource_table: _, cb: _, queue_cbs } = render_context;
                device.submit(queue_cbs);
                Ok(errors)
            },
        }
    }
}

/// The resource node a `write` allocates is distinct from every node already
/// in the graph, and in particular from every node any pass's declarations
/// mention: its handle indexes the fresh slot one past the current end.
pub proof fn lemma_fresh_node_handle_distinct(g: &FrameGraph, h: TypeHandle<ResourceNodeSlot>)
    requires
        g.wf(),
        h@ >= g.spec_resource_nodes().len(),
    ensures
        forall|j: int|
            0 <= j < g.spec_resource_nodes().len() ==> (#[trigger] g.spec_resource_nodes()[j]).handle
                != h,
        forall|p: int, t: int|
            0 <= p < g.spec_pass_nodes().len() && 0 <= t
                < g.spec_pass_nodes()[p].writes@.len() ==> (
            #[trigger] g.spec_pass_nodes()[p].writes@[t]) != h,
        forall|p: int, t: int|
            0 <= p < g.spec_pass_nodes().len() && 0 <= t
                < g.spec_pass_nodes()[p].reads@.len() ==> (
            #[trigger] g.spec_pass_nodes()[p].reads@[t]) != h,
{
    assert forall|p: int, t: int|
        0 <= p < g.spec_pass_nodes().len() && 0 <= t
            < g.spec_pass_nodes()[p].writes@.len() implies (
    #[trigger] g.spec_pass_nodes()[p].writes@[t]) != h by {
        assert(pass_wf(
            g.spec_pass_nodes()[p],
            g.spec_resource_nodes().len() as int,
            g.spec_resources().len() as int,
        ));
    }
    assert forall|p: int, t: int|
        0 <= p < g.spec_pass_nodes().len() && 0 <= t
            < g.spec_pass_nodes()[p].reads@.len() implies (
    #[trigger] g.spec_pass_nodes()[p].reads@[t]) != h by {
        assert(pass_wf(
            g.spec_pass_nodes()[p],
            g.spec_resource_nodes().len() as int,
            g.spec_resources().len() as int,
        ));
    }
}

} // verus!
