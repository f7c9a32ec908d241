use crate::device::Device;
use crate::error::RendererError;
use crate::graph::FrameGraph;
use crate::handle::PassNodeSlot;
use crate::handle::{TypeHandle, VirtualResourceSlot};
use crate::pass::DynPass;
use crate::render_context::RenderContext;
use crate::render_pass::RenderPassInfo;
use crate::resource::{ResourceState, VirtualResource};
use crate::resource_table::ResourceTable;
use crate::transient_resource_cache::{TransientResourceCache, pool_has_desc};
use vstd::prelude::*;

verus! {

/// One pass node's share of a compiled device pass: the authored body, the
/// resources it must materialize, and the resources it releases afterwards.
pub struct LogicPass {
    pass: Option<DynPass>,
    resource_release_array: Vec<TypeHandle<VirtualResourceSlot>>,
    resource_request_array: Vec<VirtualResource>,
}

impl LogicPass {
    /// The authored pass body, if one was attached.
    pub closed spec fn spec_pass(&self) -> Option<DynPass> {
        self.pass
    }

    /// The virtual resources this pass materializes before running.
    pub closed spec fn spec_request_array(&self) -> Seq<VirtualResource> {
        self.resource_request_array@
    }

    /// The resources this pass releases after running.
    pub closed spec fn spec_release_array(&self) -> Seq<TypeHandle<VirtualResourceSlot>> {
        self.resource_release_array@
    }

    pub(crate) fn new(
        pass: Option<DynPass>,
        resource_release_array: Vec<TypeHandle<VirtualResourceSlot>>,
        resource_request_array: Vec<VirtualResource>,
    ) -> (r: LogicPass)
        ensures
            r.spec_pass() == pass,
            r.spec_release_array() == resource_release_array@,
            r.spec_request_array() == resource_request_array@,
    {
        LogicPass { pass, resource_release_array, resource_request_array }
    }

    /// Materialize every resource in the request array into the table:
    /// afterwards the table holds something for every requested resource,
    /// except the kinds without a pooling policy (swap-chain surfaces set up
    /// rather than imported), which are deliberately skipped.
    pub fn request_resources(
        &self,
        device: &Device,
        resource_table: &mut ResourceTable,
        transient_resource_cache: &mut TransientResourceCache,
    )
        ensures
            forall|k: int|
                (forall|t: int|
                    0 <= t < self.spec_request_array().len() ==> (
                    #[trigger] self.spec_request_array()[t]).info.handle@ != k) ==> final(resource_table).spec_get(k) == old(resource_table).spec_get(k),
            forall|k: int|
                old(resource_table).spec_get(k) is Some ==> final(resource_table).spec_get(
                    k,
                ) is Some,
            forall|t: int|
                #![trigger self.spec_request_array()[t]]
                0 <= t < self.spec_request_array().len() ==> {
                    let requested = self.spec_request_array()[t];
                    match requested.state {
                        ResourceState::Imported(_) => final(resource_table).spec_get(
                            requested.info.handle@,
                        ) is Some,
                        ResourceState::Setup(desc) => desc is Texture ==> final(resource_table).spec_get(requested.info.handle@) is Some,
                    }
                },
    {
        let mut i: usize = 0;
        while i < self.resource_request_array.len()
            invariant
                0 <= i <= self.resource_request_array@.len(),
                forall|k: int|
                    (forall|t: int|
                        0 <= t < self.resource_request_array@.len() ==> (
                        #[trigger] self.resource_request_array@[t]).info.handle@ != k)
                        ==> resource_table.spec_get(k) == old(resource_table).spec_get(k),
                forall|k: int|
                    old(resource_table).spec_get(k) is Some ==> resource_table.spec_get(
                        k,
                    ) is Some,
                forall|t: int|
                    #![trigger self.resource_request_array@[t]]
                    0 <= t < i ==> {
                        let requested = self.resource_request_array@[t];
                        match requested.state {
                            ResourceState::Imported(_) => resource_table.spec_get(
                                requested.info.handle@,
                            ) is Some,
                            ResourceState::Setup(desc) => desc is Texture
                                ==> resource_table.spec_get(requested.info.handle@) is Some,
                        }
                    },
            decreases self.resource_request_array.len() - i,
        {
            resource_table.request_resources(
                &self.resource_request_array[i],
                device,
                transient_resource_cache,
            );
            i = i + 1;
        }
    }

    /// Release every resource in the release array: owned textures return to
    /// the pool, everything else is dropped.
    pub fn release_resources(
        &self,
        resource_table: &mut ResourceTable,
        transient_resource_cache: &mut TransientResourceCache,
    )
        ensures
            forall|k: int|
                (forall|t: int|
                    0 <= t < self.spec_release_array().len()
                        ==> #[trigger] self.spec_release_array()[t]@ != k) ==> final(resource_table).spec_get(k) == old(resource_table).spec_get(k),
            forall|t: int|
                0 <= t < self.spec_release_array().len() ==> final(resource_table).spec_get(
                    #[trigger] self.spec_release_array()[t]@,
                ) is None,
            forall|d: crate::texture::TextureInfo|
                pool_has_desc(old(transient_resource_cache)@, d) ==> pool_has_desc(
                    final(transient_resource_cache)@,
                    d,
                ),
    {
        let mut i: usize = 0;
        while i < self.resource_release_array.len()
            invariant
                0 <= i <= self.resource_release_array.len(),
                forall|k: int|
                    (forall|t: int|
                        0 <= t < i ==> #[trigger] self.resource_release_array@[t]@ != k)
                        ==> resource_table.spec_get(k) == old(resource_table).spec_get(k),
                forall|t: int|
                    0 <= t < i ==> resource_table.spec_get(
                        #[trigger] self.resource_release_array@[t]@,
                    ) is None,
                forall|d: crate::texture::TextureInfo|
                    pool_has_desc(old(transient_resource_cache)@, d) ==> pool_has_desc(
                        transient_resource_cache@,
                        d,
                    ),
            decreases self.resource_release_array.len() - i,
        {
            let ghost prev_cache = transient_resource_cache@;
            let handle = self.resource_release_array[i];
            resource_table.release_resource(&handle, transient_resource_cache);
            proof {
                assert forall|d: crate::texture::TextureInfo|
                    pool_has_desc(prev_cache, d) implies pool_has_desc(
                    transient_resource_cache@,
                    d,
                ) by {
                    let t = choose|t: int|
                        0 <= t < prev_cache.len() && prev_cache[t].spec_desc() == d;
                    assert(transient_resource_cache@[t].spec_desc() == d);
                }
            }
            i = i + 1;
        }
    }
}

/// How many logic passes the first `upto` device passes hold together; each
/// logic pass can surface at most one error per frame.
pub open spec fn spec_logic_pass_count(dps: Seq<DevicePass>, upto: int) -> int
    decreases upto,
{
    if upto <= 0 {
        0
    } else {
        spec_logic_pass_count(dps, upto - 1) + dps[upto - 1].spec_logic_passes().len()
    }
}

/// A compiled execution grouping: the logic passes sharing one GPU
/// render-pass scope, and the merged attachment set of that scope.
pub struct DevicePass {
    logic_passes: Vec<LogicPass>,
    render_pass_info: RenderPassInfo,
}

impl DevicePass {
    /// The logic passes grouped into this device pass.
    pub closed spec fn spec_logic_passes(&self) -> Seq<LogicPass> {
        self.logic_passes@
    }

    /// The merged attachment set of this device pass's render scope.
    pub closed spec fn spec_attachments(&self) -> Seq<crate::color_attachment::ColorAttachment> {
        self.render_pass_info.color_attachments@
    }

    pub fn new() -> (r: DevicePass)
        ensures
            r.spec_logic_passes().len() == 0,
            r.spec_attachments().len() == 0,
    {
        DevicePass { logic_passes: Vec::new(), render_pass_info: RenderPassInfo::new() }
    }

    /// Fold pass `handle` of the graph into this device pass: move its body
    /// and attachments over, resolve its request handles to resource values,
    /// and copy its release list.
    pub fn extra(&mut self, fg: &mut FrameGraph, handle: TypeHandle<PassNodeSlot>)
        requires
            old(fg).wf(),
            handle@ < old(fg).spec_pass_nodes().len(),
        ensures
            final(fg).wf(),
            final(fg).spec_pass_nodes().len() == old(fg).spec_pass_nodes().len(),
            forall|i: int|
                0 <= i < old(fg).spec_pass_nodes().len() && i != handle@ ==> final(fg).spec_pass_nodes()[i] == old(fg).spec_pass_nodes()[i],
            ({
                let a = final(fg).spec_pass_nodes()[handle@];
                let b = old(fg).spec_pass_nodes()[handle@];
                &&& a.pass is None
                &&& a.color_attachments@.len() == 0
                &&& a.name == b.name
                &&& a.handle == b.handle
                &&& a.writes == b.writes
                &&& a.reads == b.reads
                &&& a.insert_point == b.insert_point
                &&& a.resource_request_array == b.resource_request_array
                &&& a.resource_release_array == b.resource_release_array
            }),
            final(fg).spec_resources() == old(fg).spec_resources(),
            final(fg).spec_resource_nodes() == old(fg).spec_resource_nodes(),
            final(fg).spec_board() == old(fg).spec_board(),
            final(fg).spec_device_passes() == old(fg).spec_device_passes(),
            final(self).spec_logic_passes().len() == old(self).spec_logic_passes().len() + 1,
            forall|i: int|
                0 <= i < old(self).spec_logic_passes().len() ==> final(self).spec_logic_passes()[i] == old(self).spec_logic_passes()[i],
            ({
                let lp = final(self).spec_logic_passes().last();
                let b = old(fg).spec_pass_nodes()[handle@];
                &&& lp.spec_pass() == b.pass
                &&& lp.spec_release_array() == b.resource_release_array@
                &&& lp.spec_request_array().len() == b.resource_request_array@.len()
                &&& forall|t: int|
                    0 <= t < b.resource_request_array@.len() ==> lp.spec_request_array()[t]
                        == old(fg).spec_resources()[(#[trigger] b.resource_request_array@[t])@]
            }),
            final(self).spec_attachments() == old(self).spec_attachments() + old(fg).spec_pass_nodes()[handle@].color_attachments@,
    {
        let ghost b = fg.spec_pass_nodes()[handle@];
        let mut request: Vec<VirtualResource> = Vec::new();
        let n = fg.get_pass_node(&handle).resource_request_array.len();
        let mut t: usize = 0;
        while t < n
            invariant
                fg.wf(),
                *fg == *old(fg),
                b == fg.spec_pass_nodes()[handle@],
                handle@ < fg.spec_pass_nodes().len(),
                n == b.resource_request_array@.len(),
                0 <= t <= n,
                request@.len() == t,
                forall|i: int|
                    0 <= i < t ==> request@[i] == fg.spec_resources()[(
                    #[trigger] b.resource_request_array@[i])@],
            decreases n - t,
        {
            let rh = fg.get_pass_node(&handle).resource_request_array[t];
            let resource = fg.get_resource(&rh).clone();
            request.push(resource);
            t = t + 1;
        }
        let mut release: Vec<TypeHandle<VirtualResourceSlot>> = Vec::new();
        let m = fg.get_pass_node(&handle).resource_release_array.len();
        let mut u: usize = 0;
        while u < m
            invariant
                fg.wf(),
                *fg == *old(fg),
                b == fg.spec_pass_nodes()[handle@],
                handle@ < fg.spec_pass_nodes().len(),
                m == b.resource_release_array@.len(),
                0 <= u <= m,
                release@ == b.resource_release_array@.subrange(0, u as int),
            decreases m - u,
        {
            release.push(fg.get_pass_node(&handle).resource_release_array[u]);
            u = u + 1;
        }
        proof {
            assert(release@ == b.resource_release_array@);
        }
        let (pass, mut attachments) = fg.take_pass_payload(&handle);
        self.render_pass_info.color_attachments.append(&mut attachments);
        self.logic_passes.push(LogicPass::new(pass, release, request));
    }

    /// Materialize every logic pass's resources, then open this device
    /// pass's render scope: one command buffer and one render pass whose
    /// attachment set is the union of the logic passes' declarations.
    pub fn begin(
        &self,
        device: &Device,
        transient_resource_cache: &mut TransientResourceCache,
        render_context: &mut RenderContext,
    )
        ensures
            final(render_context).spec_has_cb(),
            final(render_context).queue_cbs == old(render_context).queue_cbs,
            forall|j: int, t: int|
                0 <= j < self.spec_logic_passes().len() && 0 <= t < self.spec_logic_passes()[j].spec_request_array().len()
                    ==> match (#[trigger] self.spec_logic_passes()[j].spec_request_array()[t]).state {
                    ResourceState::Imported(_) => final(render_context).resource_table.spec_get(
                        self.spec_logic_passes()[j].spec_request_array()[t].info.handle@,
                    ) is Some,
                    ResourceState::Setup(desc) => desc is Texture ==> final(render_context).resource_table.spec_get(
                        self.spec_logic_passes()[j].spec_request_array()[t].info.handle@,
                    ) is Some,
                },
    {
        let mut j: usize = 0;
        while j < self.logic_passes.len()
            invariant
                0 <= j <= self.spec_logic_passes().len(),
                render_context.queue_cbs == old(render_context).queue_cbs,
                render_context.cb == old(render_context).cb,
                forall|j2: int, t: int|
                    0 <= j2 < j && 0 <= t < self.spec_logic_passes()[j2].spec_request_array().len()
                        ==> match (#[trigger] self.spec_logic_passes()[j2].spec_request_array()[t]).state {
                        ResourceState::Imported(_) => render_context.resource_table.spec_get(
                            self.spec_logic_passes()[j2].spec_request_array()[t].info.handle@,
                        ) is Some,
                        ResourceState::Setup(desc) => desc is Texture
                            ==> render_context.resource_table.spec_get(
                            self.spec_logic_passes()[j2].spec_request_array()[t].info.handle@,
                        ) is Some,
                    },
            decreases self.logic_passes.len() - j,
        {
            self.logic_passes[j].request_resources(
                device,
                &mut render_context.resource_table,
                transient_resource_cache,
            );
            j = j + 1;
        }
        let mut command_buffer = device.create_command_buffer();
        let mut render_pass = device.create_render_pass(&self.render_pass_info);
        render_pass.do_init(&render_context.resource_table);
        command_buffer.begin_render_pass(render_pass);
        render_context.set_cb(command_buffer);
    }

    /// Close the render scope: the finished command buffer joins the frame's
    /// submission queue, and the resource table is discarded — anything never
    /// explicitly released is dropped, not pooled.
    pub fn end(&self, render_context: &mut RenderContext)
        ensures
            final(render_context).resource_table@.len() == 0,
            !final(render_context).spec_has_cb(),
            old(render_context).spec_has_cb() ==> {
                &&& final(render_context).queue_cbs@.len() == old(render_context).queue_cbs@.len() + 1
                &&& forall|i: int|
                    0 <= i < old(render_context).queue_cbs@.len() ==> final(render_context).queue_cbs@[i] == old(render_context).queue_cbs@[i]
            },
            !old(render_context).spec_has_cb() ==> final(render_context).queue_cbs == old(render_context).queue_cbs,
    {
        render_context.resource_table = ResourceTable::new();
        let taken = render_context.take_cb();
        match taken {
            Some(mut command_buffer) => {
                command_buffer.end_render_pass();
                render_context.queue_cbs.push(command_buffer);
            },
            None => {},
        }
    }

    /// Run the device pass: materialize, run each logic pass's body in
    /// declaration order, release after each, close the scope. A pass-body
    /// failure is collected and does not stop the remaining logic passes.
    pub fn execute(
        &self,
        device: &Device,
        transient_resource_cache: &mut TransientResourceCache,
        render_context: &mut RenderContext,
    ) -> (errors: Vec<RendererError>)
        ensures
            errors@.len() <= self.spec_logic_passes().len(),
            final(render_context).resource_table@.len() == 0,
            !final(render_context).spec_has_cb(),
            final(render_context).queue_cbs@.len() == old(render_context).queue_cbs@.len() + 1,
            forall|i: int|
                0 <= i < old(render_context).queue_cbs@.len() ==> final(render_context).queue_cbs@[i] == old(render_context).queue_cbs@[i],
    {
        self.begin(device, transient_resource_cache, render_context);
        let mut errors: Vec<RendererError> = Vec::new();
        let mut j: usize = 0;
        while j < self.logic_passes.len()
            invariant
                0 <= j <= self.spec_logic_passes().len(),
                errors@.len() <= j,
                render_context.queue_cbs == old(render_context).queue_cbs,
                render_context.spec_has_cb(),
            decreases self.spec_logic_passes().len() - j,
        {
            let logic_pass = &self.logic_passes[j];
            match &logic_pass.pass {
                Some(pass) => {
                    match pass.execute(render_context) {
                        Ok(_) => {},
                        Err(e) => {
                            errors.push(e);
                        },
                    }
                },
                None => {},
            }
            logic_pass.release_resources(
                &mut render_context.resource_table,
                transient_resource_cache,
            );
            j = j + 1;
        }
        self.end(render_context);
        errors
    }
}

impl Default for DevicePass {
    fn default() -> (r: Self)
        ensures
            r.spec_logic_passes().len() == 0,
            r.spec_attachments().len() == 0,
    {
        DevicePass::new()
    }
}

} // verus!
