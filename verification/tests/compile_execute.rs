use frame_graph::command_buffer::{CommandBuffer, CommandBufferTrait};
use frame_graph::device::{Device, DeviceTrait};
use frame_graph::error::RendererError;
use frame_graph::graph::FrameGraph;
use frame_graph::handle::TypeHandle;
use frame_graph::pass::PassData;
use frame_graph::render_context::RenderContext;
use frame_graph::render_pass::{RenderPass, RenderPassInfo, RenderPassTrait};
use frame_graph::resource::AnyFGResource;
use frame_graph::resource::AnyFGResourceDescriptor;
use frame_graph::resource_node::ResourceNodeHandle;
use frame_graph::resource_table::ResourceTable;
use frame_graph::texture::{Texture, TextureInfo, TextureTrait};
use frame_graph::transient_resource_cache::TransientResourceCache;
use std::ops::Range;
use std::sync::{Arc, Mutex};

type Log = Arc<Mutex<Vec<String>>>;

fn log(events: &Log, what: &str) {
    events.lock().unwrap().push(what.to_string());
}

struct StubTexture;

impl TextureTrait for StubTexture {}

struct StubCommandBuffer {
    events: Log,
}

impl CommandBufferTrait for StubCommandBuffer {
    fn begin_render_pass(&mut self, _render_pass: RenderPass) {
        log(&self.events, "begin_render_pass");
    }

    fn end_render_pass(&mut self) {
        log(&self.events, "end_render_pass");
    }

    fn draw(&mut self, _vertices: Range<u32>, _instances: Range<u32>) {
        log(&self.events, "draw");
    }
}

struct StubRenderPass {
    events: Log,
}

impl RenderPassTrait for StubRenderPass {
    fn do_init(&mut self, _resource_table: &ResourceTable) {
        log(&self.events, "render_pass_init");
    }
}

struct StubDevice {
    events: Log,
}

impl DeviceTrait for StubDevice {
    fn create_command_buffer(&self) -> CommandBuffer {
        CommandBuffer::new(StubCommandBuffer {
            events: self.events.clone(),
        })
    }

    fn create_render_pass(&self, _desc: &RenderPassInfo) -> RenderPass {
        RenderPass::new(StubRenderPass {
            events: self.events.clone(),
        })
    }

    fn create(&self, desc: &AnyFGResourceDescriptor) -> AnyFGResource {
        log(&self.events, "device_create");
        match desc {
            AnyFGResourceDescriptor::Texture(info) => {
                AnyFGResource::OwnedTexture(Texture::new(StubTexture, *info))
            }
            AnyFGResourceDescriptor::SwapChain(_) => {
                panic!("the graph never creates swap chains")
            }
        }
    }

    fn submit(&self, command_buffers: Vec<CommandBuffer>) {
        log(
            &self.events,
            &format!("submit:{}", command_buffers.len()),
        );
    }
}

struct RecordingPass {
    events: Log,
    name: String,
    fail_code: Option<u64>,
}

impl PassData for RecordingPass {
    fn execute(&self, render_context: &mut RenderContext) -> Result<(), RendererError> {
        log(&self.events, &format!("pass:{}", self.name));
        match self.fail_code {
            Some(code) => Err(RendererError::PassFailed(code)),
            None => {
                render_context.draw(0..3, 0..1);
                Ok(())
            }
        }
    }
}

fn new_events() -> Log {
    Arc::new(Mutex::new(Vec::new()))
}

fn texture_desc() -> TextureInfo {
    TextureInfo {
        width: 8,
        height: 8,
    }
}

#[test]
fn lifetime_spans_min_to_max_insert_point() {
    // declared out of insert-point order on purpose
    let mut graph = FrameGraph::default();

    let mut late = graph.create_pass_node_builder(7, "late");
    let x = late.create(&mut graph, "x", texture_desc());
    let xw = late.write(&mut graph, x);
    late.set_pass(Box::new(RecordingPass {
        events: new_events(),
        name: "late".to_string(),
        fail_code: None,
    }));
    late.build(&mut graph);

    let mut early = graph.create_pass_node_builder(2, "early");
    early.read(
        &graph,
        ResourceNodeHandle::<Texture>::new(xw.resource_node_handle(), xw.resource_handle()),
    );
    early.set_pass(Box::new(RecordingPass {
        events: new_events(),
        name: "early".to_string(),
        fail_code: None,
    }));
    early.build(&mut graph);

    graph.compile();

    let info = &graph.get_resource(&x.resource_handle()).info;
    // the "early" pass (declared second, handle 1) has the least insert point
    assert_eq!(info.first_pass_node_handle.unwrap().index(), 1);
    assert_eq!(info.last_pass_node_handle.unwrap().index(), 0);
}

#[test]
fn first_pass_requests_last_pass_releases() {
    let mut graph = FrameGraph::default();

    let mut a = graph.create_pass_node_builder(0, "a");
    let x = a.create(&mut graph, "x", texture_desc());
    let xw = a.write(&mut graph, x);
    a.set_pass(Box::new(RecordingPass {
        events: new_events(),
        name: "a".to_string(),
        fail_code: None,
    }));
    a.build(&mut graph);

    let mut b = graph.create_pass_node_builder(1, "b");
    b.read(
        &graph,
        ResourceNodeHandle::<Texture>::new(xw.resource_node_handle(), xw.resource_handle()),
    );
    b.set_pass(Box::new(RecordingPass {
        events: new_events(),
        name: "b".to_string(),
        fail_code: None,
    }));
    b.build(&mut graph);

    graph.compile();

    let info = &graph.get_resource(&x.resource_handle()).info;
    assert_eq!(info.first_pass_node_handle.unwrap().index(), 0);
    assert_eq!(info.last_pass_node_handle.unwrap().index(), 1);

    let xi = x.resource_handle().index();
    let pass_a = graph.get_pass_node(&TypeHandle::new(0));
    assert!(pass_a
        .resource_request_array
        .iter()
        .any(|h| h.index() == xi));
    assert!(!pass_a
        .resource_release_array
        .iter()
        .any(|h| h.index() == xi));

    let pass_b = graph.get_pass_node(&TypeHandle::new(1));
    assert!(!pass_b
        .resource_request_array
        .iter()
        .any(|h| h.index() == xi));
    assert!(pass_b
        .resource_release_array
        .iter()
        .any(|h| h.index() == xi));
}

#[test]
fn equal_insert_points_keep_declaration_order() {
    let events = new_events();
    let mut graph = FrameGraph::default();

    for name in ["p1", "p2"] {
        let mut builder = graph.create_pass_node_builder(0, name);
        builder.set_pass(Box::new(RecordingPass {
            events: events.clone(),
            name: name.to_string(),
            fail_code: None,
        }));
        builder.build(&mut graph);
    }

    graph.compile();
    let device = Device::new(StubDevice {
        events: events.clone(),
    });
    let mut cache = TransientResourceCache::new();
    let errors = graph.execute(&device, &mut cache).unwrap();
    assert!(errors.is_empty());

    let seen: Vec<String> = events
        .lock()
        .unwrap()
        .iter()
        .filter(|e| e.starts_with("pass:"))
        .cloned()
        .collect();
    assert_eq!(seen, vec!["pass:p1".to_string(), "pass:p2".to_string()]);
}

#[test]
fn failing_pass_does_not_stop_later_passes() {
    let events = new_events();
    let mut graph = FrameGraph::default();

    let mut failing = graph.create_pass_node_builder(0, "failing");
    failing.set_pass(Box::new(RecordingPass {
        events: events.clone(),
        name: "failing".to_string(),
        fail_code: Some(7),
    }));
    failing.build(&mut graph);

    let mut after = graph.create_pass_node_builder(1, "after");
    after.set_pass(Box::new(RecordingPass {
        events: events.clone(),
        name: "after".to_string(),
        fail_code: None,
    }));
    after.build(&mut graph);

    graph.compile();
    let device = Device::new(StubDevice {
        events: events.clone(),
    });
    let mut cache = TransientResourceCache::new();
    let errors = graph.execute(&device, &mut cache).unwrap();

    // only the failing pass's error is surfaced
    assert_eq!(errors.len(), 1);
    assert!(errors[0] == RendererError::PassFailed(7));

    let seen = events.lock().unwrap();
    assert!(seen.contains(&"pass:failing".to_string()));
    assert!(seen.contains(&"pass:after".to_string()));
}

#[test]
fn execute_before_compile_is_rejected() {
    let events = new_events();
    let mut graph = FrameGraph::default();
    let device = Device::new(StubDevice { events });
    let mut cache = TransientResourceCache::new();

    let result = graph.execute(&device, &mut cache);
    assert!(result.is_err());
    assert!(result.unwrap_err() == RendererError::ExecuteBeforeCompile);
}

#[test]
fn compile_with_no_passes_leaves_nothing_to_execute() {
    let events = new_events();
    let mut graph = FrameGraph::default();
    graph.compile();

    let device = Device::new(StubDevice { events });
    let mut cache = TransientResourceCache::new();
    // compiling an empty graph is a no-op, so execution is still rejected
    let result = graph.execute(&device, &mut cache);
    assert!(result.is_err());
}

#[test]
fn released_texture_is_reused_for_equal_descriptor() {
    let events = new_events();
    let device = Device::new(StubDevice {
        events: events.clone(),
    });
    let mut cache = TransientResourceCache::new();
    let mut table = ResourceTable::new();

    let desc = texture_desc();
    let resource = frame_graph::resource::VirtualResource::setup(
        "x",
        TypeHandle::new(0),
        AnyFGResourceDescriptor::Texture(desc),
    );

    // first request: the pool is empty, so the device creates fresh
    table.request_resources(&resource, &device, &mut cache);
    assert_eq!(
        events.lock().unwrap().iter().filter(|e| *e == "device_create").count(),
        1
    );
    assert!(table
        .get_resource::<Texture>(&TypeHandle::new(0))
        .is_some());

    // release returns the owned texture to the pool
    table.release_resource(&TypeHandle::new(0), &mut cache);
    assert!(table
        .get_resource::<Texture>(&TypeHandle::new(0))
        .is_none());

    // an equal descriptor is served from the pool, not created again
    table.request_resources(&resource, &device, &mut cache);
    assert_eq!(
        events.lock().unwrap().iter().filter(|e| *e == "device_create").count(),
        1
    );

    // a non-equal descriptor forces fresh creation
    let other = frame_graph::resource::VirtualResource::setup(
        "y",
        TypeHandle::new(1),
        AnyFGResourceDescriptor::Texture(TextureInfo {
            width: 64,
            height: 64,
        }),
    );
    table.release_resource(&TypeHandle::new(0), &mut cache);
    table.request_resources(&other, &device, &mut cache);
    assert_eq!(
        events.lock().unwrap().iter().filter(|e| *e == "device_create").count(),
        2
    );
}

struct LookupPass {
    handle: ResourceNodeHandle<Texture>,
}

impl PassData for LookupPass {
    fn execute(&self, render_context: &mut RenderContext) -> Result<(), RendererError> {
        let node_ref = frame_graph::pass_node::ResourceNodeRef::new(
            self.handle.resource_node_handle(),
            self.handle.resource_handle(),
        );
        match render_context.get_resource::<Texture>(&node_ref) {
            Some(_) => Ok(()),
            None => Err(RendererError::MissingResource),
        }
    }
}

#[test]
fn missing_resource_is_an_explicit_error() {
    let events = new_events();
    let mut graph = FrameGraph::default();

    // the pass looks up a resource that no pass requested, so the table
    // holds nothing for it
    let mut builder = graph.create_pass_node_builder(0, "lookup");
    let x = builder.create(&mut graph, "x", texture_desc());
    builder.set_pass(Box::new(LookupPass { handle: x }));
    builder.build(&mut graph);

    graph.compile();
    let device = Device::new(StubDevice { events });
    let mut cache = TransientResourceCache::new();
    let errors = graph.execute(&device, &mut cache).unwrap();
    assert_eq!(errors.len(), 1);
    assert!(errors[0] == RendererError::MissingResource);
}

#[test]
fn each_device_pass_submits_one_command_buffer() {
    let events = new_events();
    let mut graph = FrameGraph::default();

    for (ip, name) in [(0usize, "a"), (1usize, "b")] {
        let mut builder = graph.create_pass_node_builder(ip, name);
        builder.set_pass(Box::new(RecordingPass {
            events: events.clone(),
            name: name.to_string(),
            fail_code: None,
        }));
        builder.build(&mut graph);
    }

    graph.compile();
    let device = Device::new(StubDevice {
        events: events.clone(),
    });
    let mut cache = TransientResourceCache::new();
    graph.execute(&device, &mut cache).unwrap();

    let seen = events.lock().unwrap();
    // one device pass per pass node, each with its own command buffer
    assert!(seen.contains(&"submit:2".to_string()));
}
