use frame_graph::graph::FrameGraph;
use frame_graph::handle::TypeHandle;
use frame_graph::resource::{AnyFGResourceDescriptor, ImportedResource, ResourceState};
use frame_graph::resource_node::ResourceNodeHandle;
use frame_graph::swap_chain::{SwapChain, SwapChainInfo, SwapChainTrait};
use frame_graph::texture::TextureInfo;
use frame_graph::texture_view::{TextureView, TextureViewTrait};
use frame_graph::transient_resource_cache::TransientResourceCache;
use std::sync::Arc;

struct StubTextureView;

impl TextureViewTrait for StubTextureView {}

struct StubSwapChain;

impl SwapChainTrait for StubSwapChain {
    fn get_texture_view(&self) -> TextureView {
        TextureView::new(StubTextureView)
    }
}

#[test]
fn test() {
    let a = 5;

    assert_eq!(a, 5)
}

#[test]
fn version_starts_at_zero_and_counts_writes() {
    let mut graph = FrameGraph::default();
    let mut builder = graph.create_pass_node_builder(0, "writer");
    let x = builder.create(&mut graph, "x", TextureInfo { width: 4, height: 4 });
    assert_eq!(graph.get_resource(&x.resource_handle()).info.version(), 0);

    let first_ref = builder.write(&mut graph, x);
    assert_eq!(graph.get_resource(&x.resource_handle()).info.version(), 1);

    let second_handle: ResourceNodeHandle<frame_graph::texture::Texture> =
        ResourceNodeHandle::new(first_ref.resource_node_handle(), first_ref.resource_handle());
    builder.write(&mut graph, second_handle);
    assert_eq!(graph.get_resource(&x.resource_handle()).info.version(), 2);
    builder.build(&mut graph);
}

#[test]
fn read_twice_is_idempotent() {
    let mut graph = FrameGraph::default();
    let mut builder = graph.create_pass_node_builder(0, "reader");
    let x = builder.create(&mut graph, "x", TextureInfo { width: 4, height: 4 });

    let r1 = builder.read(&graph, x);
    let r2 = builder.read(&graph, x);
    assert_eq!(
        r1.resource_node_handle().index(),
        r2.resource_node_handle().index()
    );
    assert_eq!(r1.resource_handle().index(), r2.resource_handle().index());

    builder.build(&mut graph);
    let pass = graph.get_pass_node(&TypeHandle::new(0));
    assert_eq!(pass.reads.len(), 1);
    // reads never bump the version
    assert_eq!(graph.get_resource(&x.resource_handle()).info.version(), 0);
}

#[test]
fn write_allocates_fresh_node_with_writer_recorded() {
    let mut graph = FrameGraph::default();
    let mut builder = graph.create_pass_node_builder(0, "writer");
    let x = builder.create(&mut graph, "x", TextureInfo { width: 4, height: 4 });

    let w = builder.write(&mut graph, x);
    assert_ne!(
        w.resource_node_handle().index(),
        x.resource_node_handle().index()
    );
    let node = graph.get_resource_node(&w.resource_node_handle());
    assert!(node.writer_handle.is_some());
    assert_eq!(node.writer_handle.unwrap().index(), 0);
    assert_eq!(node.version, 1);
    // the original node is untouched
    let old_node = graph.get_resource_node(&x.resource_node_handle());
    assert!(old_node.writer_handle.is_none());
    assert_eq!(old_node.version, 0);
    builder.build(&mut graph);
}

#[test]
fn imported_resource_is_on_board_until_reset() {
    let mut graph = FrameGraph::default();
    let swap_chain = Arc::new(SwapChain::new(StubSwapChain));
    let handle = graph.import(
        "target",
        swap_chain,
        SwapChainInfo::new("target".to_string()),
    );

    let raw = graph.get_resource_board().get("target").unwrap();
    assert_eq!(
        raw.resource_node_handle().index(),
        handle.resource_node_handle().index()
    );
    assert_eq!(
        raw.resource_handle().index(),
        handle.resource_handle().index()
    );

    let builder = graph.create_pass_node_builder(0, "probe");
    let looked_up = builder.read_from_board::<SwapChain>(&graph, "target");
    assert!(looked_up.is_some());
    assert!(builder
        .read_from_board::<SwapChain>(&graph, "absent")
        .is_none());
    builder.build(&mut graph);

    graph.reset();
    assert!(graph.get_resource_board().get("target").is_none());
}

#[test]
fn import_records_held_reference() {
    let mut graph = FrameGraph::default();
    let swap_chain = Arc::new(SwapChain::new(StubSwapChain));
    let before = Arc::strong_count(&swap_chain);
    let handle = graph.import(
        "target",
        swap_chain.clone(),
        SwapChainInfo::new("target".to_string()),
    );
    assert_eq!(Arc::strong_count(&swap_chain), before + 1);
    match &graph.get_resource(&handle.resource_handle()).state {
        ResourceState::Imported(state) => {
            match &state.resource {
                ImportedResource::SwapChain(held) => {
                    assert!(Arc::ptr_eq(held, &swap_chain));
                }
                ImportedResource::Texture(_) => panic!("imported as the wrong kind"),
            }
            match &state.desc {
                AnyFGResourceDescriptor::SwapChain(info) => assert_eq!(info.name, "target"),
                AnyFGResourceDescriptor::Texture(_) => panic!("descriptor of the wrong kind"),
            }
        }
        ResourceState::Setup(_) => panic!("an import must not be in setup state"),
    }
}

#[test]
fn cache_pools_by_descriptor_equality() {
    let mut cache = TransientResourceCache::new();
    let desc = TextureInfo {
        width: 16,
        height: 16,
    };
    assert!(cache.get_image(&desc).is_none());

    let texture = frame_graph::texture::Texture::new(StubTexture, desc);
    cache.insert_image(desc, texture);

    let other = TextureInfo {
        width: 32,
        height: 16,
    };
    // a non-equal descriptor forces fresh creation: the pool has nothing for it
    assert!(cache.get_image(&other).is_none());
    // an equal descriptor is served from the pool
    let reused = cache.get_image(&desc).unwrap();
    assert_eq!(*reused.get_desc(), desc);
    // the pooled texture is gone once taken
    assert!(cache.get_image(&desc).is_none());
}

struct StubTexture;

impl frame_graph::texture::TextureTrait for StubTexture {}

#[test]
fn later_import_shadows_earlier_board_entry() {
    let mut graph = FrameGraph::default();
    let first = graph.import(
        "target",
        Arc::new(SwapChain::new(StubSwapChain)),
        SwapChainInfo::new("target".to_string()),
    );
    let second = graph.import(
        "target",
        Arc::new(SwapChain::new(StubSwapChain)),
        SwapChainInfo::new("target".to_string()),
    );
    assert_ne!(
        first.resource_handle().index(),
        second.resource_handle().index()
    );
    let raw = graph.get_resource_board().get("target").unwrap();
    assert_eq!(
        raw.resource_handle().index(),
        second.resource_handle().index()
    );
}

#[test]
fn swap_chain_hands_out_a_texture_view() {
    let swap_chain = SwapChain::new(StubSwapChain);
    // the erased surface still yields a view through the backend contract
    let _view: TextureView = swap_chain.get_texture_view();
}
