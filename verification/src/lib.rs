//! A frame graph: a per-frame dependency graph of GPU render passes and the
//! virtual resources they read and write, compiled into an ordered,
//! resource-lifetime-aware execution plan.
//!
//! Rendering code declares what a pass produces and consumes by name and
//! order; the graph derives when each backing resource must be allocated,
//! reused from a pool, and released.

pub mod color_attachment;
pub mod command_buffer;
pub mod device;
pub mod error;
pub mod handle;
pub mod pass;
pub mod device_pass;
pub mod graph;
pub mod pass_node;
pub mod pass_node_builder;
pub mod render_context;
pub mod resource_board;
pub mod render_pass;
pub mod resource;
pub mod resource_node;
pub mod resource_table;
pub mod swap_chain;
pub mod texture;
pub mod texture_view;
pub mod transient_resource_cache;
