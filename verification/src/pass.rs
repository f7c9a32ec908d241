use crate::error::RendererError;
use crate::render_context::RenderContext;
use vstd::prelude::*;

verus! {

/// An externally authored pass body. Its `execute` hook runs once during
/// execution and may fail; the failure is isolated to this pass and never
/// aborts the frame.
///
/// The contract on `execute` is the pass-authoring discipline: a body records
/// work through the context (draws, resource lookups) but leaves the frame's
/// submission queue alone and neither steals nor replaces the command buffer
/// that is currently recording.
pub trait PassData: Send + Sync + 'static {
    fn execute(&self, render_context: &mut RenderContext) -> (r: Result<(), RendererError>)
        ensures
            final(render_context).queue_cbs == old(render_context).queue_cbs,
            final(render_context).spec_has_cb() == old(render_context).spec_has_cb(),
    ;
}

/// A pass body stored behind a pass node.
pub type DynPass = Box<dyn PassData>;

/// The pass body attached by the fallback camera-driver pass: it declares
/// its output and succeeds without drawing.
pub struct CameraDriverPassData {

}

impl PassData for CameraDriverPassData {
    fn execute(&self, _render_context: &mut RenderContext) -> Result<(), RendererError> {
        Ok(())
    }
}

} // verus!
