use vstd::prelude::*;

verus! {

/// Failures surfaced by the frame graph.
///
/// Pass-body failures are recovered locally: the failing pass's outputs are
/// not produced this frame and the remaining passes continue. Contract
/// violations stop the frame instead of silently corrupting state.
#[derive(Debug, Clone, Copy, PartialEq, Eq, Structural)]
pub enum RendererError {
    /// `execute` was called before `compile` filled the device-pass list.
    ExecuteBeforeCompile,
    /// A board or table lookup found nothing for this frame.
    MissingResource,
    /// A pass body reported failure; the code is chosen by the pass author.
    PassFailed(u64),
}

} // verus!
