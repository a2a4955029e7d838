//! Outcomes reported by the GPU side of a frame, and the completion token
//! that chains one frame's GPU work to the next.
use vstd::prelude::*;

verus! {

/// What acquiring the next presentable image came to. A failure of any
/// other kind is fatal and never reaches the orchestrator.
#[derive(Clone, Copy, PartialEq, Eq, Structural, Debug)]
pub enum AcquireOutcome {
    /// Image `image_index` is ready; `suboptimal` when the surface no longer
    /// matches the swapchain exactly.
    Ready { image_index: u32, suboptimal: bool },
    /// The swapchain no longer matches the surface.
    OutOfDate,
}

/// What flushing a submitted frame (execute, present, signal) came to.
#[derive(Clone, Copy, PartialEq, Eq, Structural, Debug)]
pub enum FlushOutcome {
    /// The frame was handed to the GPU; its completion token is the new
    /// previous-frame token.
    Flushed,
    /// The swapchain no longer matches the surface.
    OutOfDate,
    /// Any other failure: the frame is skipped, not retried.
    Failed,
}

/// The token the next frame waits on before its own work executes.
#[derive(Clone, Copy, PartialEq, Eq, Structural, Debug)]
pub enum CompletionToken {
    /// An already satisfied placeholder: the GPU is idle as far as the next
    /// frame is concerned.
    Satisfied,
    /// The completion of the last flushed frame.
    Pending,
}

/// What the driver does after reporting a flush.
#[derive(Clone, Copy, PartialEq, Eq, Structural, Debug)]
pub enum FlushStep {
    /// Keep the flushed frame's completion as the previous-frame token.
    Chain,
    /// Reset the token chain and rebuild the presentation surface.
    Rebuild,
    /// Reset the token chain and report the failure.
    Report,
}

impl FlushOutcome {
    /// The token that follows a flush with this outcome.
    pub open spec fn token(self) -> CompletionToken {
        if self is Flushed {
            CompletionToken::Pending
        } else {
            CompletionToken::Satisfied
        }
    }

    /// The step the driver takes after a flush with this outcome.
    pub open spec fn step(self) -> FlushStep {
        match self {
            FlushOutcome::Flushed => FlushStep::Chain,
            FlushOutcome::OutOfDate => FlushStep::Rebuild,
            FlushOutcome::Failed => FlushStep::Report,
        }
    }
}

} // verus!
