//! The stages of one frame and the table of legal transitions between them.
use vstd::prelude::*;

verus! {

/// Where the orchestrator stands within the current frame.
#[derive(Clone, Copy, PartialEq, Eq, Structural, Debug)]
pub enum RenderStage {
    /// No frame in progress.
    Stopped,
    /// Geometry of the frame is being recorded.
    Recording,
    /// The ambient pass has been recorded; lights may follow.
    AmbientDone,
    /// At least one point or directional light has been recorded.
    LightingDone,
    /// The presentation surface is stale and must be rebuilt.
    ResizePending,
}

/// The operations of the frame protocol, as the transition table names them.
pub enum CallKind {
    Start,
    Draw,
    Ambient,
    Directional,
    Point,
    Finish,
    Resize,
}

impl RenderStage {
    /// A stage in which a frame is being recorded.
    pub open spec fn in_frame(self) -> bool {
        self is Recording || self is AmbientDone || self is LightingDone
    }

    /// A stage in which light passes may be recorded.
    pub open spec fn lighting_open(self) -> bool {
        self is AmbientDone || self is LightingDone
    }
}

/// Whether `call` is legal in stage `s`.
pub open spec fn allowed(s: RenderStage, call: CallKind) -> bool {
    match call {
        CallKind::Start => s is Stopped,
        CallKind::Draw => s is Recording,
        CallKind::Ambient => s is Recording || s is AmbientDone,
        CallKind::Directional => s.lighting_open(),
        CallKind::Point => s.lighting_open(),
        CallKind::Finish => s is LightingDone,
        CallKind::Resize => true,
    }
}

/// The stage that follows `call` in stage `s`: every disallowed call ends in
/// `Stopped`, a resize notification always ends in `ResizePending`.
pub open spec fn next_stage(s: RenderStage, call: CallKind) -> RenderStage {
    match call {
        CallKind::Resize => RenderStage::ResizePending,
        _ => if !allowed(s, call) {
            RenderStage::Stopped
        } else {
            match call {
                CallKind::Start => RenderStage::Recording,
                CallKind::Draw => RenderStage::Recording,
                CallKind::Ambient => RenderStage::AmbientDone,
                CallKind::Finish => RenderStage::Stopped,
                _ => RenderStage::LightingDone,
            }
        },
    }
}

} // verus!
