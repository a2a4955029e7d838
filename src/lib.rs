//! Frame orchestration for a deferred renderer: the per-frame state machine
//! that decides which GPU work is recorded, submitted or dropped, the
//! presentation-surface model that is rebuilt on resize, and the completion
//! token chain that links consecutive frames.
pub mod commands;
pub mod laws;
pub mod renderer;
pub mod stage;
pub mod surface;
pub mod sync;
pub mod vertices;

pub use commands::{Command, Frame, Light};
pub use renderer::{Finish, Renderer, Step, Submission};
pub use stage::RenderStage;
pub use surface::{Extent, Projection, RebuildOutcome, SurfaceConfig};
pub use sync::{AcquireOutcome, CompletionToken, FlushOutcome, FlushStep};
pub use vertices::BasicVertex2D;
