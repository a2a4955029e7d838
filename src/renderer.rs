//! The frame orchestrator: it enforces the legal order of calls within a
//! frame, owns the commands of the frame in progress, tracks the
//! presentation surface and the completion token, and tells its driver what
//! GPU work to perform next.
use vstd::prelude::*;

use crate::commands::{Frame, FrameView, Light};
use crate::stage::{allowed, next_stage, CallKind, RenderStage};
use crate::surface::{Extent, RebuildOutcome, SurfaceConfig};
use crate::sync::{AcquireOutcome, CompletionToken, FlushOutcome, FlushStep};

verus! {

/// A call of the frame protocol, with its argument.
pub enum Call<G, P, D> {
    Start,
    Draw(G),
    Ambient,
    Light(Light<P, D>),
    Finish,
    Resize,
}

impl<G, P, D> Call<G, P, D> {
    pub open spec fn kind(self) -> CallKind {
        match self {
            Call::Start => CallKind::Start,
            Call::Draw(_) => CallKind::Draw,
            Call::Ambient => CallKind::Ambient,
            Call::Light(Light::Point(_)) => CallKind::Point,
            Call::Light(Light::Directional(_)) => CallKind::Directional,
            Call::Finish => CallKind::Finish,
            Call::Resize => CallKind::Resize,
        }
    }
}

/// What the driver does after a call.
#[derive(Clone, Copy, PartialEq, Eq, Structural, Debug)]
pub enum Step {
    /// The call was recorded; nothing else to do.
    Recorded,
    /// A frame has begun: acquire the next image and report it with
    /// `image_acquired`.
    AcquireImage,
    /// A repeated ambient call, ignored.
    Unchanged,
    /// The call was out of order: the frame in progress was discarded.
    Dropped,
    /// The presentation surface is stale: rebuild it and report with
    /// `rebuilt`. Any frame in progress was discarded.
    Rebuild,
}

/// A finished frame, ready to be replayed into one command buffer and
/// presented on image `image_index`.
#[derive(Debug)]
pub struct Submission<G, P, D> {
    pub image_index: u32,
    pub frame: Frame<G, P, D>,
}

/// What `finish` hands back.
#[derive(Debug)]
pub enum Finish<G, P, D> {
    /// The frame to submit and present.
    Submit(Submission<G, P, D>),
    /// The call was out of order: the frame in progress was discarded.
    Dropped,
    /// The presentation surface is stale: rebuild it. Nothing is submitted.
    Rebuild,
}

/// The mathematical state of a `Renderer`.
pub struct RendererView<G, P, D> {
    pub stage: RenderStage,
    /// The commands of the frame in progress.
    pub frame: Option<FrameView<G, P, D>>,
    /// The image the frame in progress will be presented on, once acquired.
    pub image_index: Option<u32>,
    pub surface: SurfaceConfig,
    pub token: CompletionToken,
    /// Every frame handed out for submission so far, oldest first.
    pub submitted: Seq<FrameView<G, P, D>>,
}

impl<G, P, D> RendererView<G, P, D> {
    /// The state of a renderer with no frame in progress and nothing
    /// submitted yet.
    pub open spec fn initial(surface: SurfaceConfig) -> Self {
        RendererView {
            stage: RenderStage::Stopped,
            frame: None,
            image_index: None,
            surface,
            token: CompletionToken::Satisfied,
            submitted: Seq::empty(),
        }
    }

    /// Commands exist exactly while a frame is in progress; the lighting
    /// subpass holds a light exactly when the stage says so; an acquired
    /// image belongs to the current surface.
    pub open spec fn wf(self) -> bool {
        &&& (self.frame is Some <==> self.stage.in_frame())
        &&& (self.image_index is Some ==> self.stage.in_frame() && self.image_index->0
            < self.surface.image_count)
        &&& (self.stage is Recording || self.stage is AmbientDone) ==> self.frame->0.lights.len()
            == 0
        &&& self.stage is LightingDone ==> self.frame->0.lights.len() > 0
    }

    /// The state after the frame in progress is discarded.
    pub open spec fn dropped(self) -> Self {
        RendererView { stage: RenderStage::Stopped, frame: None, image_index: None, ..self }
    }

    /// Whether `finish` hands a frame out for submission.
    pub open spec fn submits(self) -> bool {
        self.stage is LightingDone && self.image_index is Some
    }

    /// The state after `call`.
    pub open spec fn step(self, call: Call<G, P, D>) -> Self {
        let stage = next_stage(self.stage, call.kind());
        let frame = if !allowed(self.stage, call.kind()) || call is Finish || call is Resize {
            None
        } else {
            match call {
                Call::Start => Some(FrameView::empty()),
                Call::Draw(g) => Some(
                    FrameView {
                        geometry: self.frame->0.geometry.push(g),
                        lights: self.frame->0.lights,
                    },
                ),
                Call::Light(l) => Some(
                    FrameView {
                        geometry: self.frame->0.geometry,
                        lights: self.frame->0.lights.push(l),
                    },
                ),
                _ => self.frame,
            }
        };
        RendererView {
            stage,
            frame,
            image_index: if stage.in_frame() && !(call is Start) {
                self.image_index
            } else {
                None
            },
            submitted: if call is Finish && self.submits() {
                self.submitted.push(self.frame->0)
            } else {
                self.submitted
            },
            ..self
        }
    }

    /// The state after `calls`, made in order.
    pub open spec fn run(self, calls: Seq<Call<G, P, D>>) -> Self
        decreases calls.len(),
    {
        if calls.len() == 0 {
            self
        } else {
            self.run(calls.drop_last()).step(calls.last())
        }
    }

    /// One light call for each light of `lights`, in order.
    pub open spec fn light_calls(lights: Seq<Light<P, D>>) -> Seq<Call<G, P, D>> {
        lights.map_values(|l: Light<P, D>| Call::<G, P, D>::Light(l))
    }

    /// What the driver is told after `call`.
    pub open spec fn step_result(self, call: Call<G, P, D>) -> Step {
        if call is Resize || self.stage is ResizePending {
            Step::Rebuild
        } else if !allowed(self.stage, call.kind()) || (call is Finish && !self.submits()) {
            Step::Dropped
        } else if call is Start {
            Step::AcquireImage
        } else if call is Ambient && self.stage is AmbientDone {
            Step::Unchanged
        } else {
            Step::Recorded
        }
    }

    /// Whether image acquisition is awaited: a frame has begun and has no
    /// image yet.
    pub open spec fn awaits_image(self) -> bool {
        self.stage is Recording && self.image_index is None
    }

    /// Whether `outcome` gives an image that the frame can be presented on.
    pub open spec fn usable(self, outcome: AcquireOutcome) -> bool {
        &&& outcome is Ready
        &&& !outcome->suboptimal
        &&& outcome->image_index < self.surface.image_count
    }

    /// The state after image acquisition came to `outcome`. A stale
    /// surface counts as a resize notification; a report that no frame
    /// awaits is out of order.
    pub open spec fn acquired(self, outcome: AcquireOutcome) -> Self {
        if self.awaits_image() {
            if self.usable(outcome) {
                RendererView { image_index: Some(outcome->image_index), ..self }
            } else {
                self.step(Call::Resize)
            }
        } else {
            self.dropped()
        }
    }

    pub open spec fn acquired_result(self, outcome: AcquireOutcome) -> Step {
        if self.awaits_image() {
            if self.usable(outcome) {
                Step::Recorded
            } else {
                Step::Rebuild
            }
        } else if self.stage is ResizePending {
            Step::Rebuild
        } else {
            Step::Dropped
        }
    }

    /// The state after a rebuild of the surface came to `outcome`: a new
    /// surface discards any frame in progress; an unsupported extent
    /// changes nothing.
    pub open spec fn rebuilt(self, outcome: RebuildOutcome) -> Self {
        match outcome {
            RebuildOutcome::Rebuilt { .. } => RendererView {
                surface: self.surface.spec_rebuilt(outcome),
                ..self.dropped()
            },
            RebuildOutcome::ExtentNotSupported => self,
        }
    }

    /// The state after a flush came to `outcome`: the token follows the
    /// outcome, and an out-of-date surface counts as a resize notification.
    pub open spec fn flushed(self, outcome: FlushOutcome) -> Self {
        let v = if outcome is OutOfDate {
            self.step(Call::Resize)
        } else {
            self
        };
        RendererView { token: outcome.token(), ..v }
    }
}

/// The frame orchestrator. `G` is what a geometry draw carries (an object's
/// transform and vertices), `P` and `D` what a point and a directional light
/// carry; the orchestrator moves them, never reads them.
pub struct Renderer<G, P, D> {
    stage: RenderStage,
    frame: Option<Frame<G, P, D>>,
    image_index: Option<u32>,
    surface: SurfaceConfig,
    token: CompletionToken,
    submitted: Ghost<Seq<FrameView<G, P, D>>>,
}

impl<G, P, D> View for Renderer<G, P, D> {
    type V = RendererView<G, P, D>;

    closed spec fn view(&self) -> RendererView<G, P, D> {
        RendererView {
            stage: self.stage,
            frame: match self.frame {
                Some(f) => Some(f@),
                None => None,
            },
            image_index: self.image_index,
            surface: self.surface,
            token: self.token,
            submitted: self.submitted@,
        }
    }
}

impl<G, P, D> Renderer<G, P, D> {
    /// The renderer's state is well formed; every operation keeps it so.
    pub open spec fn wf(&self) -> bool {
        self@.wf()
    }

    pub fn new(extent: Extent, image_count: u32) -> (r: Self)
        ensures
            r@ == RendererView::<G, P, D>::initial(SurfaceConfig::spec_new(extent, image_count)),
            r.wf(),
    {
        Renderer {
            stage: RenderStage::Stopped,
            frame: None,
            image_index: None,
            surface: SurfaceConfig::new(extent, image_count),
            token: CompletionToken::Satisfied,
            submitted: Ghost(Seq::empty()),
        }
    }

    pub fn stage(&self) -> (r: RenderStage)
        ensures
            r == self@.stage,
    {
        self.stage
    }

    pub fn image_index(&self) -> (r: Option<u32>)
        ensures
            r == self@.image_index,
    {
        self.image_index
    }

    pub fn surface(&self) -> (r: SurfaceConfig)
        ensures
            r == self@.surface,
    {
        self.surface
    }

    pub fn token(&self) -> (r: CompletionToken)
        ensures
            r == self@.token,
    {
        self.token
    }

    /// Whether commands of a frame in progress are held.
    pub fn has_frame(&self) -> (r: bool)
        ensures
            r == self@.frame is Some,
    {
        self.frame.is_some()
    }

    fn discard(&mut self)
        requires
            old(self).wf(),
        ensures
            final(self)@ == old(self)@.dropped(),
            final(self).wf(),
    {
        self.stage = RenderStage::Stopped;
        self.frame = None;
        self.image_index = None;
    }

    /// Begins a frame. From `Stopped` an empty recording is opened and the
    /// driver acquires an image; from `ResizePending` the surface is rebuilt
    /// and the renderer returns to `Stopped`; otherwise the frame in progress
    /// is discarded.
    pub fn start(&mut self) -> (r: Step)
        requires
            old(self).wf(),
        ensures
            final(self)@ == old(self)@.step(Call::Start),
            r == old(self)@.step_result(Call::Start),
            final(self).wf(),
    {
        match self.stage {
            RenderStage::Stopped => {
                self.stage = RenderStage::Recording;
                self.frame = Some(Frame::new());
                self.image_index = None;
                Step::AcquireImage
            },
            RenderStage::ResizePending => {
                self.discard();
                Step::Rebuild
            },
            _ => {
                self.discard();
                Step::Dropped
            },
        }
    }

    /// Records one object into the geometry subpass.
    pub fn draw(&mut self, object: G) -> (r: Step)
        requires
            old(self).wf(),
        ensures
            final(self)@ == old(self)@.step(Call::Draw(object)),
            r == old(self)@.step_result(Call::Draw(object)),
            final(self).wf(),
    {
        match self.stage {
            RenderStage::Recording => {
                match &mut self.frame {
                    Some(f) => f.geometry.push(object),
                    None => {},
                }
                Step::Recorded
            },
            RenderStage::ResizePending => {
                self.discard();
                Step::Rebuild
            },
            _ => {
                self.discard();
                Step::Dropped
            },
        }
    }

    /// Moves the frame to its lighting subpass with the ambient pass. A
    /// second call within the same frame changes nothing.
    pub fn ambient(&mut self) -> (r: Step)
        requires
            old(self).wf(),
        ensures
            final(self)@ == old(self)@.step(Call::Ambient),
            r == old(self)@.step_result(Call::Ambient),
            final(self).wf(),
    {
        match self.stage {
            RenderStage::Recording => {
                self.stage = RenderStage::AmbientDone;
                Step::Recorded
            },
            RenderStage::AmbientDone => Step::Unchanged,
            RenderStage::ResizePending => {
                self.discard();
                Step::Rebuild
            },
            _ => {
                self.discard();
                Step::Dropped
            },
        }
    }

    fn light(&mut self, light: Light<P, D>) -> (r: Step)
        requires
            old(self).wf(),
        ensures
            final(self)@ == old(self)@.step(Call::Light(light)),
            r == old(self)@.step_result(Call::Light(light)),
            final(self).wf(),
    {
        match self.stage {
            RenderStage::AmbientDone | RenderStage::LightingDone => {
                match &mut self.frame {
                    Some(f) => f.lights.push(light),
                    None => {},
                }
                self.stage = RenderStage::LightingDone;
                Step::Recorded
            },
            RenderStage::ResizePending => {
                self.discard();
                Step::Rebuild
            },
            _ => {
                self.discard();
                Step::Dropped
            },
        }
    }

    /// Records a point light pass after the ambient pass.
    pub fn point(&mut self, light: P) -> (r: Step)
        requires
            old(self).wf(),
        ensures
            final(self)@ == old(self)@.step(Call::Light(Light::Point(light))),
            r == old(self)@.step_result(Call::Light(Light::Point(light))),
            final(self).wf(),
    {
        self.light(Light::Point(light))
    }

    /// Records a directional light pass after the ambient pass.
    pub fn directional(&mut self, light: D) -> (r: Step)
        requires
            old(self).wf(),
        ensures
            final(self)@ == old(self)@.step(Call::Light(Light::Directional(light))),
            r == old(self)@.step_result(Call::Light(Light::Directional(light))),
            final(self).wf(),
    {
        self.light(Light::Directional(light))
    }

    /// Ends the frame. After at least one light, and with an image
    /// acquired, the frame is handed out for submission, exactly once;
    /// otherwise it is discarded. The renderer is `Stopped` afterwards.
    pub fn finish(&mut self) -> (r: Finish<G, P, D>)
        requires
            old(self).wf(),
        ensures
            final(self)@ == old(self)@.step(Call::Finish),
            r is Submit <==> old(self)@.submits(),
            r is Submit ==> r->Submit_0.image_index == old(self)@.image_index->0
                && r->Submit_0.frame@ == old(self)@.frame->0,
            r is Rebuild <==> old(self)@.stage is ResizePending,
            r is Dropped <==> old(self)@.step_result(Call::Finish) is Dropped,
            final(self).wf(),
    {
        let ghost before = self.submitted@;
        match (self.stage, self.image_index) {
            (RenderStage::LightingDone, Some(image_index)) => {
                let frame = self.frame.take().unwrap();
                self.stage = RenderStage::Stopped;
                self.image_index = None;
                self.submitted = Ghost(before.push(frame@));
                Finish::Submit(Submission { image_index, frame })
            },
            (RenderStage::ResizePending, _) => {
                self.discard();
                Finish::Rebuild
            },
            _ => {
                self.discard();
                Finish::Dropped
            },
        }
    }

    /// A resize notification: whatever frame is in progress is discarded
    /// and the surface must be rebuilt.
    pub fn resize(&mut self) -> (r: Step)
        requires
            old(self).wf(),
        ensures
            final(self)@ == old(self)@.step(Call::Resize),
            r == old(self)@.step_result(Call::Resize),
            final(self).wf(),
    {
        self.stage = RenderStage::ResizePending;
        self.frame = None;
        self.image_index = None;
        Step::Rebuild
    }
    /// Reports the acquisition that `start` asked for. A usable image is
    /// kept for presentation; a suboptimal or out-of-date surface, or an
    /// index the surface does not have, discards the frame and asks for a
    /// rebuild. A report that no frame awaits is out of order.
    pub fn image_acquired(&mut self, outcome: AcquireOutcome) -> (r: Step)
        requires
            old(self).wf(),
        ensures
            final(self)@ == old(self)@.acquired(outcome),
            r == old(self)@.acquired_result(outcome),
            final(self).wf(),
    {
        let awaits = match (self.stage, self.image_index) {
            (RenderStage::Recording, None) => true,
            _ => false,
        };
        if awaits {
            match outcome {
                AcquireOutcome::Ready { image_index, suboptimal } => {
                    if !suboptimal && image_index < self.surface.image_count {
                        self.image_index = Some(image_index);
                        Step::Recorded
                    } else {
                        self.resize()
                    }
                },
                AcquireOutcome::OutOfDate => self.resize(),
            }
        } else {
            let stale = self.stage == RenderStage::ResizePending;
            self.discard();
            if stale {
                Step::Rebuild
            } else {
                Step::Dropped
            }
        }
    }

    /// Reports a rebuild of the presentation surface. A new surface replaces
    /// the old one as a whole and discards any frame in progress; an
    /// unsupported extent leaves everything as it was.
    pub fn rebuilt(&mut self, outcome: RebuildOutcome)
        requires
            old(self).wf(),
        ensures
            final(self)@ == old(self)@.rebuilt(outcome),
            final(self).wf(),
    {
        match outcome {
            RebuildOutcome::Rebuilt { .. } => {
                self.discard();
                self.surface.rebuild(outcome);
            },
            RebuildOutcome::ExtentNotSupported => {},
        }
    }

    /// Reports the flush of a submitted frame and says how the token chain
    /// continues.
    pub fn flushed(&mut self, outcome: FlushOutcome) -> (r: FlushStep)
        requires
            old(self).wf(),
        ensures
            final(self)@ == old(self)@.flushed(outcome),
            r == outcome.step(),
            final(self).wf(),
    {
        match outcome {
            FlushOutcome::Flushed => {
                self.token = CompletionToken::Pending;
                FlushStep::Chain
            },
            FlushOutcome::OutOfDate => {
                self.resize();
                self.token = CompletionToken::Satisfied;
                FlushStep::Rebuild
            },
            FlushOutcome::Failed => {
                self.token = CompletionToken::Satisfied;
                FlushStep::Report
            },
        }
    }

    /// The camera view was replaced: commands recorded against the old view
    /// binding are discarded and the renderer returns to `Stopped`.
    pub fn set_view(&mut self)
        requires
            old(self).wf(),
        ensures
            final(self)@ == old(self)@.dropped(),
            final(self).wf(),
    {
        self.discard();
    }
}

} // verus!
