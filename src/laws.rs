//! Properties of the frame protocol that hold over every sequence of calls.
use vstd::prelude::*;

use crate::commands::{FrameView, Light};
use crate::renderer::{Call, RendererView, Step};
use crate::stage::{allowed, next_stage};
use crate::surface::{Extent, Projection, RebuildOutcome, SurfaceConfig};

verus! {

/// Running `calls` and then `call` is running `calls.push(call)`.
pub proof fn lemma_run_push<G, P, D>(
    v: RendererView<G, P, D>,
    calls: Seq<Call<G, P, D>>,
    call: Call<G, P, D>,
)
    ensures
        v.run(calls.push(call)) == v.run(calls).step(call),
{
    assert(calls.push(call).drop_last() =~= calls);
}

/// A single call keeps the state well formed and moves the stage as the
/// transition table says. A disallowed call, other than a resize
/// notification, leaves the renderer `Stopped` with no commands and submits
/// nothing.
pub proof fn step_follows_table<G, P, D>(v: RendererView<G, P, D>, call: Call<G, P, D>)
    requires
        v.wf(),
    ensures
        v.step(call).wf(),
        v.step(call).stage == next_stage(v.stage, call.kind()),
        !allowed(v.stage, call.kind()) ==> {
            &&& v.step(call).stage is Stopped
            &&& v.step(call).frame is None
            &&& v.step(call).submitted == v.submitted
        },
{
}

/// Every state reached by a sequence of calls is well formed.
pub proof fn lemma_run_wf<G, P, D>(v: RendererView<G, P, D>, calls: Seq<Call<G, P, D>>)
    requires
        v.wf(),
    ensures
        v.run(calls).wf(),
    decreases calls.len(),
{
    if calls.len() > 0 {
        lemma_run_wf(v, calls.drop_last());
        step_follows_table(v.run(calls.drop_last()), calls.last());
    }
}

/// The `i`-th call of a sequence moves the stage as the transition table
/// says.
pub proof fn lemma_run_step_at<G, P, D>(
    v: RendererView<G, P, D>,
    calls: Seq<Call<G, P, D>>,
    i: int,
)
    requires
        v.wf(),
        0 <= i < calls.len(),
    ensures
        ({
            let before = v.run(calls.take(i));
            let after = v.run(calls.take(i + 1));
            &&& before.wf()
            &&& after.stage == next_stage(before.stage, calls[i].kind())
            &&& !allowed(before.stage, calls[i].kind()) ==> after.stage is Stopped
                && after.frame is None
        }),
{
    assert(calls.take(i + 1) =~= calls.take(i).push(calls[i]));
    lemma_run_push(v, calls.take(i), calls[i]);
    lemma_run_wf(v, calls.take(i));
    step_follows_table(v.run(calls.take(i)), calls[i]);
}

/// Along any sequence of calls every state is well formed, and each call
/// moves the stage as the transition table says; each disallowed call leaves
/// the renderer `Stopped` with no commands.
pub proof fn runs_follow_table<G, P, D>(v: RendererView<G, P, D>, calls: Seq<Call<G, P, D>>)
    requires
        v.wf(),
    ensures
        v.run(calls).wf(),
        forall|i: int|
            0 <= i < calls.len() ==> {
                let before = #[trigger] v.run(calls.take(i));
                let after = v.run(calls.take(i + 1));
                &&& before.wf()
                &&& after.stage == next_stage(before.stage, calls[i].kind())
                &&& !allowed(before.stage, calls[i].kind()) ==> after.stage is Stopped
                    && after.frame is None
            },
{
    lemma_run_wf(v, calls);
    assert forall|i: int| 0 <= i < calls.len() implies {
        let before = #[trigger] v.run(calls.take(i));
        let after = v.run(calls.take(i + 1));
        &&& before.wf()
        &&& after.stage == next_stage(before.stage, calls[i].kind())
        &&& !allowed(before.stage, calls[i].kind()) ==> after.stage is Stopped
            && after.frame is None
    } by {
        lemma_run_step_at(v, calls, i);
    }
}

/// Once a frame's ambient pass is recorded, a second ambient call changes
/// nothing at all and is reported as such.
pub proof fn second_ambient_is_noop<G, P, D>(v: RendererView<G, P, D>)
    requires
        v.wf(),
    ensures
        v.step(Call::Ambient).stage is AmbientDone ==> {
            let once = v.step(Call::Ambient);
            &&& once.step(Call::Ambient) == once
            &&& once.step_result(Call::Ambient) == Step::Unchanged
        },
{
}

/// Light calls made while lighting is open append their lights, in order,
/// to the frame's lights; after at least one the stage is `LightingDone`.
pub proof fn lemma_run_lights<G, P, D>(v: RendererView<G, P, D>, lights: Seq<Light<P, D>>)
    requires
        v.wf(),
        v.stage.lighting_open(),
    ensures
        v.run(RendererView::light_calls(lights)) == (if lights.len() == 0 {
            v
        } else {
            RendererView {
                stage: crate::stage::RenderStage::LightingDone,
                frame: Some(
                    FrameView {
                        geometry: v.frame->0.geometry,
                        lights: v.frame->0.lights + lights,
                    },
                ),
                ..v
            }
        }),
    decreases lights.len(),
{
    let calls = RendererView::<G, P, D>::light_calls(lights);
    if lights.len() == 0 {
        assert(calls.len() == 0);
    } else {
        let rest = lights.drop_last();
        lemma_run_lights(v, rest);
        assert(calls.drop_last() =~= RendererView::<G, P, D>::light_calls(rest));
        assert(v.frame->0.lights + rest.push(lights.last()) =~= (v.frame->0.lights + rest).push(
            lights.last(),
        ));
        assert(rest.push(lights.last()) =~= lights);
        if rest.len() == 0 {
            assert(v.frame->0.lights + rest =~= v.frame->0.lights);
        }
    }
}

/// Light passes are blended additively onto the final image (source and
/// destination factors 1 for color and alpha), so the lit image depends on
/// the frame's geometry and on the multiset of its lights, not on the order
/// of the light calls. Any two orders of the same lights leave the same
/// stage, the same image, the same geometry and the same multiset of lights,
/// and submit nothing.
pub proof fn light_order_is_irrelevant<G, P, D>(
    v: RendererView<G, P, D>,
    lights1: Seq<Light<P, D>>,
    lights2: Seq<Light<P, D>>,
)
    requires
        v.wf(),
        v.stage.lighting_open(),
        lights1.to_multiset() == lights2.to_multiset(),
    ensures
        ({
            let a = v.run(RendererView::light_calls(lights1));
            let b = v.run(RendererView::light_calls(lights2));
            &&& a.stage == b.stage
            &&& a.image_index == b.image_index
            &&& a.submitted == b.submitted
            &&& a.frame->0.geometry == b.frame->0.geometry
            &&& a.frame->0.lights.to_multiset() == b.frame->0.lights.to_multiset()
        }),
{
    lemma_run_lights(v, lights1);
    lemma_run_lights(v, lights2);
    vstd::seq_lib::lemma_multiset_commutative(v.frame->0.lights, lights1);
    vstd::seq_lib::lemma_multiset_commutative(v.frame->0.lights, lights2);
    vstd::seq_lib::to_multiset_len(lights1);
    vstd::seq_lib::to_multiset_len(lights2);
}

/// Calls that include no `finish` submit nothing.
pub proof fn lemma_no_finish_no_submission<G, P, D>(
    v: RendererView<G, P, D>,
    calls: Seq<Call<G, P, D>>,
)
    requires
        forall|i: int| 0 <= i < calls.len() ==> !(#[trigger] calls[i] is Finish),
    ensures
        v.run(calls).submitted == v.submitted,
    decreases calls.len(),
{
    if calls.len() > 0 {
        lemma_no_finish_no_submission(v, calls.drop_last());
    }
}

/// A second `start` before any `finish` abandons the first frame: nothing
/// is submitted, and whatever follows holds no command of it. When the
/// first frame was still in progress, the second `start` leaves the
/// renderer `Stopped` with no commands.
pub proof fn restart_drops_frame<G, P, D>(
    v: RendererView<G, P, D>,
    between: Seq<Call<G, P, D>>,
)
    requires
        v.wf(),
        forall|i: int| 0 <= i < between.len() ==> !(#[trigger] between[i] is Finish),
    ensures
        ({
            let first = seq![Call::Start] + between;
            let w = v.run(first.push(Call::Start));
            &&& w.submitted == v.submitted
            &&& w.frame is None || w.frame == Some(FrameView::<G, P, D>::empty())
            &&& v.run(first).stage.in_frame() ==> w.stage is Stopped && w.frame is None
        }),
{
    let first = seq![Call::<G, P, D>::Start] + between;
    let all = first.push(Call::Start);
    assert forall|i: int| 0 <= i < all.len() implies !(#[trigger] all[i] is Finish) by {
        if 0 < i < all.len() - 1 {
            assert(all[i] == between[i - 1]);
        }
    }
    lemma_no_finish_no_submission(v, all);
    lemma_run_push(v, first, Call::Start);
}

/// A light call before the frame's ambient pass discards the frame: the
/// renderer is `Stopped` with no commands, no lighting command is kept, and
/// a following `finish` submits nothing.
pub proof fn light_before_ambient_resets<G, P, D>(v: RendererView<G, P, D>, light: Light<P, D>)
    requires
        v.wf(),
        !v.stage.lighting_open(),
    ensures
        ({
            let w = v.step(Call::Light(light));
            &&& w.stage is Stopped
            &&& w.frame is None
            &&& w.submitted == v.submitted
            &&& w.step(Call::Finish).submitted == v.submitted
            &&& v.step_result(Call::Light(light)) is Dropped || v.step_result(
                Call::Light(light),
            ) is Rebuild
        }),
{
}

/// A resize to an unsupported extent leaves the surface as it was and the
/// rebuild pending; a later rebuild to a supported extent replaces the
/// surface, with projection bounds proportional to the new extent (one
/// unit per pixel on each side of the centre), and returns to `Stopped`.
pub proof fn unsupported_resize_keeps_surface<G, P, D>(
    v: RendererView<G, P, D>,
    extent: Extent,
    image_count: u32,
)
    requires
        v.wf(),
    ensures
        ({
            let a = v.step(Call::Resize).rebuilt(RebuildOutcome::ExtentNotSupported);
            let b = a.rebuilt(RebuildOutcome::Rebuilt { extent, image_count });
            &&& a.wf()
            &&& a.surface == v.surface
            &&& a.stage is ResizePending
            &&& b.wf()
            &&& b.surface == SurfaceConfig::spec_new(extent, image_count)
            &&& b.surface.projection == Projection::spec_for_extent(extent)
            &&& b.surface.projection.right == extent.width
            &&& b.surface.projection.top == extent.height
            &&& b.stage is Stopped
        }),
{
}

} // verus!
