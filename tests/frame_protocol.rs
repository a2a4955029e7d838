use deferred_renderer::{
    AcquireOutcome, Command, CompletionToken, Extent, Finish, FlushOutcome, FlushStep, Light,
    RebuildOutcome, RenderStage, Renderer, Step, Submission,
};

type R = Renderer<&'static str, u32, u64>;

fn renderer() -> R {
    Renderer::new(Extent { width: 800, height: 600 }, 3)
}

fn begin(r: &mut R, image_index: u32) {
    assert_eq!(r.start(), Step::AcquireImage);
    let ready = AcquireOutcome::Ready { image_index, suboptimal: false };
    assert_eq!(r.image_acquired(ready), Step::Recorded);
}

fn submission(f: Finish<&'static str, u32, u64>) -> Submission<&'static str, u32, u64> {
    match f {
        Finish::Submit(s) => s,
        other => panic!("expected a submission, got {:?}", other),
    }
}

#[test]
fn new_renderer_is_idle() {
    let r = renderer();
    assert_eq!(r.stage(), RenderStage::Stopped);
    assert!(!r.has_frame());
    assert_eq!(r.image_index(), None);
    assert_eq!(r.token(), CompletionToken::Satisfied);
    assert_eq!(r.surface().image_count, 3);
    assert_eq!(r.surface().extent, Extent { width: 800, height: 600 });
}

#[test]
fn two_draws_ambient_point_submit_in_order() {
    let mut r = renderer();
    begin(&mut r, 2);
    assert_eq!(r.draw("triangle a"), Step::Recorded);
    assert_eq!(r.draw("triangle b"), Step::Recorded);
    assert_eq!(r.ambient(), Step::Recorded);
    assert_eq!(r.point(1), Step::Recorded);
    let s = submission(r.finish());
    assert_eq!(s.image_index, 2);
    assert_eq!(
        s.frame.into_commands(),
        vec![
            Command::Geometry("triangle a"),
            Command::Geometry("triangle b"),
            Command::Ambient,
            Command::Light(Light::Point(1)),
        ]
    );
    assert_eq!(r.stage(), RenderStage::Stopped);
    assert!(!r.has_frame());
}

#[test]
fn three_lights_follow_single_ambient() {
    let mut r = renderer();
    begin(&mut r, 0);
    assert_eq!(r.ambient(), Step::Recorded);
    assert_eq!(r.directional(10), Step::Recorded);
    assert_eq!(r.point(20), Step::Recorded);
    assert_eq!(r.directional(30), Step::Recorded);
    let s = submission(r.finish());
    assert_eq!(s.image_index, 0);
    assert_eq!(
        s.frame.into_commands(),
        vec![
            Command::Ambient,
            Command::Light(Light::Directional(10)),
            Command::Light(Light::Point(20)),
            Command::Light(Light::Directional(30)),
        ]
    );
}

#[test]
fn light_orders_give_same_multiset() {
    let lights_of = |order: &[u8]| {
        let mut r = renderer();
        begin(&mut r, 1);
        r.draw("quad");
        r.ambient();
        for &k in order {
            match k {
                0 => r.directional(10),
                1 => r.point(20),
                _ => r.directional(30),
            };
        }
        let s = submission(r.finish());
        let mut lights = s.frame.lights.clone();
        lights.sort_by_key(|l| match l {
            Light::Point(p) => (0u8, *p as u64),
            Light::Directional(d) => (1u8, *d),
        });
        (s.frame.geometry.clone(), lights)
    };
    let first = lights_of(&[0, 1, 2]);
    for order in [[0, 2, 1], [1, 0, 2], [1, 2, 0], [2, 0, 1], [2, 1, 0]] {
        assert_eq!(lights_of(&order), first);
    }
}

#[test]
fn second_ambient_changes_nothing() {
    let mut r = renderer();
    begin(&mut r, 1);
    r.draw("quad");
    assert_eq!(r.ambient(), Step::Recorded);
    assert_eq!(r.ambient(), Step::Unchanged);
    assert_eq!(r.stage(), RenderStage::AmbientDone);
    assert_eq!(r.image_index(), Some(1));
    r.point(5);
    let s = submission(r.finish());
    assert_eq!(
        s.frame.into_commands(),
        vec![Command::Geometry("quad"), Command::Ambient, Command::Light(Light::Point(5))]
    );
}

#[test]
fn second_start_drops_first_frame() {
    let mut r = renderer();
    begin(&mut r, 0);
    r.draw("lost");
    r.ambient();
    r.point(1);
    assert_eq!(r.start(), Step::Dropped);
    assert_eq!(r.stage(), RenderStage::Stopped);
    assert!(!r.has_frame());
    assert!(matches!(r.finish(), Finish::Dropped));
    begin(&mut r, 1);
    r.draw("kept");
    r.ambient();
    r.point(2);
    let s = submission(r.finish());
    assert_eq!(
        s.frame.into_commands(),
        vec![Command::Geometry("kept"), Command::Ambient, Command::Light(Light::Point(2))]
    );
}

#[test]
fn directional_before_ambient_resets() {
    let mut r = renderer();
    begin(&mut r, 0);
    r.draw("quad");
    assert_eq!(r.directional(7), Step::Dropped);
    assert_eq!(r.stage(), RenderStage::Stopped);
    assert!(!r.has_frame());
    assert_eq!(r.ambient(), Step::Dropped);
    assert!(matches!(r.finish(), Finish::Dropped));
}

#[test]
fn disallowed_calls_force_idle() {
    let mut r = renderer();
    assert_eq!(r.draw("x"), Step::Dropped);
    assert_eq!(r.stage(), RenderStage::Stopped);
    assert_eq!(r.ambient(), Step::Dropped);
    assert_eq!(r.point(1), Step::Dropped);
    assert!(matches!(r.finish(), Finish::Dropped));

    begin(&mut r, 0);
    r.ambient();
    assert_eq!(r.draw("late"), Step::Dropped);
    assert_eq!(r.stage(), RenderStage::Stopped);
    assert!(!r.has_frame());

    begin(&mut r, 0);
    r.ambient();
    assert!(matches!(r.finish(), Finish::Dropped));
    assert_eq!(r.stage(), RenderStage::Stopped);
}

#[test]
fn stages_follow_table() {
    let mut r = renderer();
    assert_eq!(r.start(), Step::AcquireImage);
    assert_eq!(r.stage(), RenderStage::Recording);
    r.image_acquired(AcquireOutcome::Ready { image_index: 0, suboptimal: false });
    r.draw("a");
    assert_eq!(r.stage(), RenderStage::Recording);
    r.ambient();
    assert_eq!(r.stage(), RenderStage::AmbientDone);
    r.point(1);
    assert_eq!(r.stage(), RenderStage::LightingDone);
    r.directional(2);
    assert_eq!(r.stage(), RenderStage::LightingDone);
    assert!(matches!(r.finish(), Finish::Submit(_)));
    assert_eq!(r.stage(), RenderStage::Stopped);
}

#[test]
fn resize_discards_frame_and_start_rebuilds() {
    let mut r = renderer();
    begin(&mut r, 0);
    r.draw("a");
    assert_eq!(r.resize(), Step::Rebuild);
    assert_eq!(r.stage(), RenderStage::ResizePending);
    assert!(!r.has_frame());
    assert_eq!(r.start(), Step::Rebuild);
    assert_eq!(r.stage(), RenderStage::Stopped);
    assert_eq!(r.start(), Step::AcquireImage);
}

#[test]
fn calls_while_resize_pending_ask_for_rebuild() {
    let mut r = renderer();
    r.resize();
    assert_eq!(r.draw("a"), Step::Rebuild);
    assert_eq!(r.stage(), RenderStage::Stopped);
    r.resize();
    assert!(matches!(r.finish(), Finish::Rebuild));
    assert_eq!(r.stage(), RenderStage::Stopped);
}

#[test]
fn unsupported_extent_keeps_surface() {
    let mut r = renderer();
    let before = r.surface();
    r.resize();
    r.rebuilt(RebuildOutcome::ExtentNotSupported);
    assert_eq!(r.surface(), before);
    assert_eq!(r.stage(), RenderStage::ResizePending);

    r.rebuilt(RebuildOutcome::Rebuilt { extent: Extent { width: 1600, height: 900 }, image_count: 2 });
    assert_eq!(r.stage(), RenderStage::Stopped);
    let s = r.surface();
    assert_eq!(s.extent, Extent { width: 1600, height: 900 });
    assert_eq!(s.image_count, 2);
    assert_eq!(s.projection.right, 1600);
    assert_eq!(s.projection.left, -1600);
    assert_eq!(s.projection.top, 900);
    assert_eq!(s.projection.bottom, -900);
    assert_eq!(before.projection.right, 800);
    assert_eq!(before.projection.top, 600);
}

#[test]
fn rebuild_mid_frame_discards_commands() {
    let mut r = renderer();
    begin(&mut r, 0);
    r.draw("a");
    r.rebuilt(RebuildOutcome::Rebuilt { extent: Extent { width: 10, height: 20 }, image_count: 4 });
    assert_eq!(r.stage(), RenderStage::Stopped);
    assert!(!r.has_frame());
    assert_eq!(r.image_index(), None);
}

#[test]
fn suboptimal_image_asks_for_rebuild() {
    let mut r = renderer();
    r.start();
    let s = r.image_acquired(AcquireOutcome::Ready { image_index: 0, suboptimal: true });
    assert_eq!(s, Step::Rebuild);
    assert_eq!(r.stage(), RenderStage::ResizePending);
    assert!(!r.has_frame());
}

#[test]
fn out_of_date_image_asks_for_rebuild() {
    let mut r = renderer();
    r.start();
    assert_eq!(r.image_acquired(AcquireOutcome::OutOfDate), Step::Rebuild);
    assert_eq!(r.stage(), RenderStage::ResizePending);
}

#[test]
fn image_index_beyond_surface_asks_for_rebuild() {
    let mut r = renderer();
    r.start();
    let s = r.image_acquired(AcquireOutcome::Ready { image_index: 3, suboptimal: false });
    assert_eq!(s, Step::Rebuild);
    assert_eq!(r.image_index(), None);
}

#[test]
fn acquisition_out_of_order_drops() {
    let mut r = renderer();
    let ready = AcquireOutcome::Ready { image_index: 0, suboptimal: false };
    assert_eq!(r.image_acquired(ready), Step::Dropped);
    begin(&mut r, 0);
    assert_eq!(r.image_acquired(ready), Step::Dropped);
    assert_eq!(r.stage(), RenderStage::Stopped);
}

#[test]
fn finish_without_image_submits_nothing() {
    let mut r = renderer();
    r.start();
    r.ambient();
    r.point(1);
    assert!(matches!(r.finish(), Finish::Dropped));
}

#[test]
fn flush_outcomes_drive_token_chain() {
    let mut r = renderer();
    assert_eq!(r.flushed(FlushOutcome::Flushed), FlushStep::Chain);
    assert_eq!(r.token(), CompletionToken::Pending);
    assert_eq!(r.flushed(FlushOutcome::Failed), FlushStep::Report);
    assert_eq!(r.token(), CompletionToken::Satisfied);
    assert_eq!(r.stage(), RenderStage::Stopped);
    r.flushed(FlushOutcome::Flushed);
    assert_eq!(r.flushed(FlushOutcome::OutOfDate), FlushStep::Rebuild);
    assert_eq!(r.token(), CompletionToken::Satisfied);
    assert_eq!(r.stage(), RenderStage::ResizePending);
}

#[test]
fn set_view_abandons_frame() {
    let mut r = renderer();
    begin(&mut r, 0);
    r.draw("a");
    r.set_view();
    assert_eq!(r.stage(), RenderStage::Stopped);
    assert!(!r.has_frame());
}
