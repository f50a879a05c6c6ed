use yanyaengine::scheduler::{
    AfterRecreate, DrawContext, FrameDriver, FrameScheduler, RedrawStep,
};
use yanyaengine::ShaderId;

#[test]
fn frame_hazard_non_overlap() {
    // Two frames in flight: the write for frame f + 2 must wait for the
    // completion signal of frame f's submission on the same parity.
    let mut scheduler = FrameScheduler::new(2);
    assert_eq!(scheduler.frames(), 2);

    // frame 0 on parity 0
    assert!(scheduler.can_write(0));
    let s0 = scheduler.submit(0);
    // frame 1 on parity 1
    assert!(scheduler.can_write(1));
    let s1 = scheduler.submit(1);
    assert_ne!(s0, s1);

    // frame 2 reuses parity 0: the write may not begin yet
    assert!(!scheduler.can_write(0));
    assert_eq!(scheduler.pending_signal(0), Some(s0));
    // the loop blocks on s0, then reports it observed
    scheduler.observe_signaled(0);
    assert!(scheduler.can_write(0));
    let s2 = scheduler.submit(0);
    assert_ne!(s2, s1);

    // frame 3 reuses parity 1 the same way
    assert!(!scheduler.can_write(1));
    assert_eq!(scheduler.pending_signal(1), Some(s1));
    scheduler.observe_signaled(1);
    assert!(scheduler.can_write(1));
}

#[test]
fn resize_recovery() {
    // 800x600, shrink to 0x0 (minimized), restore to 1024x768: the zero
    // period must attempt no acquire, and the restoration must trigger
    // exactly one recreate and one rebuilt notification.
    let mut driver = FrameDriver::new(800, 600);

    // first tick: straight to acquire, scene initialized lazily
    assert_eq!(driver.begin_redraw(), RedrawStep::Acquire);
    let work = driver.acquired(false);
    assert!(work.first_frame);
    assert!(!work.frame_parity);

    // a steady frame
    assert_eq!(driver.begin_redraw(), RedrawStep::Acquire);
    let work = driver.acquired(false);
    assert!(!work.first_frame);
    assert!(work.frame_parity, "parity alternates");

    // minimized: zero size, frames are skipped without acquiring
    driver.resized(0, 0);
    let mut recreates = 0;
    let mut notifications = 0;
    for _ in 0..3 {
        match driver.begin_redraw() {
            RedrawStep::Skip => {}
            _ => panic!("no work may happen while the surface has no area"),
        }
    }

    // restored: the first redraw rebuilds once and notifies once
    driver.resized(1024, 768);
    match driver.begin_redraw() {
        RedrawStep::Recreate { rebuild_pipelines } => {
            assert!(rebuild_pipelines, "the viewport changed");
            recreates += 1;
        }
        other => panic!("expected a recreate, got {:?}", other),
    }
    match driver.recreate_succeeded() {
        AfterRecreate::Proceed { resize_scene } => {
            assert!(resize_scene);
            notifications += 1;
        }
        AfterRecreate::SkipFrame => panic!("initialized: dependents must be notified"),
    }
    let work = driver.acquired(false);
    assert!(!work.first_frame);

    // the next tick is a plain frame again: no second recreate
    assert_eq!(driver.begin_redraw(), RedrawStep::Acquire);
    assert_eq!(recreates, 1);
    assert_eq!(notifications, 1);
}

#[test]
fn stale_surface_retries() {
    let mut driver = FrameDriver::new(640, 480);
    assert_eq!(driver.begin_redraw(), RedrawStep::Acquire);
    // the acquire reports the surface out of date: skip and retry
    driver.acquire_out_of_date();
    assert_eq!(
        driver.begin_redraw(),
        RedrawStep::Recreate { rebuild_pipelines: false },
        "a stale surface forces a rebuild on the next tick"
    );
    // nothing was initialized yet, so the rebuild notifies nobody
    assert_eq!(driver.recreate_succeeded(), AfterRecreate::SkipFrame);
}

#[test]
fn recreate_failure_is_transient() {
    let mut driver = FrameDriver::new(800, 600);
    let _ = driver.begin_redraw();
    let _ = driver.acquired(false);
    driver.resized(1, 1);
    assert!(matches!(driver.begin_redraw(), RedrawStep::Recreate { .. }));
    // the rebuild failed mid-drag: retried next tick, not fatal
    driver.recreate_failed();
    assert!(matches!(driver.begin_redraw(), RedrawStep::Recreate { .. }));
    let _ = driver.recreate_succeeded();
    assert_eq!(driver.begin_redraw(), RedrawStep::Acquire);
}

#[test]
fn suboptimal_present_recreates_next_tick() {
    let mut driver = FrameDriver::new(800, 600);
    assert_eq!(driver.begin_redraw(), RedrawStep::Acquire);
    let _ = driver.acquired(true);
    assert_eq!(
        driver.begin_redraw(),
        RedrawStep::Recreate { rebuild_pipelines: false }
    );
    let _ = driver.recreate_succeeded();
    assert_eq!(driver.begin_redraw(), RedrawStep::Acquire);
    let _ = driver.acquired(false);
    driver.present_result(true);
    assert!(matches!(driver.begin_redraw(), RedrawStep::Recreate { .. }));
}

#[test]
fn draw_context_tracks_bound_pipeline() {
    let mut ctx = DrawContext::new();
    assert!(ctx.current_pipeline_id().is_none());
    ctx.bind_pipeline(ShaderId(3));
    assert_eq!(ctx.current_pipeline_id(), Some(ShaderId(3)));
    assert_eq!(ctx.current_pipeline(), ShaderId(3));
    ctx.bind_pipeline(ShaderId(1));
    assert_eq!(ctx.current_pipeline(), ShaderId(1));
}
