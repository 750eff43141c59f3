use wgpu_noboiler::hooks::HookPresence;
use wgpu_noboiler::pipelines::PipelineSet;
use wgpu_noboiler::run_loop::{Command, FrameOutcome, LoopEvent, Phase, RunLoop, WindowEventKind};
use wgpu_noboiler::surface::{PresentMode, SurfaceConfig};

fn hooks(init: bool, input: bool, resize: bool, update: bool, render: bool) -> HookPresence {
    HookPresence { init, input, resize, update, render }
}

fn started(presence: HookPresence, width: u32, height: u32) -> RunLoop {
    let mut run_loop = RunLoop::new(presence, SurfaceConfig::new(width, height, PresentMode::Fifo));
    run_loop.step(LoopEvent::Start);
    run_loop
}

#[test]
fn first_frame_renders_pipeline_zero_then_resizes() {
    let mut run_loop = RunLoop::new(
        hooks(true, false, true, false, true),
        SurfaceConfig::new(800, 600, PresentMode::Fifo),
    );
    assert_eq!(run_loop.surface.present_mode, PresentMode::Fifo);
    assert_eq!(run_loop.step(LoopEvent::Start), vec![Command::RunInit, Command::ShowWindow]);

    let mut pushed: Vec<&str> = Vec::new();
    pushed.push("triangle");
    let pipelines = PipelineSet::from_vec(pushed);

    assert_eq!(run_loop.step(LoopEvent::EventsCleared), vec![Command::RequestRedraw]);
    assert_eq!(
        run_loop.step(LoopEvent::RedrawRequested { now_nanos: 0 }),
        vec![Command::AcquireFrame]
    );
    assert_eq!(
        run_loop.step(LoopEvent::FrameAcquired(FrameOutcome::Acquired)),
        vec![Command::CallRender, Command::SubmitAndPresent]
    );
    assert_eq!(*pipelines.get(0), "triangle");

    let ignored = run_loop.step(LoopEvent::Window(WindowEventKind::Resized { width: 0, height: 0 }));
    assert!(ignored.is_empty());
    assert_eq!((run_loop.surface.width, run_loop.surface.height), (800, 600));

    let resized =
        run_loop.step(LoopEvent::Window(WindowEventKind::Resized { width: 400, height: 300 }));
    assert_eq!(
        resized,
        vec![
            Command::ConfigureSurface { width: 400, height: 300 },
            Command::CallResize { width: 400, height: 300 },
        ]
    );
    let resize_calls = resized.iter().filter(|c| matches!(c, Command::CallResize { .. })).count();
    assert_eq!(resize_calls, 1);
    assert_eq!((run_loop.surface.width, run_loop.surface.height), (400, 300));
    assert_eq!(run_loop.phase, Phase::Ready);
}

#[test]
fn lost_frames_reconfigure_without_rendering() {
    let mut run_loop = started(hooks(false, false, true, false, true), 800, 600);
    for i in 0..3u64 {
        assert_eq!(
            run_loop.step(LoopEvent::RedrawRequested { now_nanos: i * 1_000 }),
            vec![Command::AcquireFrame]
        );
        let recovery = run_loop.step(LoopEvent::FrameAcquired(FrameOutcome::Lost));
        assert_eq!(recovery, vec![Command::ConfigureSurface { width: 800, height: 600 }]);
        assert!(!recovery.contains(&Command::CallRender));
        assert!(!recovery.contains(&Command::CallResize { width: 800, height: 600 }));
        assert!(!run_loop.is_terminated());
        assert_eq!(run_loop.phase, Phase::Ready);
    }
    assert_eq!(
        run_loop.step(LoopEvent::RedrawRequested { now_nanos: 5_000 }),
        vec![Command::AcquireFrame]
    );
}

#[test]
fn timeout_and_outdated_recover_like_lost() {
    for outcome in [FrameOutcome::Timeout, FrameOutcome::Outdated] {
        let mut run_loop = started(hooks(false, false, false, false, true), 640, 480);
        run_loop.step(LoopEvent::RedrawRequested { now_nanos: 10 });
        assert_eq!(
            run_loop.step(LoopEvent::FrameAcquired(outcome)),
            vec![Command::ConfigureSurface { width: 640, height: 480 }]
        );
        assert_eq!(run_loop.phase, Phase::Ready);
    }
}

#[test]
fn out_of_memory_terminates_without_second_acquisition() {
    let mut run_loop = started(hooks(false, false, false, true, true), 800, 600);
    assert_eq!(
        run_loop.step(LoopEvent::RedrawRequested { now_nanos: 1 }),
        vec![Command::CallUpdate, Command::AcquireFrame]
    );
    assert_eq!(
        run_loop.step(LoopEvent::FrameAcquired(FrameOutcome::OutOfMemory)),
        vec![Command::Exit]
    );
    assert!(run_loop.is_terminated());
    assert!(run_loop.step(LoopEvent::EventsCleared).is_empty());
    assert!(run_loop.step(LoopEvent::RedrawRequested { now_nanos: 2 }).is_empty());
    assert!(run_loop.step(LoopEvent::FrameAcquired(FrameOutcome::Acquired)).is_empty());
    assert_eq!(run_loop.phase, Phase::Terminated);
}

#[test]
fn no_render_hook_never_acquires_and_closes() {
    let mut run_loop = started(hooks(false, false, false, true, false), 800, 600);
    let mut all = Vec::new();
    for i in 0..4u64 {
        all.extend(run_loop.step(LoopEvent::EventsCleared));
        all.extend(run_loop.step(LoopEvent::RedrawRequested { now_nanos: i }));
    }
    assert!(!all.contains(&Command::AcquireFrame));
    assert_eq!(all.iter().filter(|c| **c == Command::CallUpdate).count(), 4);
    assert_eq!(
        run_loop.step(LoopEvent::Window(WindowEventKind::CloseRequested)),
        vec![Command::Exit]
    );
    assert!(run_loop.is_terminated());
}

#[test]
fn start_without_init_hook_only_shows_window() {
    let mut run_loop = RunLoop::new(
        hooks(false, false, false, false, false),
        SurfaceConfig::new(800, 600, PresentMode::Fifo),
    );
    assert!(run_loop.step(LoopEvent::RedrawRequested { now_nanos: 0 }).is_empty());
    assert_eq!(run_loop.phase, Phase::Uninitialized);
    assert_eq!(run_loop.step(LoopEvent::Start), vec![Command::ShowWindow]);
    assert!(run_loop.step(LoopEvent::Start).is_empty());
}

#[test]
fn input_hook_sees_events_first_and_may_consume_them() {
    let mut run_loop = started(hooks(false, true, true, false, false), 800, 600);
    assert_eq!(
        run_loop.step(LoopEvent::Window(WindowEventKind::CloseRequested)),
        vec![Command::CallInput]
    );
    assert_eq!(
        run_loop.phase,
        Phase::AwaitingInput { event: WindowEventKind::CloseRequested }
    );
    assert!(run_loop.step(LoopEvent::InputHandled { consumed: true }).is_empty());
    assert_eq!(run_loop.phase, Phase::Ready);

    assert_eq!(
        run_loop.step(LoopEvent::Window(WindowEventKind::ScaleFactorChanged {
            width: 1600,
            height: 1200,
        })),
        vec![Command::CallInput]
    );
    assert_eq!(
        run_loop.step(LoopEvent::InputHandled { consumed: false }),
        vec![
            Command::ConfigureSurface { width: 1600, height: 1200 },
            Command::CallResize { width: 1600, height: 1200 },
        ]
    );

    run_loop.step(LoopEvent::Window(WindowEventKind::Other));
    assert!(run_loop.step(LoopEvent::InputHandled { consumed: false }).is_empty());

    run_loop.step(LoopEvent::Window(WindowEventKind::CloseRequested));
    assert_eq!(run_loop.step(LoopEvent::InputHandled { consumed: false }), vec![Command::Exit]);
    assert!(run_loop.is_terminated());
}

#[test]
fn resize_without_resize_hook_only_configures() {
    let mut run_loop = started(hooks(false, false, false, false, true), 800, 600);
    assert_eq!(
        run_loop.step(LoopEvent::Window(WindowEventKind::Resized { width: 1024, height: 0 })),
        vec![]
    );
    assert_eq!(
        run_loop.step(LoopEvent::Window(WindowEventKind::Resized { width: 1024, height: 768 })),
        vec![Command::ConfigureSurface { width: 1024, height: 768 }]
    );
}

#[test]
fn transient_failure_on_degenerate_surface_configures_nothing() {
    let mut run_loop = started(hooks(false, false, false, false, true), 0, 0);
    run_loop.step(LoopEvent::RedrawRequested { now_nanos: 0 });
    assert!(run_loop.step(LoopEvent::FrameAcquired(FrameOutcome::Lost)).is_empty());
    assert_eq!(run_loop.phase, Phase::Ready);
}

#[test]
fn events_out_of_phase_are_ignored() {
    let mut run_loop = started(hooks(false, false, false, false, true), 800, 600);
    assert!(run_loop.step(LoopEvent::FrameAcquired(FrameOutcome::Acquired)).is_empty());
    assert!(run_loop.step(LoopEvent::InputHandled { consumed: false }).is_empty());
    run_loop.step(LoopEvent::RedrawRequested { now_nanos: 0 });
    assert!(run_loop.step(LoopEvent::EventsCleared).is_empty());
    assert!(run_loop.step(LoopEvent::Window(WindowEventKind::CloseRequested)).is_empty());
    assert_eq!(run_loop.phase, Phase::AwaitingFrame);
}

#[test]
fn redraw_ticks_the_clock() {
    let mut run_loop = started(hooks(false, false, false, false, false), 800, 600);
    run_loop.step(LoopEvent::RedrawRequested { now_nanos: 1_000 });
    assert_eq!(run_loop.clock.delta_nanos(), 1_000);
    assert_eq!(run_loop.clock.fps_nano(), 0);
    run_loop.step(LoopEvent::RedrawRequested { now_nanos: 20_001_000 });
    assert_eq!(run_loop.clock.delta_nanos(), 20_000_000);
    assert_eq!(run_loop.clock.fps_nano(), 50_000_000_000);
}

#[test]
fn resize_transition_directly() {
    let mut run_loop = started(hooks(false, false, true, false, true), 800, 600);
    let before = run_loop;
    assert!(run_loop.resize(0, 300).is_empty());
    assert_eq!(run_loop.surface, before.surface);
    assert_eq!(
        run_loop.resize(400, 300),
        vec![
            Command::ConfigureSurface { width: 400, height: 300 },
            Command::CallResize { width: 400, height: 300 },
        ]
    );
    assert_eq!((run_loop.surface.width, run_loop.surface.height), (400, 300));
    assert_eq!(run_loop.phase, Phase::Ready);
}

#[test]
fn render_transition_directly() {
    let mut run_loop = started(hooks(false, false, false, false, true), 800, 600);
    run_loop.step(LoopEvent::RedrawRequested { now_nanos: 7 });
    assert_eq!(run_loop.phase, Phase::AwaitingFrame);
    assert_eq!(
        run_loop.render(FrameOutcome::Lost),
        vec![Command::ConfigureSurface { width: 800, height: 600 }]
    );
    run_loop.step(LoopEvent::RedrawRequested { now_nanos: 9 });
    assert_eq!(
        run_loop.render(FrameOutcome::Acquired),
        vec![Command::CallRender, Command::SubmitAndPresent]
    );
    run_loop.step(LoopEvent::RedrawRequested { now_nanos: 11 });
    assert_eq!(run_loop.render(FrameOutcome::OutOfMemory), vec![Command::Exit]);
    assert!(run_loop.is_terminated());
}
