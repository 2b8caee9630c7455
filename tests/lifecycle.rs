use gpu_bootstrap::{
    adapter_request, classify, clear_color, clear_pass_ops, device_request, frame_plan, start,
    AcquireError, Action, Backends, Driver, Extent, FrameStatus, FrameStep, LoadOp, LoopEvent,
    PowerPreference, PresentMode, Rgba, StartupError, SurfaceState, TextureUsage, TransientKind,
    WindowInput,
};

fn resized(width: u32, height: u32) -> LoopEvent {
    LoopEvent::Window { ours: true, input: WindowInput::Resized(Extent::new(width, height)) }
}

fn driver_at(width: u32, height: u32) -> Driver<&'static str> {
    start(Some("bgra8-srgb"), Extent::new(width, height)).unwrap()
}

#[test]
fn window_scenario_resize_and_lost_surface() {
    let mut d = driver_at(800, 600);
    assert_eq!(d.surface().size(), Extent::new(800, 600));
    assert_eq!(d.handle_event(LoopEvent::RedrawRequested), Action::RenderFrame);
    assert_eq!(d.handle_frame(classify(Ok(()))), Action::Nothing);

    assert_eq!(d.handle_event(resized(0, 400)), Action::Nothing);
    assert_eq!(d.surface().size(), Extent::new(800, 600));

    assert_eq!(d.handle_event(resized(1024, 768)), Action::ApplyConfig);
    assert_eq!(d.surface().size(), Extent::new(1024, 768));
    assert_eq!(d.surface().config().width, 1024);
    assert_eq!(d.surface().config().height, 768);

    assert_eq!(d.handle_event(LoopEvent::RedrawRequested), Action::RenderFrame);
    assert_eq!(d.handle_frame(classify(Err(AcquireError::Lost))), Action::ApplyConfig);
    assert_eq!(d.surface().size(), Extent::new(1024, 768));
    assert_eq!(d.surface().config().width, 1024);
    assert_eq!(d.surface().config().height, 768);
    assert!(d.is_running());
}

#[test]
fn zero_area_resizes_leave_state_unchanged() {
    let mut d = driver_at(640, 480);
    for (w, h) in [(0, 0), (0, 480), (640, 0), (0, u32::MAX)] {
        assert_eq!(d.handle_event(resized(w, h)), Action::Nothing);
        let scale = LoopEvent::Window {
            ours: true,
            input: WindowInput::ScaleFactorChanged(Extent::new(w, h)),
        };
        assert_eq!(d.handle_event(scale), Action::Nothing);
        assert_eq!(d.surface().size(), Extent::new(640, 480));
        assert_eq!(d.surface().config().width, 640);
        assert_eq!(d.surface().config().height, 480);
        assert!(d.is_running());
    }
}

#[test]
fn resize_with_area_records_exact_size() {
    let mut d = driver_at(640, 480);
    assert_eq!(d.handle_event(resized(1, u32::MAX)), Action::ApplyConfig);
    assert_eq!(d.surface().size(), Extent::new(1, u32::MAX));
    let scale = LoopEvent::Window {
        ours: true,
        input: WindowInput::ScaleFactorChanged(Extent::new(1920, 1080)),
    };
    assert_eq!(d.handle_event(scale), Action::ApplyConfig);
    let c = d.surface().config();
    assert_eq!((c.width, c.height), (1920, 1080));
    assert_eq!(c.format, "bgra8-srgb");
    assert_eq!(c.present_mode, PresentMode::Fifo);
    assert_eq!(c.usage, TextureUsage::RenderAttachment);
}

#[test]
fn reconfigure_reports_whether_applied() {
    let mut s = SurfaceState::initialize(3u8, Extent::new(10, 20)).unwrap();
    assert!(!s.reconfigure(Extent::new(0, 5)));
    assert_eq!(s.size(), Extent::new(10, 20));
    assert!(s.reconfigure(Extent::new(30, 40)));
    assert_eq!(s.size(), Extent::new(30, 40));
    assert_eq!((s.config().width, s.config().height), (30, 40));
    assert_eq!(s.config().format, 3u8);
}

#[test]
fn lost_surface_reapplies_recorded_size_once() {
    let mut d = driver_at(300, 200);
    let a = d.handle_frame(FrameStatus::Lost);
    assert_eq!(a, Action::ApplyConfig);
    assert_ne!(a, Action::RenderFrame);
    assert_eq!(d.surface().size(), Extent::new(300, 200));
    assert!(d.is_running());
}

#[test]
fn out_of_memory_stops_the_loop() {
    let mut d = driver_at(300, 200);
    assert_eq!(d.handle_event(LoopEvent::RedrawRequested), Action::RenderFrame);
    assert_eq!(d.handle_frame(classify(Err(AcquireError::OutOfMemory))), Action::Exit);
    assert!(!d.is_running());
    assert_eq!(d.handle_event(LoopEvent::RedrawRequested), Action::Nothing);
    assert_eq!(d.handle_event(LoopEvent::RedrawEventsCleared), Action::Nothing);
    assert_eq!(d.handle_event(resized(50, 50)), Action::Nothing);
    assert_eq!(d.surface().size(), Extent::new(300, 200));
    assert_eq!(d.handle_frame(FrameStatus::Lost), Action::Nothing);
}

#[test]
fn transient_failures_are_reported_not_fatal() {
    let mut d = driver_at(300, 200);
    assert_eq!(
        d.handle_frame(classify(Err(AcquireError::Timeout))),
        Action::Report(TransientKind::Timeout)
    );
    assert_eq!(
        d.handle_frame(classify(Err(AcquireError::Outdated))),
        Action::Report(TransientKind::Outdated)
    );
    assert!(d.is_running());
    assert_eq!(d.handle_event(LoopEvent::RedrawRequested), Action::RenderFrame);
}

#[test]
fn classify_covers_every_acquisition_result() {
    assert_eq!(classify(Ok(())), FrameStatus::Success);
    assert_eq!(classify(Err(AcquireError::Lost)), FrameStatus::Lost);
    assert_eq!(classify(Err(AcquireError::OutOfMemory)), FrameStatus::OutOfMemory);
    assert_eq!(
        classify(Err(AcquireError::Timeout)),
        FrameStatus::Transient(TransientKind::Timeout)
    );
    assert_eq!(
        classify(Err(AcquireError::Outdated)),
        FrameStatus::Transient(TransientKind::Outdated)
    );
}

#[test]
fn close_and_escape_exit() {
    let mut d = driver_at(300, 200);
    let close = LoopEvent::Window { ours: true, input: WindowInput::CloseRequested };
    assert_eq!(d.handle_event(close), Action::Exit);
    assert!(!d.is_running());
    let mut d = driver_at(300, 200);
    let esc = LoopEvent::Window { ours: true, input: WindowInput::EscapePressed };
    assert_eq!(d.handle_event(esc), Action::Exit);
    assert!(!d.is_running());
}

#[test]
fn events_of_other_windows_are_ignored() {
    let mut d = driver_at(300, 200);
    let other = LoopEvent::Window { ours: false, input: WindowInput::CloseRequested };
    assert_eq!(d.handle_event(other), Action::Nothing);
    let other_resize =
        LoopEvent::Window { ours: false, input: WindowInput::Resized(Extent::new(9, 9)) };
    assert_eq!(d.handle_event(other_resize), Action::Nothing);
    assert_eq!(d.surface().size(), Extent::new(300, 200));
    assert!(d.is_running());
    let plain = LoopEvent::Window { ours: true, input: WindowInput::Other };
    assert_eq!(d.handle_event(plain), Action::Nothing);
    assert_eq!(d.handle_event(LoopEvent::Other), Action::Nothing);
    assert_eq!(d.handle_event(LoopEvent::RedrawEventsCleared), Action::RequestRedraw);
}

#[test]
fn input_consumes_nothing_and_update_keeps_state() {
    let mut d = driver_at(300, 200);
    assert!(!d.input(&WindowInput::CloseRequested));
    d.update();
    assert!(d.is_running());
    assert_eq!(d.surface().size(), Extent::new(300, 200));
}

#[test]
fn startup_errors() {
    let none: Option<u8> = None;
    assert_eq!(start(none, Extent::new(800, 600)).err(), Some(StartupError::NoSurfaceFormat));
    assert_eq!(start(none, Extent::new(0, 0)).err(), Some(StartupError::NoSurfaceFormat));
    assert_eq!(start(Some(1u8), Extent::new(0, 600)).err(), Some(StartupError::NoDrawableArea));
    assert_eq!(start(Some(1u8), Extent::new(800, 0)).err(), Some(StartupError::NoDrawableArea));
    assert!(SurfaceState::initialize(1u8, Extent::new(0, 0)).is_none());
}

#[test]
fn startup_configures_window_size() {
    let d = driver_at(800, 600);
    let c = d.surface().config();
    assert_eq!((c.width, c.height), (800, 600));
    assert_eq!(c.present_mode, PresentMode::Fifo);
    assert_eq!(c.usage, TextureUsage::RenderAttachment);
    assert!(d.is_running());
}

#[test]
fn negotiation_requests() {
    let a = adapter_request();
    assert_eq!(a.backends, Backends::All);
    assert_eq!(a.power_preference, PowerPreference::HighPerformance);
    assert!(a.compatible_with_surface);
    assert!(!a.force_fallback_adapter);
    let dr = device_request();
    assert!(!dr.extra_features);
    assert!(dr.default_limits);
}

#[test]
fn frame_plan_clears_once_and_presents_last() {
    let plan = frame_plan();
    assert_eq!(
        plan,
        vec![
            FrameStep::AcquireImage,
            FrameStep::CreateView,
            FrameStep::OpenEncoder,
            FrameStep::RenderPass(clear_pass_ops()),
            FrameStep::Finish,
            FrameStep::Submit,
            FrameStep::Present,
        ]
    );
    assert_eq!(plan.iter().filter(|s| matches!(s, FrameStep::RenderPass(_))).count(), 1);
    assert_eq!(plan.last(), Some(&FrameStep::Present));
}

#[test]
fn clear_pass_uses_fixed_color_and_stores() {
    assert_eq!(clear_color(), Rgba { r: 100, g: 200, b: 300, a: 1000 });
    let ops = clear_pass_ops();
    assert_eq!(ops.load, LoadOp::Clear(Rgba { r: 100, g: 200, b: 300, a: 1000 }));
    assert!(ops.store);
}
