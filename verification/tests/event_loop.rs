use spinning_cube::event_loop::{
    pace, ControlFlowChoice, EventLoopState, FpsReport, FrameStats, LoopAction, LoopEvent,
    LoopStep, Pacing, FRAMES_PER_REPORT,
};

#[test]
fn reports_on_every_hundredth_frame() {
    let mut stats = FrameStats::new();
    for i in 1..=99u64 {
        assert_eq!(stats.record_frame(i), None);
    }
    let total: u128 = (1..=100u128).sum();
    assert_eq!(
        stats.record_frame(100),
        Some(FpsReport { frames: FRAMES_PER_REPORT, total_nanos: total })
    );
    // Counting starts afresh.
    for _ in 0..99 {
        assert_eq!(stats.record_frame(10), None);
    }
    assert_eq!(
        stats.record_frame(10),
        Some(FpsReport { frames: 100, total_nanos: 1000 })
    );
}

#[test]
fn large_frame_times_do_not_overflow() {
    let mut stats = FrameStats::new();
    for _ in 0..99 {
        assert_eq!(stats.record_frame(u64::MAX), None);
    }
    assert_eq!(
        stats.record_frame(u64::MAX),
        Some(FpsReport { frames: 100, total_nanos: 100 * u64::MAX as u128 })
    );
}

#[test]
fn pacing_waits_for_the_rest_of_the_interval() {
    assert_eq!(pace(4_000_000, 16_666_666), Pacing::WaitFor { nanos: 12_666_666 });
    assert_eq!(pace(16_666_666, 16_666_666), Pacing::RedrawNow);
    assert_eq!(pace(20_000_000, 16_666_666), Pacing::RedrawNow);
    assert_eq!(pace(0, 1), Pacing::WaitFor { nanos: 1 });
}

#[test]
fn close_requested_exits() {
    let mut state = EventLoopState::new();
    assert_eq!(
        state.handle_event(LoopEvent::CloseRequested),
        LoopStep { control_flow: ControlFlowChoice::Exit, action: LoopAction::Nothing }
    );
}

#[test]
fn resize_passes_height_first() {
    let mut state = EventLoopState::new();
    assert_eq!(
        state.handle_event(LoopEvent::Resized { width: 800, height: 600 }),
        LoopStep {
            control_flow: ControlFlowChoice::Poll,
            action: LoopAction::ResizeSurface { height: 600, width: 800 },
        }
    );
    assert_eq!(
        state.handle_event(LoopEvent::ScaleFactorChanged { width: 1600, height: 1200 }),
        LoopStep {
            control_flow: ControlFlowChoice::Poll,
            action: LoopAction::ResizeSurface { height: 1200, width: 1600 },
        }
    );
}

#[test]
fn redraw_renders_and_reports_on_the_hundredth() {
    let mut state = EventLoopState::new();
    for _ in 0..99 {
        assert_eq!(
            state.handle_event(LoopEvent::RedrawRequested { since_last_frame_nanos: 5 }),
            LoopStep { control_flow: ControlFlowChoice::Poll, action: LoopAction::Render { report: None } }
        );
    }
    // Other events do not count frames.
    state.handle_event(LoopEvent::Other);
    state.handle_event(LoopEvent::Resized { width: 1, height: 1 });
    assert_eq!(
        state.handle_event(LoopEvent::RedrawRequested { since_last_frame_nanos: 5 }),
        LoopStep {
            control_flow: ControlFlowChoice::Poll,
            action: LoopAction::Render {
                report: Some(FpsReport { frames: 100, total_nanos: 500 })
            },
        }
    );
}

#[test]
fn redraw_events_cleared_paces() {
    let mut state = EventLoopState::new();
    assert_eq!(
        state.handle_event(LoopEvent::RedrawEventsCleared {
            since_last_frame_nanos: 20,
            frame_interval_nanos: 16,
        }),
        LoopStep { control_flow: ControlFlowChoice::Poll, action: LoopAction::RequestRedraw }
    );
    assert_eq!(
        state.handle_event(LoopEvent::RedrawEventsCleared {
            since_last_frame_nanos: 10,
            frame_interval_nanos: 16,
        }),
        LoopStep { control_flow: ControlFlowChoice::WaitFor { nanos: 6 }, action: LoopAction::Nothing }
    );
}

#[test]
fn other_events_poll() {
    let mut state = EventLoopState::new();
    assert_eq!(
        state.handle_event(LoopEvent::Other),
        LoopStep { control_flow: ControlFlowChoice::Poll, action: LoopAction::Nothing }
    );
}

#[test]
fn label_changes_after_click() {
    let mut state = EventLoopState::new();
    assert_eq!(state.label(), "Hello world!");
    state.click();
    assert_eq!(state.label(), "Goodbye world!");
    state.click();
    assert_eq!(state.label(), "Goodbye world!");
}
