use vstd::prelude::*;

verus! {

/// Frames counted between two frame-rate reports.
pub const FRAMES_PER_REPORT: u32 = 100;

/// A frame-rate report: `frames` frames were drawn in `total_nanos`
/// nanoseconds.
#[derive(PartialEq, Eq, Structural, Debug, Clone, Copy)]
pub struct FpsReport {
    pub frames: u32,
    pub total_nanos: u128,
}

/// The counters kept between frame-rate reports.
pub open spec fn next_stats(frames: nat, accum: nat, elapsed: nat) -> (nat, nat) {
    if frames + 1 == FRAMES_PER_REPORT {
        (0, 0)
    } else {
        (frames + 1, accum + elapsed)
    }
}

/// The report due after a frame that took `elapsed` nanoseconds.
pub open spec fn report_after(frames: nat, accum: nat, elapsed: nat) -> Option<(nat, nat)> {
    if frames + 1 == FRAMES_PER_REPORT {
        Some((FRAMES_PER_REPORT as nat, accum + elapsed))
    } else {
        None
    }
}

/// The sum of a sequence of durations.
pub open spec fn total(s: Seq<nat>) -> nat
    decreases s.len(),
{
    if s.len() == 0 {
        0
    } else {
        total(s.drop_last()) + s.last()
    }
}

/// The counters after frames that took `elapsed[0]`, `elapsed[1]`, ...,
/// starting from none.
pub open spec fn stats_after(elapsed: Seq<nat>) -> (nat, nat)
    decreases elapsed.len(),
{
    if elapsed.len() == 0 {
        (0, 0)
    } else {
        let (f, a) = stats_after(elapsed.drop_last());
        next_stats(f, a, elapsed.last())
    }
}

/// After any run of frames, the frames pending are those since the last
/// multiple of `FRAMES_PER_REPORT`, and the time pending is the time those
/// frames took.
pub proof fn lemma_stats_after(elapsed: Seq<nat>)
    ensures
        stats_after(elapsed).0 == elapsed.len() % (FRAMES_PER_REPORT as nat),
        stats_after(elapsed).1 == total(
            elapsed.subrange(
                elapsed.len() - elapsed.len() % (FRAMES_PER_REPORT as nat),
                elapsed.len() as int,
            ),
        ),
    decreases elapsed.len(),
{
    let n = elapsed.len();
    if n > 0 {
        let init = elapsed.drop_last();
        lemma_stats_after(init);
        let m = (n - 1) % 100;
        assert(n % 100 == if m + 1 == 100 { 0 } else { m + 1 });
        if m + 1 != 100 {
            let s = elapsed.subrange(n - n % 100, n as int);
            assert(s.drop_last() =~= init.subrange(init.len() - m, init.len() as int));
        } else {
            assert(elapsed.subrange(n as int, n as int) =~= Seq::<nat>::empty());
        }
    }
}

/// Over any run of frames, the frame that completes a multiple of
/// `FRAMES_PER_REPORT` frames, and only that one, reports; it reports
/// `FRAMES_PER_REPORT` frames and the time those frames took.
pub proof fn lemma_reports_every_hundredth(elapsed: Seq<nat>, k: int)
    requires
        0 <= k < elapsed.len(),
    ensures
        ({
            let (f, a) = stats_after(elapsed.take(k));
            let r = report_after(f, a, elapsed[k]);
            &&& r is Some <==> (k + 1) % (FRAMES_PER_REPORT as int) == 0
            &&& r is Some ==> r->0 == (
                FRAMES_PER_REPORT as nat,
                total(elapsed.subrange(k + 1 - FRAMES_PER_REPORT, k + 1)),
            )
        }),
{
    let pre = elapsed.take(k);
    lemma_stats_after(pre);
    if (k + 1) % 100 == 0 {
        let s = elapsed.subrange(k + 1 - 100, k + 1);
        assert(s.drop_last() =~= pre.subrange(pre.len() - pre.len() % 100, pre.len() as int));
    }
}

/// Counts drawn frames and the time they took, and reports the frame rate
/// once every `FRAMES_PER_REPORT` frames.
pub struct FrameStats {
    frame_count: u32,
    accum_nanos: u128,
}

impl FrameStats {
    #[verifier::type_invariant]
    spec fn inv(self) -> bool {
        &&& self.frame_count < FRAMES_PER_REPORT
        &&& self.accum_nanos <= self.frame_count as int * u64::MAX as int
    }

    /// Frames drawn since the last report.
    pub closed spec fn frames(self) -> nat {
        self.frame_count as nat
    }

    /// Nanoseconds taken by the frames drawn since the last report.
    pub closed spec fn accumulated(self) -> nat {
        self.accum_nanos as nat
    }

    /// No frames counted yet.
    pub fn new() -> (stats: Self)
        ensures
            stats.frames() == 0,
            stats.accumulated() == 0,
    {
        FrameStats { frame_count: 0, accum_nanos: 0 }
    }

    /// Counts one drawn frame that took `elapsed_nanos` since the previous
    /// one; on every `FRAMES_PER_REPORT`-th frame returns the report and
    /// starts counting afresh.
    pub fn record_frame(&mut self, elapsed_nanos: u64) -> (report: Option<FpsReport>)
        ensures
            (final(self).frames(), final(self).accumulated()) == next_stats(
                old(self).frames(),
                old(self).accumulated(),
                elapsed_nanos as nat,
            ),
            match report_after(old(self).frames(), old(self).accumulated(), elapsed_nanos as nat) {
                Some((f, t)) => report matches Some(r) && r.frames == f && r.total_nanos == t,
                None => report is None,
            },
            final(self).frames() < FRAMES_PER_REPORT,
    {
        proof {
            use_type_invariant(&*self);
        }
        let accum = self.accum_nanos + elapsed_nanos as u128;
        let count = self.frame_count + 1;
        if count == FRAMES_PER_REPORT {
            *self = FrameStats { frame_count: 0, accum_nanos: 0 };
            Some(FpsReport { frames: count, total_nanos: accum })
        } else {
            *self = FrameStats { frame_count: count, accum_nanos: accum };
            None
        }
    }
}

/// What to do once all redraw events of an iteration are handled.
#[derive(PartialEq, Eq, Structural, Debug, Clone, Copy)]
pub enum Pacing {
    /// The frame interval has passed: ask for a redraw.
    RedrawNow,
    /// Sleep this many nanoseconds, until the frame interval has passed.
    WaitFor { nanos: u64 },
}

/// Paces frames: a redraw is due once `frame_interval_nanos` have passed
/// since the last frame; until then the loop waits exactly for the rest of
/// the interval, so that a wait is never empty and never oversleeps.
pub fn pace(since_last_frame_nanos: u64, frame_interval_nanos: u64) -> (p: Pacing)
    ensures
        since_last_frame_nanos >= frame_interval_nanos ==> p == Pacing::RedrawNow,
        since_last_frame_nanos < frame_interval_nanos ==> p == (Pacing::WaitFor {
            nanos: (frame_interval_nanos - since_last_frame_nanos) as u64,
        }),
        p matches Pacing::WaitFor { nanos } ==> nanos > 0 && since_last_frame_nanos + nanos
            == frame_interval_nanos,
{
    if since_last_frame_nanos >= frame_interval_nanos {
        Pacing::RedrawNow
    } else {
        Pacing::WaitFor { nanos: frame_interval_nanos - since_last_frame_nanos }
    }
}

/// An event of the window's event loop, with the times the decisions need.
#[derive(PartialEq, Eq, Structural, Debug, Clone, Copy)]
pub enum LoopEvent {
    /// The user asked to close the window.
    CloseRequested,
    /// The window's inner size changed.
    Resized { width: u32, height: u32 },
    /// The scale factor changed, and with it the window's inner size.
    ScaleFactorChanged { width: u32, height: u32 },
    /// The window must be redrawn; the last frame started this long ago.
    RedrawRequested { since_last_frame_nanos: u64 },
    /// All redraws of this iteration are done; the last frame started this
    /// long ago, and frames are meant to start this far apart.
    RedrawEventsCleared { since_last_frame_nanos: u64, frame_interval_nanos: u64 },
    /// Any other event.
    Other,
}

/// How the event loop continues after an event.
#[derive(PartialEq, Eq, Structural, Debug, Clone, Copy)]
pub enum ControlFlowChoice {
    /// Run the next iteration at once.
    Poll,
    /// Leave the loop.
    Exit,
    /// Sleep this many nanoseconds before the next iteration.
    WaitFor { nanos: u64 },
}

/// What the application does with the window and the renderer for an event.
#[derive(PartialEq, Eq, Structural, Debug, Clone, Copy)]
pub enum LoopAction {
    Nothing,
    /// Reconfigure the surface to this size (height first, as the renderer
    /// takes it).
    ResizeSurface { height: u32, width: u32 },
    /// Draw a frame, and print the frame rate when a report is given.
    Render { report: Option<FpsReport> },
    /// Ask the window for a redraw.
    RequestRedraw,
}

/// The decision for one event.
#[derive(PartialEq, Eq, Structural, Debug, Clone, Copy)]
pub struct LoopStep {
    pub control_flow: ControlFlowChoice,
    pub action: LoopAction,
}

/// The state the event loop keeps between events.
pub struct EventLoopState {
    pub stats: FrameStats,
    /// Whether the button of the on-screen panel has been clicked.
    pub clicked: bool,
}

/// The text of the on-screen label: a greeting until the button is clicked,
/// a farewell after.
pub open spec fn label_for(clicked: bool) -> Seq<char> {
    if clicked {
        "Goodbye world!"@
    } else {
        "Hello world!"@
    }
}

impl EventLoopState {
    /// No frames drawn, button not clicked.
    pub fn new() -> (state: Self)
        ensures
            state.stats.frames() == 0,
            state.stats.accumulated() == 0,
            !state.clicked,
    {
        EventLoopState { stats: FrameStats::new(), clicked: false }
    }

    /// The text the panel shows.
    pub fn label(&self) -> (text: &'static str)
        ensures
            text@ == label_for(self.clicked),
    {
        if self.clicked {
            "Goodbye world!"
        } else {
            "Hello world!"
        }
    }

    /// The panel's button was clicked.
    pub fn click(&mut self)
        ensures
            final(self).clicked,
            final(self).stats == old(self).stats,
    {
        self.clicked = true;
    }

    /// Decides what one event leads to. Every event leaves the loop polling
    /// unless it says otherwise; only a redraw counts a frame.
    pub fn handle_event(&mut self, event: LoopEvent) -> (step: LoopStep)
        ensures
            final(self).clicked == old(self).clicked,
            final(self).stats.frames() < FRAMES_PER_REPORT,
            match event {
                LoopEvent::CloseRequested => step == (LoopStep {
                    control_flow: ControlFlowChoice::Exit,
                    action: LoopAction::Nothing,
                }) && final(self).stats == old(self).stats,
                LoopEvent::Resized { width, height } => step == (LoopStep {
                    control_flow: ControlFlowChoice::Poll,
                    action: LoopAction::ResizeSurface { height, width },
                }) && final(self).stats == old(self).stats,
                LoopEvent::ScaleFactorChanged { width, height } => step == (LoopStep {
                    control_flow: ControlFlowChoice::Poll,
                    action: LoopAction::ResizeSurface { height, width },
                }) && final(self).stats == old(self).stats,
                LoopEvent::RedrawRequested { since_last_frame_nanos } => {
                    let e = since_last_frame_nanos as nat;
                    let f = old(self).stats.frames();
                    let a = old(self).stats.accumulated();
                    &&& (final(self).stats.frames(), final(self).stats.accumulated())
                        == next_stats(f, a, e)
                    &&& step.control_flow == ControlFlowChoice::Poll
                    &&& step.action matches LoopAction::Render { report }
                    &&& match report_after(f, a, e) {
                        Some((n, t)) => report matches Some(r) && r.frames == n && r.total_nanos
                            == t,
                        None => report is None,
                    }
                },
                LoopEvent::RedrawEventsCleared { since_last_frame_nanos, frame_interval_nanos } => {
                    &&& final(self).stats == old(self).stats
                    &&& since_last_frame_nanos >= frame_interval_nanos ==> step == (LoopStep {
                        control_flow: ControlFlowChoice::Poll,
                        action: LoopAction::RequestRedraw,
                    })
                    &&& since_last_frame_nanos < frame_interval_nanos ==> step == (LoopStep {
                        control_flow: ControlFlowChoice::WaitFor {
                            nanos: (frame_interval_nanos - since_last_frame_nanos) as u64,
                        },
                        action: LoopAction::Nothing,
                    })
                },
                LoopEvent::Other => step == (LoopStep {
                    control_flow: ControlFlowChoice::Poll,
                    action: LoopAction::Nothing,
                }) && final(self).stats == old(self).stats,
            },
    {
        proof {
            use_type_invariant(&self.stats);
        }
        match event {
            LoopEvent::CloseRequested => LoopStep {
                control_flow: ControlFlowChoice::Exit,
                action: LoopAction::Nothing,
            },
            LoopEvent::Resized { width, height } => LoopStep {
                control_flow: ControlFlowChoice::Poll,
                action: LoopAction::ResizeSurface { height, width },
            },
            LoopEvent::ScaleFactorChanged { width, height } => LoopStep {
                control_flow: ControlFlowChoice::Poll,
                action: LoopAction::ResizeSurface { height, width },
            },
            LoopEvent::RedrawRequested { since_last_frame_nanos } => {
                let report = self.stats.record_frame(since_last_frame_nanos);
                LoopStep { control_flow: ControlFlowChoice::Poll, action: LoopAction::Render { report } }
            },
            LoopEvent::RedrawEventsCleared { since_last_frame_nanos, frame_interval_nanos } => {
                match pace(since_last_frame_nanos, frame_interval_nanos) {
                    Pacing::RedrawNow => LoopStep {
                        control_flow: ControlFlowChoice::Poll,
                        action: LoopAction::RequestRedraw,
                    },
                    Pacing::WaitFor { nanos } => LoopStep {
                        control_flow: ControlFlowChoice::WaitFor { nanos },
                        action: LoopAction::Nothing,
                    },
                }
            },
            LoopEvent::Other => LoopStep {
                control_flow: ControlFlowChoice::Poll,
                action: LoopAction::Nothing,
            },
        }
    }
}

} // verus!
