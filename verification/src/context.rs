//! The frame orchestrator: event dispatch, the strictly ordered per-frame
//! sequence, and loop termination.

use vstd::prelude::*;
use crate::application::Application;
use crate::application::Color;
use crate::rendering_context::AcquireOutcome;
use crate::rendering_context::RenderingContext;
use crate::rendering_context::SurfaceConfig;
use crate::rendering_context::SurfacePort;
use crate::rendering_context::ImageFormat;
use crate::rendering_context::SwapStrategy;
use crate::rendering_context::spec_resize_request;

verus! {

/// The window events the orchestrator distinguishes. Everything else the
/// windowing system delivers is `Other`: still offered to the capability's
/// event hook and forwarded to the overlay's input bridge, otherwise
/// ignored by the core.
#[derive(Clone, Copy, PartialEq, Eq, Structural, Debug)]
pub enum LoopEvent {
    /// The user asked to close the window.
    CloseRequested,
    /// The window was resized to the given physical size.
    Resized(u32, u32),
    /// All pending events have drained; one full frame may run.
    RedrawReady,
    /// Any other event.
    Other,
}

/// One step of the per-frame sequence, in the order the orchestrator
/// performs them.
#[derive(Clone, Copy, PartialEq, Eq, Structural, Debug)]
pub enum FrameOp {
    /// Bridge accumulated native input into the UI overlay.
    SyncUiInput,
    /// The capability's `update` hook.
    AppUpdate,
    /// Begin a UI frame and run the capability's `build_ui` hook.
    BuildUi,
    /// Acquire the presentable image for this frame.
    AcquireImage,
    /// Prepare the overlay's render data for the image about to be drawn.
    PrepareOverlay,
    /// A pass that clears the image to the given color and stores it.
    ClearPass(Color),
    /// The capability's `render` hook: its own pass(es), preserving
    /// the image's prior contents.
    AppRender,
    /// A pass that loads the image's contents and draws the UI overlay
    /// atop them.
    OverlayPass,
    /// Submit all recorded GPU work as a single batch.
    Submit,
}

/// The unrecoverable conditions of the steady-state loop.
#[derive(Clone, Copy, PartialEq, Eq, Structural, Debug)]
pub enum FatalError {
    /// The overlay's input state could not be prepared: a contract
    /// violation with the windowing backend, not recoverable mid-frame.
    UiInputSync,
    /// Two consecutive image acquisitions failed.
    FrameAcquisition,
}

/// What one delivered event led to.
#[derive(Clone, Copy, PartialEq, Eq, Structural, Debug)]
pub enum TickOutcome {
    /// Keep the loop running.
    Continue,
    /// Clean termination: a window close or a capability-flagged exit.
    Exit,
    /// The process must terminate with a diagnostic.
    Fatal(FatalError),
}

/// A marker for an available system clipboard bridge.
pub struct ClipboardSupport;

impl ClipboardSupport {
    /// Probe the system clipboard at startup: present exactly when the
    /// platform reports an integration. Its absence is not an error — the
    /// UI overlay then falls back to its own internal clipboard.
    pub fn new(available: bool) -> (r: Option<ClipboardSupport>)
        ensures
            r is Some <==> available,
    {
        if available {
            Some(ClipboardSupport)
        } else {
            None
        }
    }
}

/// Which clipboard the UI overlay ends up using.
#[derive(Clone, Copy, PartialEq, Eq, Structural, Debug)]
pub enum ClipboardMode {
    /// The system clipboard, through the bridge.
    System,
    /// The overlay's own internal clipboard.
    Internal,
}

/// The per-frame operations only the platform collaborators can perform:
/// the overlay input bridge, the overlay renderer, and the GPU encoder and
/// queue. The host implements this against the real backends; tests drive
/// it with scripted stand-ins. The orchestrator's guarantees hold whatever
/// an implementation does, so the trait carries no contracts.
pub trait FramePort: SurfacePort {
    /// Bridge accumulated native input into the overlay for this frame;
    /// report success. A failure here is fatal to the whole loop.
    fn sync_ui_input(&mut self) -> bool;

    /// Offer a delivered event to the overlay's input bridge.
    fn forward_event(&mut self, event: &LoopEvent);

    /// Prepare the overlay's render data against the current window.
    fn prepare_overlay(&mut self);

    /// Record a pass that clears the image to the given color.
    fn clear_pass(&mut self, color: Color);

    /// Record a pass that loads the image and draws the overlay atop it.
    fn overlay_pass(&mut self);

    /// Submit all recorded work as a single batch.
    fn submit(&mut self);
}

/// The per-frame sequence, strictly ordered: input sync, update, UI build,
/// acquisition, overlay preparation, clear pass, application pass, overlay
/// pass, submission.
pub open spec fn spec_frame_plan(clear: Color) -> Seq<FrameOp> {
    seq![
        FrameOp::SyncUiInput,
        FrameOp::AppUpdate,
        FrameOp::BuildUi,
        FrameOp::AcquireImage,
        FrameOp::PrepareOverlay,
        FrameOp::ClearPass(clear),
        FrameOp::AppRender,
        FrameOp::OverlayPass,
        FrameOp::Submit,
    ]
}

/// The operations of a frame that are recorded against the acquired image
/// and reach the GPU queue.
pub open spec fn is_recorded_gpu_op(op: FrameOp) -> bool {
    match op {
        FrameOp::ClearPass(_) => true,
        FrameOp::AppRender => true,
        FrameOp::OverlayPass => true,
        FrameOp::Submit => true,
        _ => false,
    }
}

/// The frame orchestrator. It owns the capability, the surface manager and
/// the clipboard decision, and turns each delivered event into at most one
/// full frame or a termination.
pub struct Context<App> {
    /// The host-supplied application capability.
    pub app: App,
    /// The rendering surface manager.
    pub rendering_context: RenderingContext,
    /// Which clipboard the UI overlay uses.
    pub clipboard: ClipboardMode,
    /// The steps the most recent tick performed, in order. Empty on every
    /// tick that runs no frame.
    pub frame_trace: Ghost<Seq<FrameOp>>,
}

impl<App: Application> Context<App> {
    /// Assemble the orchestrator at startup: establish the surface for the
    /// initial window size and decide the clipboard mode. The capability
    /// arrives already constructed, since only the host holds the GPU and
    /// UI handles its constructor wants.
    pub fn new(app: App, width: u32, height: u32, clipboard_available: bool) -> (r: Context<App>)
        ensures
            r.app == app,
            r.rendering_context.sc_desc == (SurfaceConfig {
                format: ImageFormat::Bgra8Unorm,
                width,
                height,
                present_mode: SwapStrategy::Fifo,
            }),
            r.rendering_context.resize == false,
            r.rendering_context.reconfigurations@ == 0,
            r.clipboard == (if clipboard_available { ClipboardMode::System } else { ClipboardMode::Internal }),
            r.frame_trace@ == Seq::<FrameOp>::empty(),
    {
        let rendering_context = RenderingContext::setup(width, height);
        let clipboard = match ClipboardSupport::new(clipboard_available) {
            Some(_) => ClipboardMode::System,
            None => ClipboardMode::Internal,
        };
        Context {
            app,
            rendering_context,
            clipboard,
            frame_trace: Ghost(Seq::empty()),
        }
    }

    /// Dispatch one delivered event.
    ///
    /// The event is offered to the capability's event hook first; if the
    /// capability flags exit, or the event is a window close, the tick is
    /// terminal and nothing further happens — in particular no draw and no
    /// resize bookkeeping. Otherwise the event is forwarded to the
    /// overlay's input bridge; a resize is recorded lazily, and a
    /// redraw-ready event runs the full per-frame sequence.
    pub fn handle_event<P: FramePort>(&mut self, port: &mut P, event: &LoopEvent) -> (r: TickOutcome)
        ensures
            final(self).clipboard == old(self).clipboard,
            (*event is CloseRequested) ==> r is Exit,
            (r is Exit) ==> ((*event is CloseRequested) || final(self).app.exit_requested()),
            !(*event is RedrawReady) ==> !(r is Fatal),
            (!(*event is RedrawReady) && !(*event is CloseRequested)) ==>
                ((r is Exit) <==> final(self).app.exit_requested()),
            (r is Exit) ==> (final(self).rendering_context == old(self).rendering_context
                && final(self).frame_trace@ == Seq::<FrameOp>::empty()),
            !(r is Exit) ==> (match *event {
                LoopEvent::CloseRequested => false,
                LoopEvent::Resized(w, h) => (r is Continue
                    && final(self).rendering_context == spec_resize_request(old(self).rendering_context, w, h)
                    && final(self).frame_trace@ == Seq::<FrameOp>::empty()),
                LoopEvent::Other => (r is Continue
                    && final(self).rendering_context == old(self).rendering_context
                    && final(self).frame_trace@ == Seq::<FrameOp>::empty()),
                LoopEvent::RedrawReady => (match r {
                    TickOutcome::Continue => ((exists|c: Color| final(self).frame_trace@ == spec_frame_plan(c))
                        && final(self).rendering_context.resize == false
                        && final(self).rendering_context.sc_desc == old(self).rendering_context.sc_desc
                        && final(self).rendering_context.reconfigurations@
                            >= old(self).rendering_context.reconfigurations@
                                + (if old(self).rendering_context.resize { 1nat } else { 0nat })
                        && final(self).rendering_context.reconfigurations@
                            <= old(self).rendering_context.reconfigurations@
                                + (if old(self).rendering_context.resize { 1nat } else { 0nat }) + 1),
                    TickOutcome::Exit => false,
                    TickOutcome::Fatal(FatalError::UiInputSync) => (final(self).rendering_context == old(self).rendering_context
                        && final(self).frame_trace@ == Seq::<FrameOp>::empty()),
                    TickOutcome::Fatal(FatalError::FrameAcquisition) => (final(self).frame_trace@ == seq![
                            FrameOp::SyncUiInput,
                            FrameOp::AppUpdate,
                            FrameOp::BuildUi,
                        ]
                        && final(self).rendering_context.resize == false
                        && final(self).rendering_context.sc_desc == old(self).rendering_context.sc_desc
                        && final(self).rendering_context.reconfigurations@
                            == old(self).rendering_context.reconfigurations@
                                + (if old(self).rendering_context.resize { 1nat } else { 0nat }) + 1),
                }),
            }),
    {
        self.frame_trace = Ghost(Seq::empty());
        self.app.handle_event(event);
        if self.app.is_exit() {
            return TickOutcome::Exit;
        }
        port.forward_event(event);
        match event {
            LoopEvent::CloseRequested => TickOutcome::Exit,
            LoopEvent::Resized(w, h) => {
                self.rendering_context.resize_request(*w, *h);
                TickOutcome::Continue
            }
            LoopEvent::RedrawReady => self.run_frame(port),
            LoopEvent::Other => TickOutcome::Continue,
        }
    }

    /// Run the per-frame sequence to completion, recording each step in
    /// the frame trace as it is performed. A frame either completes all
    /// steps in full or is abandoned on one of the two fatal paths;
    /// nothing is retried partially.
    fn run_frame<P: FramePort>(&mut self, port: &mut P) -> (r: TickOutcome)
        requires
            old(self).frame_trace@ == Seq::<FrameOp>::empty(),
        ensures
            final(self).clipboard == old(self).clipboard,
            !(r is Exit),
            (r is Continue) ==> ((exists|c: Color| final(self).frame_trace@ == spec_frame_plan(c))
                && final(self).rendering_context.resize == false
                && final(self).rendering_context.sc_desc == old(self).rendering_context.sc_desc
                && final(self).rendering_context.reconfigurations@
                    >= old(self).rendering_context.reconfigurations@
                        + (if old(self).rendering_context.resize { 1nat } else { 0nat })
                && final(self).rendering_context.reconfigurations@
                    <= old(self).rendering_context.reconfigurations@
                        + (if old(self).rendering_context.resize { 1nat } else { 0nat }) + 1),
            (match r {
                TickOutcome::Continue => true,
                TickOutcome::Exit => true,
                TickOutcome::Fatal(FatalError::UiInputSync) => (final(self).rendering_context == old(self).rendering_context
                    && final(self).frame_trace@ == Seq::<FrameOp>::empty()),
                TickOutcome::Fatal(FatalError::FrameAcquisition) => (final(self).frame_trace@ == seq![
                        FrameOp::SyncUiInput,
                        FrameOp::AppUpdate,
                        FrameOp::BuildUi,
                    ]
                    && final(self).rendering_context.resize == false
                    && final(self).rendering_context.sc_desc == old(self).rendering_context.sc_desc
                    && final(self).rendering_context.reconfigurations@
                        == old(self).rendering_context.reconfigurations@
                            + (if old(self).rendering_context.resize { 1nat } else { 0nat }) + 1),
            }),
    {
        if !port.sync_ui_input() {
            return TickOutcome::Fatal(FatalError::UiInputSync);
        }
        self.frame_trace = Ghost(self.frame_trace@.push(FrameOp::SyncUiInput));
        self.app.update();
        self.frame_trace = Ghost(self.frame_trace@.push(FrameOp::AppUpdate));
        self.app.build_ui();
        self.frame_trace = Ghost(self.frame_trace@.push(FrameOp::BuildUi));
        let report = self.rendering_context.get_current_frame(port);
        if report.outcome == AcquireOutcome::Fatal {
            proof {
                assert(self.frame_trace@ =~= seq![
                    FrameOp::SyncUiInput,
                    FrameOp::AppUpdate,
                    FrameOp::BuildUi,
                ]);
            }
            return TickOutcome::Fatal(FatalError::FrameAcquisition);
        }
        self.frame_trace = Ghost(self.frame_trace@.push(FrameOp::AcquireImage));
        port.prepare_overlay();
        self.frame_trace = Ghost(self.frame_trace@.push(FrameOp::PrepareOverlay));
        let clear = self.app.clear_color();
        port.clear_pass(clear);
        self.frame_trace = Ghost(self.frame_trace@.push(FrameOp::ClearPass(clear)));
        self.app.render();
        self.frame_trace = Ghost(self.frame_trace@.push(FrameOp::AppRender));
        port.overlay_pass();
        self.frame_trace = Ghost(self.frame_trace@.push(FrameOp::OverlayPass));
        port.submit();
        self.frame_trace = Ghost(self.frame_trace@.push(FrameOp::Submit));
        proof {
            assert(self.frame_trace@ =~= spec_frame_plan(clear));
        }
        TickOutcome::Continue
    }

    /// Feed a batch of gathered events to the orchestrator in order,
    /// stopping at the first terminal tick. The returned trace holds one
    /// outcome per processed event; every outcome before the last is
    /// `Continue`, so the loop terminates at most once, and a batch that
    /// was cut short ended on a terminal outcome.
    pub fn run_application<P: FramePort>(&mut self, port: &mut P, events: &Vec<LoopEvent>) -> (r: Vec<TickOutcome>)
        ensures
            r@.len() <= events@.len(),
            forall|i: int| 0 <= i < r@.len() - 1 ==> (#[trigger] r@[i]) is Continue,
            r@.len() < events@.len() ==> (r@.len() > 0 && !(r@[r@.len() - 1] is Continue)),
    {
        let mut out: Vec<TickOutcome> = Vec::new();
        let mut i: usize = 0;
        let mut stopped = false;
        while i < events.len() && !stopped
            invariant
                i <= events@.len(),
                out@.len() == i,
                forall|j: int| 0 <= j < out@.len() - 1 ==> (#[trigger] out@[j]) is Continue,
                !stopped ==> (forall|j: int| 0 <= j < out@.len() ==> (#[trigger] out@[j]) is Continue),
                stopped ==> (out@.len() > 0 && !(out@[out@.len() - 1] is Continue)),
            decreases events@.len() - i,
        {
            let outcome = self.handle_event(port, &events[i]);
            out.push(outcome);
            i = i + 1;
            match outcome {
                TickOutcome::Continue => {}
                _ => {
                    stopped = true;
                }
            }
        }
        out
    }
}

/// Exit precedence: however a tick became terminal — a window close, a
/// capability-flagged exit, or both in the same tick — a run trace in
/// which every outcome before the last is `Continue` holds at most one
/// terminal outcome: the loop terminates exactly once, with no double
/// teardown.
pub proof fn lemma_single_termination(trace: Seq<TickOutcome>)
    requires
        forall|i: int| 0 <= i < trace.len() - 1 ==> (#[trigger] trace[i]) is Continue,
    ensures
        forall|i: int, j: int|
            (0 <= i < trace.len() && 0 <= j < trace.len()
                && !((#[trigger] trace[i]) is Continue) && !((#[trigger] trace[j]) is Continue))
                ==> i == j,
{
}

/// Ordering invariant: of a completed frame's steps, those recorded
/// against the image and reaching the GPU queue are exactly the clear
/// pass, the application pass, the overlay pass and the submission, in
/// that order — never reordered, never missing the clear pass.
pub proof fn lemma_frame_ordering(clear: Color)
    ensures
        spec_frame_plan(clear).filter(|op: FrameOp| is_recorded_gpu_op(op)) == seq![
            FrameOp::ClearPass(clear),
            FrameOp::AppRender,
            FrameOp::OverlayPass,
            FrameOp::Submit,
        ],
{
    reveal_with_fuel(Seq::filter, 10);
    assert(spec_frame_plan(clear).filter(|op: FrameOp| is_recorded_gpu_op(op)) =~= seq![
        FrameOp::ClearPass(clear),
        FrameOp::AppRender,
        FrameOp::OverlayPass,
        FrameOp::Submit,
    ]);
}

} // verus!
