use frame_harness::rendering_context::AcquireOutcome;
use frame_harness::rendering_context::ImageFormat;
use frame_harness::rendering_context::RenderingContext;
use frame_harness::rendering_context::SurfacePort;
use frame_harness::rendering_context::SwapStrategy;

/// A scripted stand-in for the GPU surface backend: records every
/// reconfiguration, answers acquisition attempts from a script (succeeding
/// once the script is exhausted), and hands out images of the size it was
/// last configured for.
struct ScriptedSurface {
    reconfigures: Vec<(u32, u32)>,
    attempt_outcomes: Vec<bool>,
    attempts: usize,
    configured: Option<(u32, u32)>,
    acquired: Option<(u32, u32)>,
}

impl ScriptedSurface {
    fn new(initial: (u32, u32), attempt_outcomes: Vec<bool>) -> ScriptedSurface {
        ScriptedSurface {
            reconfigures: Vec::new(),
            attempt_outcomes,
            attempts: 0,
            configured: Some(initial),
            acquired: None,
        }
    }
}

impl SurfacePort for ScriptedSurface {
    fn reconfigure(&mut self, width: u32, height: u32) {
        self.reconfigures.push((width, height));
        self.configured = Some((width, height));
    }

    fn attempt_acquire(&mut self) -> bool {
        let ok = if self.attempts < self.attempt_outcomes.len() {
            self.attempt_outcomes[self.attempts]
        } else {
            true
        };
        self.attempts += 1;
        self.acquired = if ok { self.configured } else { None };
        ok
    }
}

#[test]
fn setup_negotiates_initial_configuration() {
    let rc = RenderingContext::setup(800, 600);
    assert_eq!(rc.sc_desc.width, 800);
    assert_eq!(rc.sc_desc.height, 600);
    assert_eq!(rc.sc_desc.format, ImageFormat::Bgra8Unorm);
    assert_eq!(rc.sc_desc.present_mode, SwapStrategy::Fifo);
    assert!(!rc.resize);
}

#[test]
fn feature_negotiation_grants_only_offered_features() {
    // Requested features are granted exactly where the adapter offers them.
    assert_eq!(RenderingContext::negotiated_features(0b1100, 0b1010), 0b1000);
    assert_eq!(RenderingContext::negotiated_features(u64::MAX, 0b101), 0b101);
    assert_eq!(RenderingContext::negotiated_features(0, u64::MAX), 0);
}

#[test]
fn resize_request_is_lazy() {
    let mut rc = RenderingContext::setup(800, 600);
    rc.resize_request(1024, 768);
    assert_eq!(rc.sc_desc.width, 1024);
    assert_eq!(rc.sc_desc.height, 768);
    assert!(rc.resize);
}

#[test]
fn double_resize_costs_one_reconfiguration() {
    let mut rc = RenderingContext::setup(800, 600);
    let mut surface = ScriptedSurface::new((800, 600), vec![]);
    rc.resize_request(1024, 768);
    rc.resize_request(1024, 768);
    let report = rc.get_current_frame(&mut surface);
    assert_eq!(report.outcome, AcquireOutcome::Acquired);
    assert!(report.resize_reconfigured);
    assert!(report.first_attempt_ok);
    assert!(!report.retried);
    // Exactly one reconfiguration, to the final requested size.
    assert_eq!(surface.reconfigures, vec![(1024, 768)]);
    // The acquired image already has the requested size.
    assert_eq!(surface.acquired, Some((1024, 768)));
    assert!(!rc.resize);
    // A further acquisition without a new request reconfigures nothing.
    let report = rc.get_current_frame(&mut surface);
    assert!(!report.resize_reconfigured);
    assert_eq!(surface.reconfigures.len(), 1);
}

#[test]
fn burst_of_different_sizes_keeps_the_last() {
    let mut rc = RenderingContext::setup(800, 600);
    let mut surface = ScriptedSurface::new((800, 600), vec![]);
    rc.resize_request(640, 480);
    rc.resize_request(1920, 1080);
    rc.resize_request(1280, 720);
    let report = rc.get_current_frame(&mut surface);
    assert_eq!(report.outcome, AcquireOutcome::Acquired);
    assert_eq!(surface.reconfigures, vec![(1280, 720)]);
    assert_eq!(surface.acquired, Some((1280, 720)));
}

#[test]
fn transient_failure_reconfigures_once_and_recovers() {
    let mut rc = RenderingContext::setup(800, 600);
    let mut surface = ScriptedSurface::new((800, 600), vec![false, true]);
    let report = rc.get_current_frame(&mut surface);
    assert_eq!(report.outcome, AcquireOutcome::Acquired);
    assert!(!report.resize_reconfigured);
    assert!(!report.first_attempt_ok);
    assert!(report.retried);
    // One recovery reconfiguration, to the unchanged current size.
    assert_eq!(surface.reconfigures, vec![(800, 600)]);
    assert_eq!(surface.attempts, 2);
    assert_eq!(surface.acquired, Some((800, 600)));
}

#[test]
fn two_consecutive_failures_are_fatal_not_a_loop() {
    let mut rc = RenderingContext::setup(800, 600);
    let mut surface = ScriptedSurface::new((800, 600), vec![false, false]);
    let report = rc.get_current_frame(&mut surface);
    assert_eq!(report.outcome, AcquireOutcome::Fatal);
    assert!(!report.first_attempt_ok);
    assert!(report.retried);
    // Exactly one retry: two attempts in all, no busy-looping.
    assert_eq!(surface.attempts, 2);
    assert_eq!(surface.reconfigures.len(), 1);
}

#[test]
fn pending_resize_then_transient_failure() {
    let mut rc = RenderingContext::setup(800, 600);
    let mut surface = ScriptedSurface::new((800, 600), vec![false, true]);
    rc.resize_request(1024, 768);
    let report = rc.get_current_frame(&mut surface);
    assert_eq!(report.outcome, AcquireOutcome::Acquired);
    assert!(report.resize_reconfigured);
    assert!(report.retried);
    // The resize reconfiguration, then the recovery one.
    assert_eq!(surface.reconfigures, vec![(1024, 768), (1024, 768)]);
    assert_eq!(surface.acquired, Some((1024, 768)));
}
