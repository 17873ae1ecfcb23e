//! The application capability: the host-supplied hook set the orchestrator
//! drives once per frame.

use vstd::prelude::*;
use crate::context::LoopEvent;

verus! {

/// A color with one byte per channel, as the capability declares its clear
/// color. The host converts it to whatever the GPU backend expects.
#[derive(Clone, Copy, PartialEq, Eq, Structural, Debug)]
pub struct Color {
    pub r: u8,
    pub g: u8,
    pub b: u8,
    pub a: u8,
}

/// Opaque black, the default clear color.
pub open spec fn spec_black() -> Color {
    Color { r: 0, g: 0, b: 0, a: 255 }
}

impl Color {
    /// Opaque black, the default clear color.
    pub fn black() -> (c: Color)
        ensures
            c == spec_black(),
    {
        Color { r: 0, g: 0, b: 0, a: 255 }
    }
}

/// The fixed hook set of the application capability. The orchestrator
/// assumes nothing beyond this contract and tolerates any subset of hooks
/// doing real work; a capability that overrides nothing behaves like
/// [`DefaultApplication`]: no-op hooks, never exiting, clearing to black.
///
/// The GPU-facing hooks (`update`, `render`, `build_ui`) act on state the
/// host holds behind the capability; the orchestrator only fixes when each
/// is invoked.
pub trait Application: Sized {
    /// Whether the capability has flagged that the loop should end.
    spec fn exit_requested(&self) -> bool;

    /// The clear color the capability declares for the background pass.
    spec fn declared_clear_color(&self) -> Color;

    /// Per-frame work before any drawing.
    fn update(&mut self);

    /// The capability's own pass(es) against the acquired image. It must
    /// leave the image's prior contents intact: the defined background is
    /// established by the orchestrator's clear pass, never here.
    fn render(&mut self);

    /// Describe this frame's UI against the ephemeral UI frame.
    fn build_ui(&mut self);

    /// Notification of a new window size.
    fn resize(&mut self, width: u32, height: u32);

    /// Offered every event before the orchestrator acts on it; the
    /// capability may flag exit here independently of a window close.
    fn handle_event(&mut self, event: &LoopEvent);

    /// Poll the exit flag.
    fn is_exit(&self) -> (r: bool)
        ensures
            r == self.exit_requested(),
    ;

    /// Read the declared clear color.
    fn clear_color(&self) -> (r: Color)
        ensures
            r == self.declared_clear_color(),
    ;
}

/// A capability that overrides no hooks: every hook is a no-op, exit is
/// never requested, and the clear color is opaque black.
pub struct DefaultApplication;

impl Application for DefaultApplication {
    open spec fn exit_requested(&self) -> bool {
        false
    }

    open spec fn declared_clear_color(&self) -> Color {
        spec_black()
    }

    fn update(&mut self) {
    }

    fn render(&mut self) {
    }

    fn build_ui(&mut self) {
    }

    fn resize(&mut self, width: u32, height: u32) {
    }

    fn handle_event(&mut self, event: &LoopEvent) {
    }

    fn is_exit(&self) -> (r: bool) {
        false
    }

    fn clear_color(&self) -> (r: Color) {
        Color::black()
    }
}

} // verus!
