//! The rendering surface manager: presentation configuration, the lazy
//! pending-resize flag, and resilient frame acquisition.

use vstd::prelude::*;

verus! {

/// The negotiated image format of the presentation surface.
#[derive(Clone, Copy, PartialEq, Eq, Structural, Debug)]
pub enum ImageFormat {
    Bgra8Unorm,
}

/// The swap strategy the surface presents with.
#[derive(Clone, Copy, PartialEq, Eq, Structural, Debug)]
pub enum SwapStrategy {
    Fifo,
}

/// The presentation configuration: image format, target size and swap
/// strategy. Mutated only by the surface manager.
#[derive(Clone, Copy, PartialEq, Eq, Structural, Debug)]
pub struct SurfaceConfig {
    pub format: ImageFormat,
    pub width: u32,
    pub height: u32,
    pub present_mode: SwapStrategy,
}

/// The surface operations only the GPU backend can perform. The host
/// implements this against the real device and swap chain; tests drive it
/// with scripted stand-ins. The manager's guarantees hold whatever an
/// implementation does, so the trait carries no contracts.
pub trait SurfacePort {
    /// Rebuild the swap chain for the given size.
    fn reconfigure(&mut self, width: u32, height: u32);

    /// Try to acquire the next presentable image; report success.
    /// On success the port holds the image for the current frame.
    fn attempt_acquire(&mut self) -> bool;
}

/// How one acquisition call ended.
#[derive(Clone, Copy, PartialEq, Eq, Structural, Debug)]
pub enum AcquireOutcome {
    /// The port holds a presentable image.
    Acquired,
    /// Two consecutive attempts failed; the caller must abandon the frame
    /// and terminate rather than retry indefinitely.
    Fatal,
}

/// What one acquisition call observed and decided.
#[derive(Clone, Copy, PartialEq, Eq, Structural, Debug)]
pub struct AcquireReport {
    pub outcome: AcquireOutcome,
    /// A pending resize was applied: the surface was reconfigured to the
    /// current configuration before the first attempt.
    pub resize_reconfigured: bool,
    /// The first acquisition attempt succeeded.
    pub first_attempt_ok: bool,
    /// The first attempt failed, so the surface was reconfigured once more
    /// and the attempt repeated exactly once.
    pub retried: bool,
}

/// The rendering surface manager. It owns the presentation configuration
/// and the pending-resize flag, and decides when the surface is
/// reconfigured; the GPU work itself happens behind a [`SurfacePort`].
pub struct RenderingContext {
    /// The current presentation configuration.
    pub sc_desc: SurfaceConfig,
    /// Set by a resize request, cleared exactly when the surface has been
    /// reconfigured for that size inside an acquisition call.
    pub resize: bool,
    /// How many times the surface has been reconfigured since setup.
    pub reconfigurations: Ghost<nat>,
}

/// The state a resize request leaves the manager in: the target size is
/// recorded and the pending-resize flag set, and nothing else changes —
/// in particular no reconfiguration happens on this path.
pub open spec fn spec_resize_request(c: RenderingContext, width: u32, height: u32) -> RenderingContext {
    RenderingContext {
        sc_desc: SurfaceConfig { width, height, ..c.sc_desc },
        resize: true,
        reconfigurations: c.reconfigurations,
    }
}

/// The state a burst of resize requests leaves the manager in, applied in
/// order.
pub open spec fn spec_apply_resize_requests(c: RenderingContext, requests: Seq<(u32, u32)>) -> RenderingContext
    decreases requests.len(),
{
    if requests.len() == 0 {
        c
    } else {
        spec_apply_resize_requests(
            spec_resize_request(c, requests[0].0, requests[0].1),
            requests.drop_first(),
        )
    }
}

/// Resize idempotence: a burst of resize requests, however many, performs
/// no reconfiguration at all — it only records the last requested size and
/// sets the pending-resize flag. Together with the acquisition contract
/// this makes the whole burst cost exactly one reconfiguration, to the
/// final size, at the next acquisition: `get_current_frame` reconfigures
/// once exactly when the flag is set, clears it, and leaves the recorded
/// size in place.
pub proof fn lemma_resize_idempotence(c: RenderingContext, requests: Seq<(u32, u32)>)
    requires
        requests.len() > 0,
    ensures
        ({
            let f = spec_apply_resize_requests(c, requests);
            &&& f.sc_desc.width == requests.last().0
            &&& f.sc_desc.height == requests.last().1
            &&& f.sc_desc.format == c.sc_desc.format
            &&& f.sc_desc.present_mode == c.sc_desc.present_mode
            &&& f.resize == true
            &&& f.reconfigurations == c.reconfigurations
        }),
    decreases requests.len(),
{
    reveal_with_fuel(spec_apply_resize_requests, 2);
    if requests.len() > 1 {
        lemma_resize_idempotence(
            spec_resize_request(c, requests[0].0, requests[0].1),
            requests.drop_first(),
        );
        assert(requests.drop_first().last() == requests.last());
    }
}

impl RenderingContext {
    /// A freshly established surface: configured once for the given size,
    /// with no resize pending.
    pub fn setup(width: u32, height: u32) -> (r: RenderingContext)
        ensures
            r.sc_desc == (SurfaceConfig {
                format: ImageFormat::Bgra8Unorm,
                width,
                height,
                present_mode: SwapStrategy::Fifo,
            }),
            r.resize == false,
            r.reconfigurations@ == 0,
    {
        RenderingContext {
            sc_desc: SurfaceConfig {
                format: ImageFormat::Bgra8Unorm,
                width,
                height,
                present_mode: SwapStrategy::Fifo,
            },
            resize: false,
            reconfigurations: Ghost(0),
        }
    }

    /// The feature set establishment negotiates with the GPU backend: a
    /// requested feature is granted exactly where the adapter offers it.
    pub fn negotiated_features(adapter_features: u64, requested_features: u64) -> (r: u64)
        ensures
            r == (adapter_features & requested_features),
    {
        adapter_features & requested_features
    }

    /// Record new target dimensions and set the pending-resize flag.
    /// Cheap and callable from the event path: no GPU work happens here;
    /// the surface is reconfigured lazily at the next acquisition.
    pub fn resize_request(&mut self, width: u32, height: u32)
        ensures
            *final(self) == spec_resize_request(*old(self), width, height),
    {
        self.sc_desc.width = width;
        self.sc_desc.height = height;
        self.resize = true;
    }

    /// Acquire the next presentable image through the port.
    ///
    /// If a resize is pending the surface is first reconfigured to the
    /// current configuration and the flag cleared. Then acquisition is
    /// attempted; on a transient failure the surface is reconfigured
    /// unconditionally and the attempt repeated exactly once; a second
    /// consecutive failure is fatal. The report ties every decision to
    /// the state the manager was in.
    pub fn get_current_frame<P: SurfacePort>(&mut self, port: &mut P) -> (r: AcquireReport)
        ensures
            r.resize_reconfigured == old(self).resize,
            final(self).resize == false,
            final(self).sc_desc == old(self).sc_desc,
            r.retried == !r.first_attempt_ok,
            r.first_attempt_ok ==> r.outcome is Acquired,
            r.outcome is Fatal ==> r.retried,
            final(self).reconfigurations@ == old(self).reconfigurations@
                + (if old(self).resize { 1nat } else { 0nat })
                + (if r.retried { 1nat } else { 0nat }),
    {
        let resize_reconfigured = self.resize;
        if self.resize {
            port.reconfigure(self.sc_desc.width, self.sc_desc.height);
            self.resize = false;
            self.reconfigurations = Ghost(self.reconfigurations@ + 1);
        }
        let first_attempt_ok = port.attempt_acquire();
        if first_attempt_ok {
            return AcquireReport {
                outcome: AcquireOutcome::Acquired,
                resize_reconfigured,
                first_attempt_ok,
                retried: false,
            };
        }
        port.reconfigure(self.sc_desc.width, self.sc_desc.height);
        self.reconfigurations = Ghost(self.reconfigurations@ + 1);
        let retry_ok = port.attempt_acquire();
        AcquireReport {
            outcome: if retry_ok { AcquireOutcome::Acquired } else { AcquireOutcome::Fatal },
            resize_reconfigured,
            first_attempt_ok,
            retried: true,
        }
    }
}

} // verus!
