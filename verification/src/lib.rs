//! A per-frame orchestration harness: the decision core of a render loop that
//! ties a presentation surface, an immediate-mode UI overlay and a host
//! application callback set together.
//!
//! The library owns the frame lifecycle protocol — coalesced resize
//! reconfiguration, resilient image acquisition, the strictly ordered
//! per-frame pass sequence, and loop termination — as verified state
//! transitions. The concrete GPU backend, the windowing system, the UI
//! overlay renderer and the system clipboard are external collaborators:
//! the host reaches them through the port and capability traits and feeds
//! their answers back as plain values.

pub mod application;
pub mod context;
pub mod rendering_context;
