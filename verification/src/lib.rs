//! A verified core for a full-screen dimming overlay.
//!
//! The library holds the surface lifecycle and pixel-buffer state machine:
//! a model of the shared-memory buffer pool, a frame renderer that fills
//! buffers with a constant dimming colour, the ordered surface-presentation
//! commands, and the event router that drives them. The display-server
//! transport itself lives outside the library; it feeds events in and
//! carries the returned actions out.

pub mod pool;
pub mod render;
pub mod router;
pub mod session;
