//! Verified model of a GPU presentation-chain lifecycle and its render loop.
//!
//! The library is split in two layers. [`context`] models the graphics
//! context: the presentation-chain descriptor, the chain's validity state,
//! and the per-frame acquire/record/submit protocol. [`driver`] models the
//! application loop that translates window events into calls on the context
//! and interprets each frame's outcome (retry, resize, or terminate).
//!
//! All GPU and windowing work itself happens in an unverified shell that owns
//! the real device, queue, surface and window. The shell feeds events and
//! frame-acquisition outcomes into these types and performs the actions they
//! return, so every decision of the loop is made by verified code.

pub mod context;
pub mod driver;
