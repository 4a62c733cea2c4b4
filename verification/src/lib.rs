//! Latest-frame hand-off for a live camera feed.
//!
//! Raw frames arrive in one of four interleaved 8-bit layouts, are brought to
//! a single three-channel layout, and are parked in a one-place slot from
//! which a polling consumer takes the most recent one.
//!
//! - [`format`]: the layouts, and why a frame can be refused.
//! - [`normalize`]: from a raw frame to the canonical one.
//! - [`frame`]: the canonical frame and the slot that holds the latest one.
//! - [`delivery`]: what becomes of a sample that the pipeline announces.
//! - [`shared`]: the slot behind a lock, for two threads.
//! - [`session`]: the states of a capture session and the moves between them.
//! - [`pipeline`]: the description of the pipeline to launch.
//! - [`provider`]: the named provider that a consumer polls.
//!
//! The capture pipeline itself is not part of this crate. Whoever drives it
//! launches it from the description given here, hands over each sample it
//! announces, and reports how it answered each change of state.

pub mod delivery;
pub mod format;
pub mod frame;
pub mod normalize;
pub mod pipeline;
pub mod provider;
pub mod session;
pub mod shared;

pub use format::TextureFormat;
pub use provider::CamProvider;
