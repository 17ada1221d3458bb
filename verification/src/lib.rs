//! Verified core of a pull-based screen-frame capture pipeline.
//!
//! A compositor delivers frames asynchronously into a single-slot,
//! latest-wins mailbox; a consumer pulls the most recent frame at any time
//! and turns the staging copy into a tightly packed BGRA8 byte buffer,
//! correcting for hardware row-pitch padding.  The graphics backend itself
//! (device bring-up, frame pool, GPU copies, mapping) performs I/O and lives
//! outside this crate; the decisions it depends on and the data it hands
//! back are modelled and verified here.

pub mod capture;
pub mod d3d;

pub use capture::Capture;
pub use capture::CaptureError;
pub use capture::FrameArrival;
pub use capture::FrameSlot;
pub use capture::RawFrameData;
pub use d3d::StagingTexture;
pub use d3d::TextureDesc;
