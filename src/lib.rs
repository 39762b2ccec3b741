//! Vector scenes drawn by simulation code, extracted each frame into a render
//! world, rendered into GPU targets and composited onto camera outputs.
//!
//! The library holds the decisions of that pipeline: how fragments are stitched
//! into scenes, which scenes a frame renders and with what parameters, and which
//! bind groups and pipelines a blit may reuse. The GPU work itself is done by the
//! caller, following the plans computed here.

pub mod encoding;
pub mod fragment;
pub mod scene;
pub mod target;
pub mod draw;
pub mod blit;
