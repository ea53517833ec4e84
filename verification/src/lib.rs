//! Orchestration core for a GPU compute pipeline with runtime kernel reload.
//!
//! The library models the decisions a render host makes each frame: which
//! program is installed and ready, how a fresh binding set is stamped, what
//! workgroup grid a dispatch covers, and how an external reload request
//! crosses into the frame loop. The host performs the device work (image
//! allocation, program compilation, command submission) and feeds the
//! observed outcomes back in as plain values.

pub mod allocator;
pub mod binding;
pub mod bridge;
pub mod cache;
pub mod dispatch;
pub mod frame;
