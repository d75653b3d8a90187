//! Verified core of a small batch image-tinifier: output-path naming,
//! per-file skip/process decisions, batch idempotence, and the square-pad
//! geometry used before resizing, with the image codec behind trusted
//! wrappers and all network work left to the calling binary.

pub mod bytes;
pub mod naming;
pub mod pipeline;
pub mod rerun;
pub mod transform;
