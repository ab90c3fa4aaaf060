//! Preprocessing of SIS camera frames: the frame codec, the grouping of
//! change notifications into batches, and the processing strategies.
//!
//! The library decides and computes; it touches no file. A strategy answers
//! a batch of paths with a plan of the files to copy and the frames to
//! reduce, and the caller carries the plan out.

pub mod batch;
pub mod config;
pub mod dispatch;
pub mod error;
pub mod grid;
pub mod le;
pub mod od;
pub mod pattern;
pub mod process;
pub mod sisimg;
