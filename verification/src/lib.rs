//! Safe Rust layer over the Huawei Ascend CANN NPU runtime, with its
//! contracts proved by Verus.
//!
//! Modules:
//! - [`sys`]: the raw constants and enum values of the CANN C interface
//!   (error codes, data types, formats, memory policies, copy kinds, graph
//!   status codes).
//! - [`error`]: the library's error value and its classification.
//! - [`text`]: decimal rendering and parsing of integers, used in messages
//!   and version strings.
//! - [`version`], [`context`], [`device`], [`stream`], [`event`], [`buffer`],
//!   [`tensor`], [`op`], [`graph`]: the runtime objects. This build links no
//!   NPU runtime, so every entry point that would reach the device reports
//!   the "runtime not linked" error; the pure decisions that sit around the
//!   runtime calls (probe selection, workspace alignment, argument checks,
//!   status conversion) are verified functions of their own.

pub mod buffer;
pub mod context;
pub mod device;
pub mod error;
pub mod event;
pub mod graph;
pub mod op;
pub mod stream;
pub mod sys;
pub mod tensor;
pub mod text;
pub mod version;

pub use error::Error;
