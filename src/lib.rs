//! Marshaling between camera pixel buffers and the tensors of a fixed
//! 512x512 image-to-image network, and the decisions of the single-shot
//! pipeline that runs it.
//!
//! Tensor values are fixed-point integers: `FIXED_ONE` units stand for 1.0,
//! which makes both the normalization of a byte and the denormalization of a
//! tensor value exact.
pub mod tensor;
pub mod ingest;
pub mod emit;
pub mod pipeline;
