//! Verified core of an inference runtime for autoregressive sequence models.
//!
//! The library manages a single process-wide execution session: model
//! metadata and version dispatch, the quantization plan, the hook extension
//! table, the autoregressive inference loop, the two-stage sampling
//! algorithm, and the state accessor.  The tensor engine itself (GPU kernels,
//! file formats) is an external collaborator; the logic here is what decides,
//! dispatches and accounts, and every function of it carries a contract.

pub mod engine;
pub mod hooks;
pub mod info;
pub mod quant;
pub mod registry;
pub mod sampler;
pub mod state;
