//! Fixed-step integration core for the Hindmarsh-Rose neuron model.
//!
//! All quantities are carried as fixed-point numbers: an `i64` holding the
//! value scaled by `fixed::SCALE`. A result of `None` marks a value that has
//! left the representable range, which the tick machine treats the same way
//! the host treats a non-finite float: the offending update is discarded.

pub mod fixed;
pub mod hr;
pub mod neuron;
pub mod rk4;
pub mod selector;
pub mod text;

pub use fixed::SCALE;
pub use neuron::NeuronCore;
