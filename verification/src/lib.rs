//! Shape and scheduling core of a fully-connected feed-forward network
//! trained by gradient descent.
//!
//! The crate decides everything about a training step that is not
//! arithmetic on real numbers: which layer has which size, which shape each
//! weight matrix and bias vector has, whether a set of parameters fits
//! together, in which order the backward sweep visits the layers, and which
//! activation each gradient is paired with.

pub mod backward;
pub mod forward;
pub mod init;
pub mod laws;
pub mod shape;
pub mod topology;
pub mod update;
