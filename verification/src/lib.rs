//! Error values for a QOI image codec: a closed set of failure kinds, and an
//! error that pairs one kind with a free-form description.
//!
//! Nothing here detects a failure. A decoder or encoder builds a [`QoIError`]
//! where it finds one, and hands it up unchanged; a caller then branches on its
//! kind or shows its text.

pub mod error;
pub mod kind;

pub use error::{ErrorModel, QoIError};
pub use kind::ErrorType;
