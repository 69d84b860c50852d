//! Passing values to foreign code that takes its parameters by value.
//!
//! A value source is either a reference to a copy-constructible value, which
//! is duplicated into a pinned slot before the call, or an owning pointer
//! whose target already sits at a stable address and is handed over as is.
//! [`ValueParamHandler`] sequences the lifecycle of that slot.

mod pinned;
pub mod source;
pub mod handler;

pub use handler::ValueParamHandler;
pub use source::ValueParam;
