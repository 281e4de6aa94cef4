//! Checks, before anything reaches a graphics backend, that a shader's
//! resource interface matches the binding layout it is used with, and that
//! dynamic buffer offsets stay within bounds.

pub mod binding_model;
pub mod ir;
pub mod types;
pub mod validation;
