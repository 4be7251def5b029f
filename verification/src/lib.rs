//! A k-anonymity credential-check service core.
//!
//! The library has two halves that share one schema definition:
//!
//! * [`handler`] validates an inbound credential-check request against the
//!   prefix-length bounds and shapes the response or the rejection.
//! * [`docs`] models the service's contract document (metadata, schemas,
//!   security scheme) and renders it to its canonical YAML form.

pub mod decimal;
pub mod docs;
pub mod handler;
pub mod render;
