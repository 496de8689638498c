//! Bounds-checked copying between byte buffers, and guarded allocation of
//! zero-filled buffers.
//!
//! The operations come in two families. Those of [`truncating`] never fail:
//! they do as much as can be done. Those of [`validating`] do all or
//! nothing, and report an [`error::InvalidInput`] where it is nothing.

pub mod error;
pub mod model;
pub mod truncating;
pub mod validating;
