//! Admission-time mutation policy for managed database resources.
//!
//! The library reads a resource through a uniform view, derives the JSON Patch
//! operations that bring it in line with the tenant's policy, and decides the
//! admission outcome of a request.

pub mod patch;
pub mod json;
pub mod aiven_object;
pub mod aiven_types;
pub mod settings;
pub mod mutators;
pub mod web;
pub mod laws;
