//! Translation of internal failures into public ones at a module boundary.
//!
//! An internal failure is raised where an operation fails; before it leaves
//! its module it is converted into a public failure that holds the internal
//! one as its cause, behind a shared handle, so that the public failure can
//! be duplicated cheaply. The pattern is shown three times, once per module
//! below, with and without a captured stack trace.
pub mod failure;
pub mod err_derive_example;
pub mod snafu_example;
pub mod thiserror_example;
