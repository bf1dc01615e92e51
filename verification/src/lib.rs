//! Locate an installed package's source directory inside a build workspace
//! and pick the editor command that should be launched on it.
//!
//! The pipeline is strictly linear: resolve the workspace metadata to a list
//! of packages, find the requested package by exact name, take the parent
//! directory of its manifest, and choose an editor from three configuration
//! values in fixed priority order. Each step either succeeds or aborts the
//! whole run with a dedicated error.

pub mod editor;
pub mod model;
pub mod paths;
pub mod pipeline;
pub mod resolve;

pub use editor::get_editor_path;
pub use paths::get_package_path;
pub use pipeline::try_main;
pub use resolve::get_package;
pub use model::LaunchPlan;
pub use model::OpenError;
pub use model::Package;
