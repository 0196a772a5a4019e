//! Layered configuration policy: resolves a chain of policy layers and decides,
//! for each managed or required path, whether the project agrees with the
//! policy (check) and what must change to make it agree (apply).
//!
//! The library works on plain observations of the filesystem; the caller
//! gathers them, performs the returned actions, and reports the outcomes.

pub mod apply;
pub mod bytes;
pub mod chain;
pub mod check;
pub mod config;
pub mod laws;
pub mod model;
pub mod repository;

pub use apply::{
    apply, apply_entry, apply_includes, apply_regular_file, apply_required, apply_required_path,
    apply_symlink, Action, LayerPlan,
};
pub use bytes::bytes_eq;
pub use chain::{ChainWalk, CyclicPolicyError};
pub use check::{
    all_ok, check, check_entry, check_includes, check_layer, check_regular_file, check_required,
    check_required_path, check_symlink, ChainReport, LayerReport, Verdict,
};
pub use config::{Config, Policy, PolicyToml};
pub use model::{classify, Artifact, EntryKind, EntryObservation, LayerObservation, PathState};
pub use repository::repo_name;
