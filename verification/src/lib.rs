//! Verified construction of YAML documents.
//!
//! The serializer in [`ser`] assembles `yaml_rust::Yaml` trees one value at a
//! time; every function states which document it yields, over the
//! mathematical model in [`doc`].

pub mod doc;
pub mod emit;
pub mod error;
pub mod laws;
pub mod ser;
pub mod yaml_tree;
