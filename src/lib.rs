//! Construction of isolated Python environments: interpreter metadata and its
//! cache, the on-disk layout of an environment, and the bootstrap packages.
pub mod bare;
pub mod disk;
pub mod interpreter;
pub mod packages;
pub mod paths;
pub mod text;
