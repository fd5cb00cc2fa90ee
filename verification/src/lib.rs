//! Process and module introspection toolkit: locating a running process by
//! image name, locating a module loaded inside it, reading the module's
//! in-memory bytes, and patching them back after relaxing page protections.
//!
//! The operating-system primitives (enumeration, memory transfer, protection
//! change) are performed by an unverified host layer. This crate holds the
//! verified decision logic: the growable-buffer enumeration protocol, name
//! matching, liveness detection, error construction, and the
//! protect/write/restore patch sequence, each modelled as a step machine
//! driven by the outcomes of those primitives.

pub mod errors;
pub mod growth;
pub mod module;
pub mod paths;
pub mod process;
