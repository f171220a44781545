//! Capture-to-disk streaming core: the rotation policy, the writer's state
//! machine, stream format negotiation, file naming and configuration choices.

pub mod policy;
pub mod coordinator;
pub mod source;
pub mod naming;
pub mod config;
