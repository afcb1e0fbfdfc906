//! Repository status for a shell prompt: branch resolution, divergence from
//! the upstream, classification of pending changes, and the prompt text.

pub mod changes;
pub mod head;
pub mod render;
pub mod repo;
