//! Supervision logic for a companion backend process ("sidecar") of a desktop
//! shell: the startup handshake on its output, the launch sequence, the shared
//! state that answers port queries, and the plan for tearing its process tree
//! down.
//!
//! The library decides and computes; it performs no input or output. A host
//! spawns the process, reads its output line by line, waits with a timeout and
//! runs the kill command, and hands each observation to the functions here.

pub mod decimal;
pub mod port;
pub mod handshake;
pub mod command;
pub mod launch;
pub mod shutdown;
pub mod state;
