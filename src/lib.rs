//! A host for hot-swappable sandboxed guests: the command protocol spoken
//! across the sandbox boundary, the guest's own frame logic, change detection
//! on the guest artifact, and the reload state machine with state migration.

pub mod protocol;
pub mod text;
pub mod codec;
pub mod game;
pub mod watcher;
pub mod reload;
pub mod migrate;
