//! Native shell around a local backend server process: resolve where the
//! backend lives, plan how to start it, and track the one running child so
//! that a best-effort close can stop it.

pub mod launch;
pub mod paths;
pub mod registry;
