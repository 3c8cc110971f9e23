//! Supervision logic for a locally launched backend server process.
//!
//! The library holds the decision logic of a small process supervisor:
//! building the launch plan for the backend executable, driving the
//! readiness probe that waits for the backend to accept TCP connections,
//! owning the running process through a lifecycle guard that tears it
//! down exactly once, and the state machine that ties these together.
//! The surrounding binary performs the actual spawning, connecting and
//! sleeping, and feeds the observed outcomes into these functions.

pub mod errors;
pub mod guard;
pub mod launch;
pub mod paths;
pub mod prober;
pub mod session;
