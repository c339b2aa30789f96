//! Supervision of a single long-running backend process ("the sidecar"):
//! launch parameters, readiness probing, output relay and shutdown
//! coordination, written as pure decision logic. The embedding host performs
//! the actual process, network and clock operations and reports their
//! outcomes back as events.

pub mod launch;
pub mod lifecycle;
pub mod log;
pub mod probe;
pub mod relay;
pub mod slot;
pub mod supervisor;
pub mod text;
