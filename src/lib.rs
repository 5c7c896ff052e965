//! Lifecycle supervision of a backend worker process: where to launch it
//! from, when it has become ready, what the host is told, and how it is
//! torn down.

pub mod text;
pub mod readiness;
pub mod launch;
pub mod status;
pub mod supervisor;
