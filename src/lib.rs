//! Supervision of a local server process: choosing its port, building its
//! command line, capturing its output in a bounded log, deciding each step of
//! its startup, and stopping it exactly once.

pub mod diagnostics;
pub mod launch;
pub mod log_buffer;
pub mod port;
pub mod readiness;
pub mod shutdown;
pub mod startup;
pub mod text;
