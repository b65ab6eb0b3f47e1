//! State shared with a user interface.

pub mod cpu_debugger;
pub mod frame;
pub mod input;
pub mod step_state;
