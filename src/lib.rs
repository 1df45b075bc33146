//! Per-core CPU utilization and the state of a panel applet that shows it.
//!
//! The library holds the arithmetic that turns a snapshot of per-core
//! readings into the single percentage shown on the panel, and the state
//! transitions of the applet (popup toggling, popup closing, new samples).
//! Reading the counters of the host and drawing widgets is left to the shell.
pub mod app;
pub mod cpu;
pub mod label;

pub use app::{Action, App, Message};
pub use cpu::{get_cpu_percentage, Cpu};
pub use label::percent_label;
