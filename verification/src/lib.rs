//! Building blocks for ending a task run: a compact duration encoding and the
//! decisions that reconcile an interrupt with the natural end of the run.

pub mod coordinator;
pub mod interval;
pub mod orchestration;
pub mod pico_duration;
