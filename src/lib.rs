//! Protocol core for embedding a single-threaded, event-loop-driven script
//! runtime in a host process: the registration latch, the bootstrap state
//! machine that publishes the task channel exactly once, the per-sender FIFO
//! task queue, process-argument forwarding and run outcomes, and the
//! synchronous submit-and-wait helper.
pub mod bootstrap;
pub mod invoke;
pub mod latch;
pub mod sync;
pub mod tasks;
