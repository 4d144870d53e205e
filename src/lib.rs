//! Watch/build/reload orchestration for a compiled web front-end project.
//!
//! The library holds the decisions of the development loop: the events that
//! travel on the message bus, the bus itself, the shutdown flag, shutdown-aware
//! waiting, the watcher's coalescing of change bursts, the build pipeline's
//! stage plans, the rebuild state machine and the forwarding of reload
//! instructions to browser connections. Everything here is a plain value; the program around it
//! performs the work that each decision asks for.
pub mod msg;
pub mod shutdown;
pub mod bus;
pub mod pipeline;
pub mod rebuild;
pub mod reload;
pub mod cli;
pub mod debounce;
pub mod wait;
