//! Verified core of a PTY hand-off tool.
//!
//! A "runner" process allocates a pseudo-terminal, makes the target command
//! its session leader on the PTY's peer end, and passes the controlling
//! descriptor to a separately started "head" process over a Unix-domain
//! socket. The head bridges its local terminal and the received PTY until
//! either side closes.
//!
//! This crate holds the decision logic of that system: descriptor-ownership
//! lifecycles, the byte-relay state machine, raw-mode save/restore, the
//! socket lifecycle and connect-retry policy, and the runner's establishment
//! sequence. The process that performs the actual system calls drives these
//! state machines and carries out the actions they return.

pub mod channel;
pub mod descriptor;
pub mod establish;
pub mod head;
pub mod relay;
pub mod session;
pub mod terminal;
pub mod winsize;
