//! A local inter-process bridge: supervision of a long-lived worker process,
//! continuous draining of its output pipes, and correlation of one outgoing
//! command with its response line under a timeout.
//!
//! The crate holds the decision core of the bridge: the lifecycle state
//! machine, the wire codec for the newline-delimited JSON protocol, and the
//! single-flight request/response correlation. The host around it performs
//! the actual process and pipe operations and feeds every outcome back in as
//! an event.

pub mod backend;
pub mod errors;
pub mod json;
pub mod response;
pub mod wire;
