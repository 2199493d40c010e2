//! A typed binding for System V message queues: flag sets, message records,
//! the meaning of raw kernel results as typed outcomes, and the
//! command-line grammar of the `sysvqueue` tool.

pub mod cli;
pub mod flags;
pub mod message;
pub mod queue;
