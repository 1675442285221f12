//! Job session registry and progress-broadcast pipeline of a document
//! compression service.
//!
//! A client opens a live connection under a job identifier and is kept
//! informed, snapshot by snapshot, while a batch of uploaded documents under
//! the same identifier is compressed. This crate holds the rules of that
//! exchange: which connection listens for which job, how the state of each
//! file advances, what is written on the wire, and what the batch answers in
//! the end. Network, processes and temporary files are left to the caller.

pub mod archive;
pub mod frame;
pub mod job_id;
pub mod level;
pub mod pdf;
pub mod pipeline;
pub mod processor;
pub mod session;
pub mod status;
pub mod wire;
pub mod ws;
