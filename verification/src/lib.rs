//! Two-phase-commit coordination: one coordinator batches client requests,
//! fans each one out as a proposal, collects participant votes under a
//! deadline, derives an all-or-nothing global decision, and logs every
//! transition to a per-actor append-only operation log. Participants vote by
//! performing a probabilistic local operation and send through a simulated
//! unreliable channel; clients issue uniquely-identified requests and tally
//! their outcomes. The state machines, the decision rule, the message
//! protocol and the accounting live here, verified; channels, clocks,
//! processes and the durable mirror of the log live in the embedding
//! program, which feeds each actor the events it observed.

pub mod client;
pub mod coordinator;
pub mod laws;
pub mod message;
pub mod oplog;
pub mod participant;
