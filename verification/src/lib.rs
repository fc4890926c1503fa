//! Batch management of milestones across many repositories.
//!
//! The library holds the decisions: which repository entries are acceptable,
//! how a milestone title is resolved to an identifier, and how a command is
//! applied to each repository in turn. Talking to the remote service is left
//! to the caller, who performs each request the library asks for and hands
//! the answer back.
//!
//! - `target`: repository entries and their validation.
//! - `milestone`, `remote`: the data that goes to the service and comes back.
//! - `resolution`, `client`: resolving a title, and the four operations on
//!   the milestones of one repository.
//! - `command`, `batch`: a command, and its application to a whole list.
//! - `report`, `startup`: what the operator is told.
//! - `model`, `laws`, `world`: a mathematical model of the service, and what
//!   is proved of the operations and of a batch against it.

pub mod batch;
pub mod client;
pub mod command;
pub mod laws;
pub mod milestone;
pub mod model;
pub mod remote;
pub mod report;
pub mod resolution;
pub mod startup;
pub mod target;
pub mod world;
