//! Decision logic of a polling client that keeps itself logged in: what the operator's
//! answers mean, what each token exchange sends and what its reply means, and the poll
//! loop as a state machine that a driver feeds with what happened on the network.

pub mod config;
pub mod poll;
pub mod report;
pub mod session;
pub mod text;
pub mod theorems;
