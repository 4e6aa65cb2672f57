//! Simulation engine for a software-project management game.
//!
//! Tasks travel through a five-stage pipeline (backlog, sprint candidate,
//! in progress, under review, done) on a board shared by a small team of
//! workers.  The aggregate [`state::WorldState`] owns every task and worker
//! and is mutated through a single request entry point; a seeded
//! [`reactor::EventReactor`] supplies every chance-based outcome.

pub mod arith;
pub mod human;
pub mod messages;
pub mod reactor;
pub mod request;
pub mod speed;
pub mod state;
pub mod task;
pub mod transfer;
