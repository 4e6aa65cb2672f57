//! Workers on the team.

use vstd::prelude::*;

verus! {

/// The level of experience at which a worker stops learning.
pub const EXPERIENCE_CAP: u32 = 128;

/// A status of the worker, recomputed on every tick.
#[derive(Debug, Copy, Clone, PartialEq, Eq, Hash, Structural)]
pub enum HumanStatus {
    Idle,
    Writing,
    Coding,
    Reviewing,
}

/// A human resource.
#[derive(Debug, Clone, PartialEq)]
pub struct GameHuman {
    /// unique ID (0 is the player)
    pub id: u32,
    /// name
    pub name: String,
    /// The worker's color code
    pub color: String,
    /// current status
    pub status: HumanStatus,
    /// the experience level of the worker
    pub experience: u32,
    /// whether the worker quit the team and is not coming back
    pub quit: bool,
}

impl GameHuman {
    /// Create a new worker.
    pub fn new(id: u32, name: String, color_code: String, initial_experience: u32) -> (h: Self)
        ensures
            h == (GameHuman {
                id,
                name,
                color: color_code,
                status: HumanStatus::Idle,
                experience: initial_experience,
                quit: false,
            }),
    {
        GameHuman {
            id,
            name,
            color: color_code,
            status: HumanStatus::Idle,
            experience: initial_experience,
            quit: false,
        }
    }
}

} // verus!
