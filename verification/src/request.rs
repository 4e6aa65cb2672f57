//! Requests consumed by the world state's single entry point.

use vstd::prelude::*;

use crate::task::{GameTaskBuilder, StageId};
use crate::transfer::TaskTransfer;

verus! {

/// All requests that can be delivered to the game state.
#[derive(Debug, Clone, PartialEq)]
pub enum EventBusRequest {
    /// Move a task into a different stage
    MoveTask { task: TaskTransfer, to: StageId },
    /// Assign the task to a worker
    AssignTask { task: TaskTransfer, human_id: u32 },
    /// Signal that a task is being dragged
    DragTaskStart(u32),
    /// Signal that the task stopped being dragged
    DragTaskEnd(u32),
    /// Add the given task details to the board.
    /// Usually employed by the tutorial.
    AddTask(GameTaskBuilder),
    /// Advance the tutorial to the next phase
    AdvanceTutorial,
    /// An in-game time tick occurred.
    Tick,
    /// Advance to the next month,
    /// usually as a consequence of confirming the end-of-month report.
    NextMonth,
}

} // verus!
