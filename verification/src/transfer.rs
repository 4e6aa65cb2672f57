//! Payloads carried by drag-and-drop requests.

use vstd::prelude::*;

use crate::task::{StageId, TaskKind};

verus! {

/// The data transferred when dragging a task to a drop zone.
///
/// A task reference carries enough information to be validated without
/// a prior lookup round-trip.
#[derive(Debug, Clone, PartialEq, Eq, Structural)]
pub struct TaskTransfer {
    /// the unique task ID
    pub id: u32,
    /// the kind of the task
    pub kind: TaskKind,
    /// where it came from
    pub from: StageId,
    /// the task's progress in thousandths when the drag started
    pub progress: u32,
}

/// A drag and drop effect from the Drag and Drop Web API.
#[derive(Debug, Copy, Clone, PartialEq, Eq, Hash, Structural)]
pub enum DragEffect {
    /// indicates that the dragged data
    /// will be copied from its present location to the drop location
    Copy,
    /// indicates that the dragged data
    /// will be moved from its present location to the drop location
    Move,
    /// indicates that some form of relationship or connection
    /// will be created between the source and drop locations
    Link,
}

impl DragEffect {
    /// Convert to its standard string representation.
    pub fn to_name(self) -> (r: &'static str)
        ensures
            r@ == match self {
                DragEffect::Copy => "copy"@,
                DragEffect::Move => "move"@,
                DragEffect::Link => "link"@,
            },
    {
        match self {
            DragEffect::Copy => "copy",
            DragEffect::Move => "move",
            DragEffect::Link => "link",
        }
    }
}

} // verus!
