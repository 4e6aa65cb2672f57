//! Tasks and the stages they travel through.

use vstd::prelude::*;

verus! {

/// Progress is tracked in thousandths of completion, so that fractional
/// work can accumulate without floating-point drift.  A task is complete
/// once its progress reaches this value.
pub const PROGRESS_DONE: u32 = 1_000;

/// The unique identifier for a stage (column) in the workboard.
#[derive(Debug, Copy, Clone, PartialEq, Eq, Hash, Structural)]
pub enum StageId {
    /// Backlog, ideas, fresh and underspecified tasks.
    Backlog,
    /// Sprint candidate, for tasks to consider pursuing.
    /// Tasks must be fully specified before moving on from here.
    Candidate,
    /// Under development progress.
    Progress,
    /// Under peer review.
    Review,
    /// For tasks which are complete.
    Done,
}

impl StageId {
    /// The stage's standard lower-case name.
    pub fn to_str(self) -> &'static str {
        match self {
            StageId::Backlog => "backlog",
            StageId::Candidate => "candidate",
            StageId::Progress => "progress",
            StageId::Review => "review",
            StageId::Done => "done",
        }
    }
}

/// An enumeration for the kind of task.
#[derive(Debug, Copy, Clone, PartialEq, Eq, Structural)]
pub enum TaskKind {
    /// normal tasks, bring score rewards when done
    Normal,
    /// bug tasks, reduce score lingering and bring small rewards when done
    Bug,
    /// chore tasks, decrease technical debt when done
    Chore,
}

/// A full descriptor for a game task.
#[derive(Debug, Clone, PartialEq)]
pub struct GameTask {
    /// the unique task ID
    pub id: u32,
    /// the game time at which the task was created
    pub created: u32,
    /// the game time by which the task should be done, if it has a deadline
    pub deadline: Option<u32>,
    /// a description of the task
    pub description: String,
    /// the kind of task
    pub kind: TaskKind,
    /// At which stage the task currently is.
    pub stage: StageId,
    /// the ID of the worker assigned to the task
    pub assigned: Option<u32>,
    /// the ID of the worker who completed the development of the task
    pub developed_by: Option<u32>,
    /// The task's score to be awarded when complete.
    ///
    /// In some kinds of tasks, this is always zero.
    pub score: u32,
    /// A measurement of difficulty or effort to complete the task.
    /// Should be around 10 on average.
    pub difficulty: u32,
    /// The progress of the task, in thousandths from 0 to [`PROGRESS_DONE`].
    /// In sprint candidates, this is the writing progress.
    /// In progress, this is the progress of development.
    pub progress: u32,
    /// Whether the task is fully specified.
    pub specified: bool,
    /// the number of bugs introduced while developing the task,
    /// to be added to the software project if merged
    pub bugs: u32,
    /// the number of bugs found through review
    pub bugs_found: u32,
    /// Whether the task is visible
    /// (old tasks already done are hidden in the subsequent month)
    pub visible: bool,
}

/// Details for constructing a new task.
///
/// Used by the world state to actually create a new task.
#[derive(Debug, Clone, PartialEq)]
pub struct GameTaskBuilder {
    /// a description of the task
    pub description: String,
    /// the kind of task
    pub kind: TaskKind,
    /// The task's score to be awarded when complete.
    pub score: u32,
    /// A measurement of difficulty or effort to complete the task.
    pub difficulty: u32,
    /// How many ticks the task may stay unfinished before its deadline
    /// expires, if it has one.
    pub max_time: Option<u32>,
}

/// The number of ticks a deadline task is given upon creation.
pub const TASK_DEADLINE_TICKS: u32 = 500;

impl GameTaskBuilder {
    /// Create a new task builder without a deadline.
    pub fn new(description: String, kind: TaskKind, score: u32, difficulty: u32) -> (t: Self)
        ensures
            t == (GameTaskBuilder {
                description,
                kind,
                score,
                difficulty,
                max_time: None,
            }),
    {
        GameTaskBuilder { description, kind, score, difficulty, max_time: None }
    }

    /// Create a new task builder whose task must be done
    /// within [`TASK_DEADLINE_TICKS`] ticks.
    pub fn new_with_deadline(
        description: String,
        kind: TaskKind,
        score: u32,
        difficulty: u32,
    ) -> (t: Self)
        ensures
            t == (GameTaskBuilder {
                description,
                kind,
                score,
                difficulty,
                max_time: Some(TASK_DEADLINE_TICKS),
            }),
    {
        GameTaskBuilder { description, kind, score, difficulty, max_time: Some(TASK_DEADLINE_TICKS) }
    }
}

impl GameTask {
    /// Basic well-formedness of a task: progress never passes completion
    /// and no more bugs have been found than exist in the task.
    pub open spec fn inv(self) -> bool {
        &&& self.progress <= PROGRESS_DONE
        &&& self.bugs_found <= self.bugs
    }

    /// Whether the task counts as fully developed in the given stage.
    pub open spec fn spec_is_developed(self) -> bool {
        match self.stage {
            StageId::Backlog | StageId::Candidate => false,
            StageId::Progress | StageId::Review => self.progress >= PROGRESS_DONE,
            StageId::Done => true,
        }
    }

    /// Create a new task in the backlog.
    pub fn new(
        id: u32,
        created: u32,
        description: String,
        kind: TaskKind,
        score: u32,
        difficulty: u32,
    ) -> (t: Self)
        ensures
            t == (GameTask {
                id,
                created,
                deadline: None,
                description,
                kind,
                stage: StageId::Backlog,
                assigned: None,
                developed_by: None,
                score,
                difficulty,
                progress: 0,
                specified: false,
                bugs: if kind is Bug { 1u32 } else { 0u32 },
                bugs_found: if kind is Bug { 1u32 } else { 0u32 },
                visible: true,
            }),
            t.inv(),
    {
        let known_bugs: u32 = if kind == TaskKind::Bug { 1 } else { 0 };
        GameTask {
            id,
            created,
            deadline: None,
            description,
            kind,
            stage: StageId::Backlog,
            assigned: None,
            developed_by: None,
            score,
            difficulty,
            progress: 0,
            specified: false,
            bugs: known_bugs,
            bugs_found: known_bugs,
            visible: true,
        }
    }

    /// Create a new task in the backlog with a deadline.
    pub fn new_with_deadline(
        id: u32,
        created: u32,
        deadline: u32,
        description: String,
        kind: TaskKind,
        score: u32,
        difficulty: u32,
    ) -> (t: Self)
        ensures
            t == (GameTask {
                deadline: Some(deadline),
                ..GameTask::new_post(id, created, description, kind, score, difficulty)
            }),
            t.inv(),
    {
        let mut t = GameTask::new(id, created, description, kind, score, difficulty);
        t.deadline = Some(deadline);
        t
    }

    /// The task produced by [`GameTask::new`], as a specification value.
    pub open spec fn new_post(
        id: u32,
        created: u32,
        description: String,
        kind: TaskKind,
        score: u32,
        difficulty: u32,
    ) -> GameTask {
        GameTask {
            id,
            created,
            deadline: None,
            description,
            kind,
            stage: StageId::Backlog,
            assigned: None,
            developed_by: None,
            score,
            difficulty,
            progress: 0,
            specified: false,
            bugs: if kind is Bug { 1u32 } else { 0u32 },
            bugs_found: if kind is Bug { 1u32 } else { 0u32 },
            visible: true,
        }
    }

    /// Add some progress, in thousandths of completion.
    /// Progress saturates at [`PROGRESS_DONE`]: no matter how many
    /// additions are summed, it never exceeds full completion.
    /// Returns whether the task has reached 100% progress.
    pub fn add_progress(&mut self, amount: u32) -> (complete: bool)
        ensures
            final(self).progress == if old(self).progress + amount >= PROGRESS_DONE {
                PROGRESS_DONE as int
            } else {
                old(self).progress + amount
            },
            final(self).progress <= PROGRESS_DONE,
            complete == (final(self).progress >= PROGRESS_DONE),
            final(self).specified == if complete && old(self).stage is Candidate {
                true
            } else {
                old(self).specified
            },
            *final(self) == (GameTask {
                progress: final(self).progress,
                specified: final(self).specified,
                ..*old(self)
            }),
            old(self).inv() ==> final(self).inv(),
    {
        self.progress = if amount >= PROGRESS_DONE || self.progress >= PROGRESS_DONE - amount {
            PROGRESS_DONE
        } else {
            self.progress + amount
        };

        if self.progress >= PROGRESS_DONE {
            if self.stage == StageId::Candidate {
                self.specified = true;
            }
            true
        } else {
            false
        }
    }

    /// Remove all progress from the task.
    pub fn reset_progress(&mut self)
        ensures
            *final(self) == (GameTask { progress: 0, ..*old(self) }),
    {
        self.progress = 0;
    }

    /// Assign the task to the worker with the given ID.
    pub fn assign(&mut self, user_id: u32)
        ensures
            *final(self) == (GameTask { assigned: Some(user_id), ..*old(self) }),
    {
        self.assigned = Some(user_id);
    }

    /// Move the task to a new stage and update its progress
    /// accordingly: progress starts over when the task enters
    /// specification writing or development.
    pub fn assign_to_stage(&mut self, stage: StageId)
        ensures
            final(self).stage == stage,
            final(self).progress == match (old(self).stage, stage) {
                (StageId::Backlog, StageId::Candidate) => 0int,
                (StageId::Candidate, StageId::Progress) => 0int,
                _ => old(self).progress as int,
            },
            *final(self) == (GameTask {
                stage,
                progress: final(self).progress,
                ..*old(self)
            }),
    {
        match (self.stage, stage) {
            (StageId::Backlog, StageId::Candidate) => {
                // progress will refer to writing progress
                self.progress = 0;
            },
            (StageId::Candidate, StageId::Progress) => {
                // progress will now refer to development progress
                self.progress = 0;
            },
            _ => {},
        }
        self.stage = stage;
    }

    /// Whether the requirements have already been fully specified.
    pub fn is_specified(&self) -> (r: bool)
        ensures
            r == self.specified,
    {
        self.specified
    }

    /// Whether the task has been fully developed.
    pub fn is_developed(&self) -> (r: bool)
        ensures
            r == self.spec_is_developed(),
    {
        match self.stage {
            StageId::Backlog | StageId::Candidate => false,
            StageId::Progress | StageId::Review => self.progress >= PROGRESS_DONE,
            StageId::Done => true,
        }
    }
}

} // verus!
