//! The aggregate game state and its single request entry point.

use vstd::prelude::*;

use crate::arith::{cap_i32, cap_u32, i32_add_i64_clamped, u32_add_i64_clamped, u32_min,
    u32_mul_saturating};
use crate::human::{GameHuman, HumanStatus, EXPERIENCE_CAP};
use crate::messages::Message;
use crate::reactor::{EventReactor, GameEvent};
use crate::request::EventBusRequest;
use crate::task::{GameTask, GameTaskBuilder, StageId, TaskKind, PROGRESS_DONE, TASK_DEADLINE_TICKS};
use crate::transfer::TaskTransfer;

verus! {

/// The number of tick events in a full game month.
pub const TICKS_PER_MONTH: u32 = 1_000;

/// The number of ticks between two major tick events.
pub const TICKS_PER_MAJOR_TICK: u32 = 250;

/// A magic constant that decides the rate of score lingering
/// based on technical debt.
pub const LINGER_FACTOR: u32 = 120;

/// The number of ticks between two score damage rolls.
pub const TICKS_PER_SCORE_DAMAGE: u32 = 25;

/// Each unit of task score is worth this many parts of the total score,
/// which is kept in a finer-grained unit so that gradual damage can
/// accumulate without floating-point drift.
pub const SCORE_UNIT: u32 = 1_000;

/// The outcome of a game event request.
#[derive(Debug)]
pub enum EventOutcome {
    /// No game state changes occurred, no need to re-render
    Nothing,
    /// The game state has changed,
    /// should issue a re-render and continue normally.
    Update,
    /// A message to the user should appear
    OpenMessage(Message),
    /// The month is over; the caller should present the report
    /// and then confirm the rollover with a next-month request.
    EndOfMonth(MonthlyReport),
    /// Alert the user with this message,
    /// likely because the requested operation is invalid.
    Alert(&'static str),
}

/// A derived, read-only snapshot produced at the end of a month.
#[derive(Debug, Clone, PartialEq, Eq, Structural)]
pub struct MonthlyReport {
    /// month number
    pub month: u32,
    /// score this month, in units
    pub score: i32,
    /// total score, in units
    pub total_score: u32,
    /// number of tasks done this month
    pub tasks_done: usize,
    /// number of bugs fixed this month
    pub bugs_fixed: u32,
    /// current project complexity
    pub complexity: u32,
}

/// The full state of the game.
#[derive(Debug, Clone, PartialEq)]
pub struct WorldState {
    /// the project or product's name
    pub product_name: String,
    /// the current month (round)
    pub month: u32,
    /// the number of ticks which have passed since the beginning of the game
    pub time: u32,
    /// the number of ticks which have passed since the beginning of the current month
    pub time_in_month: u32,
    /// the ID of the next task to create
    pub next_task_id: u32,
    /// the player's current score, in [`SCORE_UNIT`] parts of a unit
    /// (scores presented on tasks are in units,
    /// but score damage works in thousandths)
    pub total_score: u32,
    /// the player's score gained or lost this month,
    /// in [`SCORE_UNIT`] parts of a unit
    pub score_in_month: i32,
    /// a hidden count of bugs in the software,
    /// used to recalculate the score linger rate
    pub bugs: u32,
    /// the number of bugs found and fixed over the course of the entire game
    pub bugs_fixed_in_total: u32,
    /// the number of bugs found and fixed over the course of this month
    pub bugs_fixed_in_month: u32,
    /// the product software's technical debt,
    /// which affects development efforts and the score linger rate
    pub complexity: u32,
    /// the player's score lingering rate,
    /// which affects how much score is damaged over time
    pub score_linger_rate: u32,
    /// the rate at which the player can devise new tasks
    pub task_ingest_rate: u32,
    /// the list of tasks in backlog
    pub tasks_backlog: Vec<GameTask>,
    /// the list of tasks in sprint candidate
    pub tasks_candidate: Vec<GameTask>,
    /// the list of tasks in progress
    pub tasks_progress: Vec<GameTask>,
    /// the list of tasks under review
    pub tasks_review: Vec<GameTask>,
    /// the list of tasks done
    pub tasks_done: Vec<GameTask>,
    /// A list of all workers
    pub humans: Vec<GameHuman>,
    /// The current tutorial phase, if currently in the tutorial.
    /// Starts at 0, the first message is given at 1.
    pub tutorial: Option<u32>,
}

/// The first index holding a task with the given ID,
/// or `None` if the sequence holds no such task.
pub open spec fn spec_find(tasks: Seq<GameTask>, id: u32) -> Option<int>
    decreases tasks.len(),
{
    if tasks.len() == 0 {
        None
    } else if tasks[0].id == id {
        Some(0int)
    } else {
        match spec_find(tasks.skip(1), id) {
            Some(j) => Some(j + 1),
            None => None,
        }
    }
}

/// A task found at an index after skipping a prefix without a match
/// is the first match.
proof fn lemma_spec_find_hit(tasks: Seq<GameTask>, id: u32, j: int)
    requires
        0 <= j < tasks.len(),
        tasks[j].id == id,
        forall|k: int| 0 <= k < j ==> (#[trigger] tasks[k]).id != id,
    ensures
        spec_find(tasks, id) == Some(j),
    decreases tasks.len(),
{
    if j > 0 {
        assert forall|k: int| 0 <= k < j - 1 implies (#[trigger] tasks.skip(1)[k]).id != id by {
            assert(tasks.skip(1)[k] == tasks[k + 1]);
        }
        lemma_spec_find_hit(tasks.skip(1), id, j - 1);
    }
}

/// A sequence without any match has no first match.
proof fn lemma_spec_find_miss(tasks: Seq<GameTask>, id: u32)
    requires
        forall|k: int| 0 <= k < tasks.len() ==> (#[trigger] tasks[k]).id != id,
    ensures
        spec_find(tasks, id) is None,
    decreases tasks.len(),
{
    if tasks.len() > 0 {
        assert forall|k: int| 0 <= k < tasks.skip(1).len() implies (#[trigger] tasks.skip(1)[k]).id
            != id by {
            assert(tasks.skip(1)[k] == tasks[k + 1]);
        }
        lemma_spec_find_miss(tasks.skip(1), id);
    }
}

/// Find the first task with the given ID in the list.
fn find_task_index(tasks: &Vec<GameTask>, id: u32) -> (r: Option<usize>)
    ensures
        match r {
            Some(j) => spec_find(tasks@, id) == Some(j as int) && j < tasks@.len()
                && tasks@[j as int].id == id,
            None => spec_find(tasks@, id) is None,
        },
{
    let n: usize = tasks.len();
    let mut i: usize = 0;
    while i < n
        invariant
            i <= n,
            n == tasks@.len(),
            forall|k: int| 0 <= k < i ==> (#[trigger] tasks@[k]).id != id,
        decreases n - i,
    {
        if tasks[i].id == id {
            proof {
                lemma_spec_find_hit(tasks@, id, i as int);
            }
            return Some(i);
        }
        i = i + 1;
    }
    proof {
        lemma_spec_find_miss(tasks@, id);
    }
    None
}

/// A first match lies within the sequence and carries the ID
/// searched for.
pub proof fn lemma_spec_find_some(tasks: Seq<GameTask>, id: u32)
    ensures
        spec_find(tasks, id) matches Some(j) ==> 0 <= j < tasks.len() && tasks[j].id == id,
    decreases tasks.len(),
{
    if tasks.len() > 0 && tasks[0].id != id {
        lemma_spec_find_some(tasks.skip(1), id);
    }
}

/// The first index holding a worker with the given name,
/// or `None` if no worker carries it.
pub open spec fn spec_find_named(humans: Seq<GameHuman>, name: Seq<char>) -> Option<int>
    decreases humans.len(),
{
    if humans.len() == 0 {
        None
    } else if humans[0].name@ == name {
        Some(0int)
    } else {
        match spec_find_named(humans.skip(1), name) {
            Some(j) => Some(j + 1),
            None => None,
        }
    }
}

/// A worker found at an index after skipping a prefix without the name
/// is the first with the name.
proof fn lemma_spec_find_named_hit(humans: Seq<GameHuman>, name: Seq<char>, j: int)
    requires
        0 <= j < humans.len(),
        humans[j].name@ == name,
        forall|k: int| 0 <= k < j ==> (#[trigger] humans[k]).name@ != name,
    ensures
        spec_find_named(humans, name) == Some(j),
    decreases humans.len(),
{
    if j > 0 {
        assert forall|k: int| 0 <= k < j - 1 implies (#[trigger] humans.skip(1)[k]).name@
            != name by {
            assert(humans.skip(1)[k] == humans[k + 1]);
        }
        lemma_spec_find_named_hit(humans.skip(1), name, j - 1);
    }
}

/// A roster without the name has no first worker with it.
proof fn lemma_spec_find_named_miss(humans: Seq<GameHuman>, name: Seq<char>)
    requires
        forall|k: int| 0 <= k < humans.len() ==> (#[trigger] humans[k]).name@ != name,
    ensures
        spec_find_named(humans, name) is None,
    decreases humans.len(),
{
    if humans.len() > 0 {
        assert forall|k: int| 0 <= k < humans.skip(1).len() implies (#[trigger] humans.skip(
            1,
        )[k]).name@ != name by {
            assert(humans.skip(1)[k] == humans[k + 1]);
        }
        lemma_spec_find_named_miss(humans.skip(1), name);
    }
}

/// Find the first worker with the given name on the roster.
fn find_human_named(humans: &Vec<GameHuman>, name: &str) -> (r: Option<usize>)
    ensures
        match r {
            Some(g) => spec_find_named(humans@, name@) == Some(g as int) && g < humans@.len(),
            None => spec_find_named(humans@, name@) is None,
        },
{
    let wanted: String = String::from_str(name);
    let n: usize = humans.len();
    let mut i: usize = 0;
    while i < n
        invariant
            i <= n,
            n == humans@.len(),
            wanted@ == name@,
            forall|k: int| 0 <= k < i ==> (#[trigger] humans@[k]).name@ != name@,
        decreases n - i,
    {
        if humans[i].name.eq(&wanted) {
            proof {
                lemma_spec_find_named_hit(humans@, name@, i as int);
            }
            return Some(i);
        }
        i = i + 1;
    }
    proof {
        lemma_spec_find_named_miss(humans@, name@);
    }
    None
}

/// The first index holding a task not yet specified,
/// or `None` if every task is specified.
pub open spec fn first_unspecified(tasks: Seq<GameTask>) -> Option<int>
    decreases tasks.len(),
{
    if tasks.len() == 0 {
        None
    } else if !tasks[0].specified {
        Some(0int)
    } else {
        match first_unspecified(tasks.skip(1)) {
            Some(j) => Some(j + 1),
            None => None,
        }
    }
}

/// An unspecified task after a prefix of specified ones is the first
/// unspecified task.
proof fn lemma_first_unspecified_hit(tasks: Seq<GameTask>, j: int)
    requires
        0 <= j < tasks.len(),
        !tasks[j].specified,
        forall|k: int| 0 <= k < j ==> (#[trigger] tasks[k]).specified,
    ensures
        first_unspecified(tasks) == Some(j),
    decreases tasks.len(),
{
    if j > 0 {
        assert forall|k: int| 0 <= k < j - 1 implies (#[trigger] tasks.skip(1)[k]).specified by {
            assert(tasks.skip(1)[k] == tasks[k + 1]);
        }
        lemma_first_unspecified_hit(tasks.skip(1), j - 1);
    }
}

/// A sequence of specified tasks has no first unspecified one.
proof fn lemma_first_unspecified_miss(tasks: Seq<GameTask>)
    requires
        forall|k: int| 0 <= k < tasks.len() ==> (#[trigger] tasks[k]).specified,
    ensures
        first_unspecified(tasks) is None,
    decreases tasks.len(),
{
    if tasks.len() > 0 {
        assert forall|k: int| 0 <= k < tasks.skip(1).len() implies (#[trigger] tasks.skip(
            1,
        )[k]).specified by {
            assert(tasks.skip(1)[k] == tasks[k + 1]);
        }
        lemma_first_unspecified_miss(tasks.skip(1));
    }
}

/// The writing progress one tick of the player's work adds to a task,
/// in thousandths: their experience against the task's difficulty.
/// A task of no difficulty is specified in a single stroke.
pub open spec fn writing_progress_of(experience: u32, difficulty: u32) -> int {
    let divisor = cap_u32(difficulty * 128);
    if divisor == 0 {
        PROGRESS_DONE as int
    } else {
        cap_u32(cap_u32(1 + experience) * 1_000) / divisor
    }
}

/// The task, stripped of its assignment if it was assigned to the
/// given worker.
pub open spec fn unassigned_from(t: GameTask, h: u32) -> GameTask {
    if t.assigned == Some(h) {
        GameTask { assigned: None, ..t }
    } else {
        t
    }
}

/// Strip every task of its assignment to the given worker.
fn unassign_all(tasks: &mut Vec<GameTask>, h: u32)
    ensures
        final(tasks)@ == old(tasks)@.map_values(|t: GameTask| unassigned_from(t, h)),
{
    let n: usize = tasks.len();
    let mut i: usize = 0;
    while i < n
        invariant
            i <= n,
            n == tasks@.len(),
            tasks@.len() == old(tasks)@.len(),
            forall|k: int| 0 <= k < i ==> tasks@[k] == unassigned_from(#[trigger] old(tasks)@[k], h),
            forall|k: int| i <= k < n ==> tasks@[k] == old(tasks)@[k],
        decreases n - i,
    {
        let clear: bool = {
            let t = &tasks[i];
            match t.assigned {
                Some(a) => a == h,
                None => false,
            }
        };
        if clear {
            let t = &mut tasks[i];
            t.assigned = None;
        }
        i = i + 1;
    }
    proof {
        assert(tasks@ =~= old(tasks)@.map_values(|t: GameTask| unassigned_from(t, h)));
    }
}

/// The number of tasks of the sequence that are visible.
pub open spec fn count_visible(tasks: Seq<GameTask>) -> int
    decreases tasks.len(),
{
    if tasks.len() == 0 {
        0
    } else {
        count_visible(tasks.drop_last()) + if tasks.last().visible {
            1int
        } else {
            0int
        }
    }
}

/// The number of workers of the roster who have not quit.
pub open spec fn count_active(humans: Seq<GameHuman>) -> int
    decreases humans.len(),
{
    if humans.len() == 0 {
        0
    } else {
        count_active(humans.drop_last()) + if humans.last().quit {
            0int
        } else {
            1int
        }
    }
}

/// A month's score delta in display units: its thousandths truncated
/// toward zero.
pub open spec fn score_units_of(m: i32) -> int {
    if m >= 0 {
        (m as int) / (SCORE_UNIT as int)
    } else {
        0 - ((0 - m as int) / (SCORE_UNIT as int))
    }
}

/// The score linger rate derived from the current bug count and
/// complexity, as recomputed after every merge.
pub open spec fn linger_rate_of(bugs: u32, complexity: u32) -> int {
    let scaled = cap_u32(bugs + cap_u32(complexity * LINGER_FACTOR) / 2);
    if scaled >= 10 {
        scaled - 10
    } else {
        0
    }
}

/// A merged task: unassigned and without progress.
pub open spec fn merged_task(t: GameTask) -> GameTask {
    GameTask { assigned: None, progress: 0, ..t }
}

/// The world bug count after merging a task of the given kind: its
/// latent bugs join the software, and a bug-kind task removes the one
/// bug it fixed, saturating at zero.
pub open spec fn merge_bugs(bugs: u32, kind: TaskKind, task_bugs: u32) -> int {
    let grown = cap_u32(bugs + task_bugs);
    if kind is Bug {
        if grown >= 1 {
            grown - 1
        } else {
            0
        }
    } else {
        grown
    }
}

/// The world complexity after merging a task, by task kind:
/// normal work grows the debt with its difficulty, bug fixes add a
/// small fraction of it, and chores shrink it, saturating at zero.
pub open spec fn merge_complexity(complexity: u32, kind: TaskKind, difficulty: u32) -> int {
    match kind {
        TaskKind::Bug => cap_u32(complexity + difficulty / 5),
        TaskKind::Normal => cap_u32(complexity + 1 + difficulty / 4),
        TaskKind::Chore => {
            let relief = 2 + difficulty / 4;
            if complexity >= relief {
                complexity - relief
            } else {
                0
            }
        },
    }
}

/// Whether the stage machine allows a task in its current state to be
/// moved to the given stage.  All other pairs are rejected as no-ops.
pub open spec fn move_allowed(t: GameTask, to: StageId) -> bool {
    match (t.stage, to) {
        (StageId::Backlog, StageId::Candidate) => true,
        (StageId::Candidate, StageId::Backlog) => !t.specified,
        (StageId::Candidate, StageId::Progress) => t.specified && t.assigned is Some,
        (StageId::Progress, StageId::Candidate) => true,
        (StageId::Progress, StageId::Review) => t.spec_is_developed(),
        (StageId::Progress, StageId::Done) => t.spec_is_developed(),
        (StageId::Review, StageId::Progress) => true,
        (StageId::Review, StageId::Done) => true,
        _ => false,
    }
}

/// The progress a task is put back to when it returns from review
/// with a found, unfixed bug: two thirds, reflecting partial rework.
pub const REWORK_PROGRESS: u32 = 666;

/// How a confirmed month rollover changes the world: the month
/// advances, the in-month counters and deltas reset, the ingestion
/// rate grows, done tasks are hidden, and a completed tutorial is
/// cleared, its scripted worker marked quit and their assignments
/// stripped.  Everything else is kept.
pub open spec fn rolled_over(pre: WorldState, post: WorldState) -> bool {
    &&& post.month == cap_u32(pre.month + 1)
    &&& post.time_in_month == 0
    &&& post.score_in_month == 0
    &&& post.bugs_fixed_in_month == 0
    &&& post.task_ingest_rate == cap_u32(pre.task_ingest_rate + 1)
    &&& post.tasks_done@ == pre.tasks_done@.map_values(
        |t: GameTask| GameTask { visible: false, ..t },
    )
    &&& post.tutorial is None
    &&& (pre.tutorial is None ==> {
        &&& post.humans@ == pre.humans@
        &&& post.tasks_backlog@ == pre.tasks_backlog@
        &&& post.tasks_candidate@ == pre.tasks_candidate@
        &&& post.tasks_progress@ == pre.tasks_progress@
        &&& post.tasks_review@ == pre.tasks_review@
    })
    &&& (pre.tutorial is Some ==> match spec_find_named(pre.humans@, "Guy"@) {
        None => {
            &&& post.humans@ == pre.humans@
            &&& post.tasks_backlog@ == pre.tasks_backlog@
            &&& post.tasks_candidate@ == pre.tasks_candidate@
            &&& post.tasks_progress@ == pre.tasks_progress@
            &&& post.tasks_review@ == pre.tasks_review@
        },
        Some(g) => {
            let gid = pre.humans@[g].id;
            &&& post.humans@ == pre.humans@.update(
                g,
                (GameHuman { quit: true, ..pre.humans@[g] }),
            )
            &&& post.tasks_backlog@ == pre.tasks_backlog@.map_values(
                |t: GameTask| unassigned_from(t, gid),
            )
            &&& post.tasks_candidate@ == pre.tasks_candidate@.map_values(
                |t: GameTask| unassigned_from(t, gid),
            )
            &&& post.tasks_progress@ == pre.tasks_progress@.map_values(
                |t: GameTask| unassigned_from(t, gid),
            )
            &&& post.tasks_review@ == pre.tasks_review@.map_values(
                |t: GameTask| unassigned_from(t, gid),
            )
        },
    })
    &&& post == (WorldState {
        month: post.month,
        time_in_month: post.time_in_month,
        score_in_month: post.score_in_month,
        bugs_fixed_in_month: post.bugs_fixed_in_month,
        task_ingest_rate: post.task_ingest_rate,
        tasks_backlog: post.tasks_backlog,
        tasks_candidate: post.tasks_candidate,
        tasks_progress: post.tasks_progress,
        tasks_review: post.tasks_review,
        tasks_done: post.tasks_done,
        humans: post.humans,
        tutorial: post.tutorial,
        ..pre
    })
}

/// What handling a move request leaves behind: the exact stage
/// machine of [`WorldState::handle_move_task`], relating the state
/// before the request to the state and outcome after it.
pub open spec fn move_task_post(
    pre: WorldState,
    post: WorldState,
    task: TaskTransfer,
    to: StageId,
    r: EventOutcome,
) -> bool {
    match spec_find(pre.stage_list(task.from), task.id) {
        None => post == pre && r is Nothing,
        Some(j) => {
            let t = pre.stage_list(task.from)[j];
            if !move_allowed(t, to) {
                post == pre && r is Nothing
            } else {
                let t2 = moved_task(t, to);
                &&& post.stage_list(task.from) == pre.stage_list(task.from).remove(j)
                &&& (to is Done ==> {
                    &&& post.tasks_done@ == pre.tasks_done@.push(merged_task(t2))
                    &&& post.total_score == cap_u32(pre.total_score + t.score * SCORE_UNIT)
                    &&& post.score_in_month == cap_i32(pre.score_in_month + t.score * SCORE_UNIT)
                    &&& post.bugs == merge_bugs(pre.bugs, t.kind, t.bugs)
                    &&& post.complexity == merge_complexity(pre.complexity, t.kind, t.difficulty)
                    &&& post.score_linger_rate == linger_rate_of(post.bugs, post.complexity)
                })
                &&& (!(to is Done) ==> {
                    &&& post.stage_list(to) == pre.stage_list(to).push(t2)
                    &&& post.total_score == pre.total_score
                    &&& post.score_in_month == pre.score_in_month
                    &&& post.bugs == pre.bugs
                    &&& post.complexity == pre.complexity
                    &&& post.score_linger_rate == pre.score_linger_rate
                })
                &&& forall|s: StageId|
                    s != task.from && s != to ==> #[trigger] post.stage_list(s) == pre.stage_list(
                        s,
                    )
                &&& post.humans@ == pre.humans@
                &&& (if to is Done && matches!(pre.tutorial, Some(6u32 | 7u32 | 8u32)) {
                    &&& post.tutorial == Some(9u32)
                    &&& r == EventOutcome::OpenMessage(Message::Tutorial(9))
                } else if t.stage is Progress && to is Review && pre.tutorial == Some(7u32) {
                    &&& post.tutorial == Some(8u32)
                    &&& r == EventOutcome::OpenMessage(Message::Tutorial(8))
                } else {
                    &&& post.tutorial == pre.tutorial
                    &&& r is Update
                })
                &&& post == (WorldState {
                    tasks_backlog: post.tasks_backlog,
                    tasks_candidate: post.tasks_candidate,
                    tasks_progress: post.tasks_progress,
                    tasks_review: post.tasks_review,
                    tasks_done: post.tasks_done,
                    total_score: post.total_score,
                    score_in_month: post.score_in_month,
                    bugs: post.bugs,
                    complexity: post.complexity,
                    score_linger_rate: post.score_linger_rate,
                    tutorial: post.tutorial,
                    humans: post.humans,
                    ..pre
                })
            }
        },
    }
}

/// What handling an assignment request leaves behind: the exact
/// behaviour of [`WorldState::assign_task`].
pub open spec fn assign_task_post(
    pre: WorldState,
    post: WorldState,
    task: TaskTransfer,
    human_id: u32,
    r: EventOutcome,
) -> bool {
    match spec_find(pre.stage_list(task.from), task.id) {
        None => post == pre && r is Nothing,
        Some(j) => {
            let t = pre.stage_list(task.from)[j];
            if t.assigned == Some(human_id) || human_id >= pre.humans@.len() {
                post == pre && r is Nothing
            } else {
                &&& post.stage_list(task.from) == pre.stage_list(task.from).update(
                    j,
                    (GameTask { assigned: Some(human_id), ..t }),
                )
                &&& forall|s: StageId|
                    s != task.from ==> #[trigger] post.stage_list(s) == pre.stage_list(s)
                &&& post == (WorldState {
                    tasks_backlog: post.tasks_backlog,
                    tasks_candidate: post.tasks_candidate,
                    tasks_progress: post.tasks_progress,
                    tasks_review: post.tasks_review,
                    tasks_done: post.tasks_done,
                    ..pre
                })
                &&& r is Update
            }
        },
    }
}

/// What advancing the tutorial leaves behind: the exact behaviour of
/// [`WorldState::advance_tutorial`].
pub open spec fn advance_tutorial_post(pre: WorldState, post: WorldState, r: EventOutcome) -> bool {
    match pre.tutorial {
        None => post == pre && r is Nothing,
        Some(p) => {
            let p2 = cap_u32(p + 1);
            &&& post.tutorial == Some(p2 as u32)
            &&& r == EventOutcome::OpenMessage(Message::Tutorial(p2 as u32))
            &&& if p2 == 11 && pre.humans@.len() < u32::MAX {
                &&& post.humans@.len() == pre.humans@.len() + 1
                &&& post.humans@.subrange(0, pre.humans@.len() as int) == pre.humans@
                &&& post.humans@.last().name@ == "Guy"@
                &&& post.humans@.last().experience == 126
                &&& post.humans@.last().status is Idle
                &&& !post.humans@.last().quit
            } else {
                post.humans@ == pre.humans@
            }
            &&& post == (WorldState { tutorial: post.tutorial, humans: post.humans, ..pre })
        },
    }
}

/// What a next-month request leaves behind: a no-op before the month
/// length is reached, one rollover after it.
pub open spec fn next_month_post(pre: WorldState, post: WorldState, r: EventOutcome) -> bool {
    &&& (pre.time_in_month < TICKS_PER_MONTH ==> post == pre && r is Nothing)
    &&& (pre.time_in_month >= TICKS_PER_MONTH ==> rolled_over(pre, post) && r is Update)
}

/// The task a builder constructs with the given ID at the given time:
/// it enters the backlog, and a deadline offset counts from that time.
pub open spec fn built_with(b: GameTaskBuilder, id: u32, now: u32) -> GameTask {
    let base = GameTask::new_post(id, now, b.description, b.kind, b.score, b.difficulty);
    match b.max_time {
        Some(m) => GameTask { deadline: Some(cap_u32(now + m) as u32), ..base },
        None => base,
    }
}

/// What one tick leaves behind, whatever the rolls decided: time
/// advances, the deadline sweep is applied exactly, development,
/// writing and review move tasks only within their rules, the scores
/// erode by at most one bug-report penalty and one bounded decay
/// roll beyond the sweep, workers only gain experience, and reaching
/// the month length outside the tutorial yields the report.
pub open spec fn tick_post(pre: WorldState, post: WorldState, r: EventOutcome) -> bool {
    &&& (post.time == cap_u32(pre.time + 1))
    &&& (post.time_in_month == cap_u32(pre.time_in_month + 1))
    &&& (post.month == pre.month)
    &&& (post.product_name == pre.product_name)
    &&& (post.bugs_fixed_in_total >= pre.bugs_fixed_in_total)
    &&& (pre.humans@.len() <= post.humans@.len() <= pre.humans@.len() + 1)
    &&& (post.next_task_id >= pre.next_task_id)
    &&& (r matches EventOutcome::EndOfMonth(rep) ==> rep == post.spec_month_report()
                && post.time_in_month >= TICKS_PER_MONTH)
    &&& (post.time_in_month >= TICKS_PER_MONTH ==> (r matches EventOutcome::EndOfMonth(
                rep,
            ) && rep == post.spec_month_report()) || r is OpenMessage)
    &&& (pre.tutorial is None && pre.time_in_month + 1 >= TICKS_PER_MONTH
                ==> (r matches EventOutcome::EndOfMonth(rep) && rep
                == post.spec_month_report()))
    &&& (post.tasks_done@ == pre.tasks_done@)
    &&& (post.tasks_candidate@.len() == pre.tasks_candidate@.len())
    &&& (post.tasks_progress@.len() == pre.tasks_progress@.len())
    &&& (post.tasks_review@.len() == pre.tasks_review@.len())
    &&& (post.tasks_backlog@.len() >= pre.tasks_backlog@.len())
    &&& (forall|k: int|
                0 <= k < pre.tasks_backlog@.len()
                    ==> (#[trigger] post.tasks_backlog@[k]) == swept_task(
                    pre.tasks_backlog@[k],
                    cap_u32(pre.time + 1) as u32,
                ))
    &&& (forall|k: int|
                0 <= k < pre.tasks_candidate@.len() ==> {
                    let t0 = pre.tasks_candidate@[k];
                    let t1 = #[trigger] post.tasks_candidate@[k];
                    &&& t1.deadline == swept_deadline(t0, cap_u32(pre.time + 1) as u32)
                    &&& t1.id == t0.id
                    &&& t1.kind == t0.kind
                    &&& t1.stage == t0.stage
                    &&& t1.score == t0.score
                    &&& t1.difficulty == t0.difficulty
                    &&& t1.description == t0.description
                    &&& t1.assigned == t0.assigned
                    &&& t1.bugs == t0.bugs
                    &&& t1.bugs_found == t0.bugs_found
                    &&& t1.visible == t0.visible
                    &&& t1.progress >= t0.progress
                    &&& (t0.specified ==> t1.specified)
                })
    &&& (forall|k: int|
                0 <= k < pre.tasks_progress@.len() ==> {
                    let t0 = pre.tasks_progress@[k];
                    let t1 = #[trigger] post.tasks_progress@[k];
                    &&& t1.deadline == swept_deadline(t0, cap_u32(pre.time + 1) as u32)
                    &&& t1.id == t0.id
                    &&& t1.kind == t0.kind
                    &&& t1.stage == t0.stage
                    &&& t1.score == t0.score
                    &&& t1.difficulty == t0.difficulty
                    &&& t1.description == t0.description
                    &&& t1.assigned == t0.assigned
                    &&& t1.specified == t0.specified
                    &&& t1.visible == t0.visible
                    &&& t1.progress >= t0.progress
                    &&& (t0.progress < PROGRESS_DONE && t1.progress >= PROGRESS_DONE
                        ==> t1.developed_by == t0.assigned && t1.bugs_found == 0)
                })
    &&& (forall|k: int|
                0 <= k < pre.tasks_review@.len() ==> {
                    let t0 = pre.tasks_review@[k];
                    let t1 = #[trigger] post.tasks_review@[k];
                    &&& t1.deadline == swept_deadline(t0, cap_u32(pre.time + 1) as u32)
                    &&& t1.id == t0.id
                    &&& t1.kind == t0.kind
                    &&& t1.stage == t0.stage
                    &&& t1.score == t0.score
                    &&& t1.difficulty == t0.difficulty
                    &&& t1.description == t0.description
                    &&& t1.assigned == t0.assigned
                    &&& t1.specified == t0.specified
                    &&& t1.visible == t0.visible
                    &&& t1.progress == t0.progress
                    &&& t1.bugs == t0.bugs
                    &&& t0.bugs_found <= t1.bugs_found <= t0.bugs_found + 1
                })
    &&& (({
                let swept = swept_scores(pre);
                &&& post.total_score <= swept.0
                &&& post.total_score >= swept.0 - 2_000 - swept.0 / 5
                &&& post.score_in_month <= swept.1
                &&& post.score_in_month >= swept.1 - 2_000 - swept.0 / 5
            }))
    &&& (forall|i: int|
                0 <= i < pre.humans@.len() ==> {
                    &&& (#[trigger] post.humans@[i]).id == pre.humans@[i].id
                    &&& post.humans@[i].name == pre.humans@[i].name
                    &&& post.humans@[i].color == pre.humans@[i].color
                    &&& post.humans@[i].quit == pre.humans@[i].quit
                    &&& post.humans@[i].experience >= pre.humans@[i].experience
                })
    &&& ((pre.tasks_backlog@.len() >= 30 && pre.tutorial is None && pre.time_in_month + 1 != 5
        && cap_u32(pre.time + 1) % (TICKS_PER_MAJOR_TICK as int) != 0)
        ==> post.tasks_backlog@.len() == pre.tasks_backlog@.len())
    &&& (pre.tutorial is None && pre.time_in_month + 1 == 5
        ==> post.tasks_backlog@.len() >= pre.tasks_backlog@.len() + 3)
    &&& (forall|k: int|
                pre.tasks_backlog@.len() <= k < post.tasks_backlog@.len() ==> {
                    let e = #[trigger] post.tasks_backlog@[k];
                    &&& e.created == cap_u32(pre.time + 1)
                    &&& e.progress == 0
                    &&& !e.specified
                    &&& e.assigned is None
                })
}

/// The task as it enters the target stage, before any merge effects:
/// entering specification or development work resets progress, and a
/// task sent back from review for a found bug keeps only two thirds.
pub open spec fn moved_task(t: GameTask, to: StageId) -> GameTask {
    let base = GameTask { stage: to, ..t };
    match (t.stage, to) {
        (StageId::Backlog, StageId::Candidate) => GameTask { progress: 0, ..base },
        (StageId::Candidate, StageId::Progress) => GameTask { progress: 0, ..base },
        (StageId::Review, StageId::Progress) => if t.bugs_found > 0 {
            GameTask { progress: REWORK_PROGRESS, ..base }
        } else {
            base
        },
        _ => base,
    }
}

impl WorldState {
    /// The tasks currently stored under the given stage.
    pub open spec fn stage_list(self, stage: StageId) -> Seq<GameTask> {
        match stage {
            StageId::Backlog => self.tasks_backlog@,
            StageId::Candidate => self.tasks_candidate@,
            StageId::Progress => self.tasks_progress@,
            StageId::Review => self.tasks_review@,
            StageId::Done => self.tasks_done@,
        }
    }

    /// Every task of the sequence sits in the given stage, is
    /// well-formed, and refers only to workers on the roster.
    pub open spec fn tasks_ok(self, tasks: Seq<GameTask>, stage: StageId) -> bool {
        forall|i: int|
            0 <= i < tasks.len() ==> {
                &&& (#[trigger] tasks[i]).stage == stage
                &&& tasks[i].inv()
                &&& tasks[i].assigned matches Some(h) ==> (h as int) < self.humans@.len()
            }
    }

    /// The aggregate invariant: each stage collection holds only tasks
    /// of its own stage, all tasks are well-formed, assignments refer
    /// to the roster, and the roster is an arena indexed by worker ID
    /// with the player always present.
    pub open spec fn inv(self) -> bool {
        &&& self.tasks_ok(self.tasks_backlog@, StageId::Backlog)
        &&& self.tasks_ok(self.tasks_candidate@, StageId::Candidate)
        &&& self.tasks_ok(self.tasks_progress@, StageId::Progress)
        &&& self.tasks_ok(self.tasks_review@, StageId::Review)
        &&& self.tasks_ok(self.tasks_done@, StageId::Done)
        &&& 1 <= self.humans@.len() <= u32::MAX
        &&& forall|i: int|
            0 <= i < self.humans@.len() ==> {
                &&& (#[trigger] self.humans@[i]).id == i
                &&& self.humans@[i].experience <= EXPERIENCE_CAP
            }
    }

    /// Create the world state of a brand new game.
    ///
    /// The board starts empty but for the player on the roster;
    /// task ingestion is disabled during the tutorial.
    pub fn new(product_name: String, tutorial: bool) -> (s: Self)
        ensures
            s.inv(),
            s.product_name == product_name,
            s.month == 0,
            s.time == 0,
            s.time_in_month == 0,
            s.next_task_id == 351,
            s.total_score == 0,
            s.score_in_month == 0,
            s.bugs == 0,
            s.bugs_fixed_in_month == 0,
            s.bugs_fixed_in_total == 0,
            s.complexity == 15,
            s.score_linger_rate == 0,
            s.tasks_backlog@ =~= Seq::<GameTask>::empty(),
            s.tasks_candidate@ =~= Seq::<GameTask>::empty(),
            s.tasks_progress@ =~= Seq::<GameTask>::empty(),
            s.tasks_review@ =~= Seq::<GameTask>::empty(),
            s.tasks_done@ =~= Seq::<GameTask>::empty(),
            s.humans@.len() == 1,
            s.humans@[0].id == 0,
            s.humans@[0].name@ == "You"@,
            s.humans@[0].color@ == "#fff"@,
            s.humans@[0].status is Idle,
            !s.humans@[0].quit,
            s.humans@[0].experience == 50,
            s.task_ingest_rate == if tutorial {
                0int
            } else {
                10int
            },
            s.tutorial == if tutorial {
                Some(0u32)
            } else {
                None::<u32>
            },
    {
        WorldState {
            product_name,
            month: 0,
            time: 0,
            time_in_month: 0,
            next_task_id: 351,
            total_score: 0,
            score_in_month: 0,
            bugs: 0,
            bugs_fixed_in_month: 0,
            bugs_fixed_in_total: 0,
            complexity: 15,
            score_linger_rate: 0,
            tasks_backlog: Vec::new(),
            tasks_candidate: Vec::new(),
            tasks_progress: Vec::new(),
            tasks_review: Vec::new(),
            tasks_done: Vec::new(),
            humans: vec![
                GameHuman::new(0, String::from_str("You"), String::from_str("#fff"), 50),
            ],
            // do not ingest tasks during the tutorial
            task_ingest_rate: if tutorial {
                0
            } else {
                10
            },
            tutorial: if tutorial {
                Some(0)
            } else {
                None
            },
        }
    }

    /// The current month.
    pub fn month(&self) -> (m: u32)
        ensures
            m == self.month,
    {
        self.month
    }

    /// Look up a worker by ID.
    pub fn human_of(&self, id: u32) -> (r: Option<&GameHuman>)
        requires
            self.inv(),
        ensures
            match r {
                Some(h) => (id as int) < self.humans@.len() && *h == self.humans@[id as int],
                None => (id as int) >= self.humans@.len(),
            },
    {
        if (id as usize) < self.humans.len() {
            Some(&self.humans[id as usize])
        } else {
            None
        }
    }

    /// The ID the next task will be created with.
    pub fn next_task_id(&self) -> (id: u32)
        ensures
            id == self.next_task_id,
    {
        self.next_task_id
    }

    /// The ID the next hired worker will get.
    pub fn next_human_id(&self) -> (id: u32)
        requires
            self.inv(),
        ensures
            id == self.humans@.len() || (self.humans@.len() > u32::MAX && id == u32::MAX),
    {
        if self.humans.len() <= u32::MAX as usize {
            self.humans.len() as u32
        } else {
            u32::MAX
        }
    }

    /// The task a builder constructs at the current time:
    /// it enters the backlog, and a deadline offset counts
    /// from the current tick.
    pub open spec fn spec_built_task(self, b: GameTaskBuilder) -> GameTask {
        built_with(b, self.next_task_id, self.time)
    }

    /// Create a new task from the builder and place it in the backlog.
    /// Returns the ID given to the new task.
    pub fn add_task(&mut self, task: GameTaskBuilder) -> (id: u32)
        requires
            old(self).inv(),
        ensures
            final(self).inv(),
            id == old(self).next_task_id,
            final(self).tasks_backlog@ == old(self).tasks_backlog@.push(
                old(self).spec_built_task(task),
            ),
            final(self).next_task_id == cap_u32(old(self).next_task_id + 1),
            *final(self) == (WorldState {
                tasks_backlog: final(self).tasks_backlog,
                next_task_id: final(self).next_task_id,
                ..*old(self)
            }),
    {
        let id: u32 = self.next_task_id;
        self.next_task_id = self.next_task_id.saturating_add(1);
        let created: u32 = self.time;
        let GameTaskBuilder { description, kind, score, difficulty, max_time } = task;
        let new_task = if let Some(max_time) = max_time {
            let deadline: u32 = created.saturating_add(max_time);
            GameTask::new_with_deadline(id, created, deadline, description, kind, score, difficulty)
        } else {
            GameTask::new(id, created, description, kind, score, difficulty)
        };
        self.tasks_backlog.push(new_task);
        id
    }

    /// Create each of the given tasks in the backlog.
    pub fn add_tasks(&mut self, tasks: Vec<GameTaskBuilder>)
        requires
            old(self).inv(),
        ensures
            final(self).inv(),
            final(self).tasks_candidate@ == old(self).tasks_candidate@,
            final(self).tasks_progress@ == old(self).tasks_progress@,
            final(self).tasks_review@ == old(self).tasks_review@,
            final(self).tasks_done@ == old(self).tasks_done@,
            final(self).humans@ == old(self).humans@,
            final(self).tasks_backlog@.len() == old(self).tasks_backlog@.len() + tasks@.len(),
            final(self).next_task_id >= old(self).next_task_id,
            final(self).next_task_id == cap_u32(old(self).next_task_id + tasks@.len()),
            forall|k: int|
                0 <= k < old(self).tasks_backlog@.len()
                    ==> (#[trigger] final(self).tasks_backlog@[k]) == old(self).tasks_backlog@[k],
            forall|k: int|
                0 <= k < tasks@.len()
                    ==> (#[trigger] final(self).tasks_backlog@[old(self).tasks_backlog@.len() + k])
                    == built_with(
                    tasks@[k],
                    cap_u32(old(self).next_task_id + k) as u32,
                    old(self).time,
                ),
            *final(self) == (WorldState {
                tasks_backlog: final(self).tasks_backlog,
                next_task_id: final(self).next_task_id,
                ..*old(self)
            }),
    {
        let mut tasks = tasks;
        let n: usize = tasks.len();
        let ghost all = tasks@;
        let mut i: usize = 0;
        proof {
            assert(all.skip(0) =~= all);
        }
        while i < n
            invariant
                i <= n,
                n == all.len(),
                tasks@ == all.skip(i as int),
                self.inv(),
                self.tasks_candidate@ == old(self).tasks_candidate@,
                self.tasks_progress@ == old(self).tasks_progress@,
                self.tasks_review@ == old(self).tasks_review@,
                self.tasks_done@ == old(self).tasks_done@,
                self.humans@ == old(self).humans@,
                self.tasks_backlog@.len() == old(self).tasks_backlog@.len() + i,
                self.next_task_id >= old(self).next_task_id,
                self.next_task_id == cap_u32(old(self).next_task_id + i),
                forall|k: int|
                    0 <= k < old(self).tasks_backlog@.len() ==> #[trigger] self.tasks_backlog@[k]
                        == old(self).tasks_backlog@[k],
                forall|k: int|
                    0 <= k < i
                        ==> (#[trigger] self.tasks_backlog@[old(self).tasks_backlog@.len() + k])
                        == built_with(
                        all[k],
                        cap_u32(old(self).next_task_id + k) as u32,
                        old(self).time,
                    ),
                *self == (WorldState {
                    tasks_backlog: self.tasks_backlog,
                    next_task_id: self.next_task_id,
                    ..*old(self)
                }),
            decreases n - i,
        {
            // taking the builders front to back keeps the stored order
            let builder = tasks.remove(0);
            proof {
                assert(tasks@ =~= all.skip(i as int + 1));
            }
            self.add_task(builder);
            i = i + 1;
        }
    }

    /// Borrow the collection of the given stage.
    fn stage_vec(&self, stage: StageId) -> (r: &Vec<GameTask>)
        ensures
            r@ == self.stage_list(stage),
    {
        match stage {
            StageId::Backlog => &self.tasks_backlog,
            StageId::Candidate => &self.tasks_candidate,
            StageId::Progress => &self.tasks_progress,
            StageId::Review => &self.tasks_review,
            StageId::Done => &self.tasks_done,
        }
    }

    /// Recompute the score linger rate from the current bug count
    /// and complexity.
    fn update_score_linger_rate(&mut self)
        ensures
            final(self).score_linger_rate == linger_rate_of(old(self).bugs, old(self).complexity),
            *final(self) == (WorldState {
                score_linger_rate: final(self).score_linger_rate,
                ..*old(self)
            }),
    {
        self.score_linger_rate = self.bugs.saturating_add(
            u32_mul_saturating(self.complexity, LINGER_FACTOR) / 2,
        ).saturating_sub(10);
    }

    /// Fold a merged task's reward, latent bugs and complexity change
    /// into the world totals, and recompute the linger rate.
    fn apply_merge_effects(&mut self, kind: TaskKind, task_bugs: u32, difficulty: u32, score: u32)
        ensures
            final(self).total_score == cap_u32(old(self).total_score + score * SCORE_UNIT),
            final(self).score_in_month == cap_i32(old(self).score_in_month + score * SCORE_UNIT),
            final(self).bugs == merge_bugs(old(self).bugs, kind, task_bugs),
            final(self).complexity == merge_complexity(old(self).complexity, kind, difficulty),
            final(self).score_linger_rate == linger_rate_of(
                final(self).bugs,
                final(self).complexity,
            ),
            *final(self) == (WorldState {
                total_score: final(self).total_score,
                score_in_month: final(self).score_in_month,
                bugs: final(self).bugs,
                complexity: final(self).complexity,
                score_linger_rate: final(self).score_linger_rate,
                ..*old(self)
            }),
    {
        let scaled: i64 = score as i64 * 1_000i64;
        assert(scaled == score * SCORE_UNIT);

        // add score, clamped so the total never goes negative
        self.total_score = u32_add_i64_clamped(self.total_score, scaled);
        self.score_in_month = i32_add_i64_clamped(self.score_in_month, scaled);

        // add the task's latent bugs
        self.bugs = self.bugs.saturating_add(task_bugs);

        // adjust complexity by task kind
        match kind {
            TaskKind::Bug => {
                self.complexity = self.complexity.saturating_add(difficulty / 5);
                // remove the bug that was fixed upstream
                self.bugs = self.bugs.saturating_sub(1);
            },
            TaskKind::Normal => {
                self.complexity = self.complexity.saturating_add(1 + difficulty / 4);
            },
            TaskKind::Chore => {
                self.complexity = self.complexity.saturating_sub(2 + difficulty / 4);
            },
        }

        // the linger rate follows bugs and complexity immediately
        self.update_score_linger_rate();
    }

    /// Merge the given task upstream, applying its score, bug and
    /// complexity effects to the world.
    ///
    /// The first task with the reference's ID in the reference's origin
    /// collection is unassigned and cleared of progress; a reference to
    /// no known task changes nothing.
    pub fn merge_task(&mut self, task_transfer: &TaskTransfer)
        requires
            old(self).inv(),
        ensures
            final(self).inv(),
            match spec_find(old(self).stage_list(task_transfer.from), task_transfer.id) {
                None => *final(self) == *old(self),
                Some(j) => {
                    let t = old(self).stage_list(task_transfer.from)[j];
                    &&& final(self).stage_list(task_transfer.from) == old(self).stage_list(
                        task_transfer.from,
                    ).update(j, merged_task(t))
                    &&& forall|s: StageId|
                        s != task_transfer.from ==> #[trigger] final(self).stage_list(s) == old(
                            self,
                        ).stage_list(s)
                    &&& final(self).total_score == cap_u32(
                        old(self).total_score + t.score * SCORE_UNIT,
                    )
                    &&& final(self).score_in_month == cap_i32(
                        old(self).score_in_month + t.score * SCORE_UNIT,
                    )
                    &&& final(self).bugs == merge_bugs(old(self).bugs, t.kind, t.bugs)
                    &&& final(self).complexity == merge_complexity(
                        old(self).complexity,
                        t.kind,
                        t.difficulty,
                    )
                    &&& final(self).score_linger_rate == linger_rate_of(
                        final(self).bugs,
                        final(self).complexity,
                    )
                    &&& *final(self) == (WorldState {
                        total_score: final(self).total_score,
                        score_in_month: final(self).score_in_month,
                        bugs: final(self).bugs,
                        complexity: final(self).complexity,
                        score_linger_rate: final(self).score_linger_rate,
                        tasks_backlog: final(self).tasks_backlog,
                        tasks_candidate: final(self).tasks_candidate,
                        tasks_progress: final(self).tasks_progress,
                        tasks_review: final(self).tasks_review,
                        tasks_done: final(self).tasks_done,
                        ..*old(self)
                    })
                },
            },
    {
        let found = find_task_index(self.stage_vec(task_transfer.from), task_transfer.id);
        let j: usize = match found {
            None => {
                return ;
            },
            Some(j) => j,
        };

        // unassign the task from its worker and remove its progress,
        // and remember its properties for the merge calculations
        let (kind, task_bugs, difficulty, score) = match task_transfer.from {
            StageId::Backlog => clear_for_merge(&mut self.tasks_backlog, j),
            StageId::Candidate => clear_for_merge(&mut self.tasks_candidate, j),
            StageId::Progress => clear_for_merge(&mut self.tasks_progress, j),
            StageId::Review => clear_for_merge(&mut self.tasks_review, j),
            StageId::Done => clear_for_merge(&mut self.tasks_done, j),
        };

        self.apply_merge_effects(kind, task_bugs, difficulty, score);
    }

    /// Advance the tutorial to its next phase, if it is active.
    ///
    /// Passing into phase 11 brings the scripted onboarding worker
    /// onto the roster.
    pub fn advance_tutorial(&mut self) -> (r: EventOutcome)
        requires
            old(self).inv(),
        ensures
            final(self).inv(),
            advance_tutorial_post(*old(self), *final(self), r),
    {
        match self.tutorial {
            Some(phase) => {
                let next_phase: u32 = phase.saturating_add(1);
                self.tutorial = Some(next_phase);

                if next_phase == 11 && self.humans.len() < u32::MAX as usize {
                    // add the onboarding worker to the team
                    let guy_id: u32 = self.next_human_id();
                    let guy = GameHuman::new(
                        guy_id,
                        String::from_str("Guy"),
                        String::from_str("#333"),
                        126,
                    );
                    self.humans.push(guy);
                    proof {
                        assert(final(self).humans@.subrange(0, old(self).humans@.len() as int)
                            =~= old(self).humans@);
                    }
                }

                EventOutcome::OpenMessage(Message::Tutorial(next_phase))
            },
            None => EventOutcome::Nothing,
        }
    }

    /// Assign a task to a worker.
    ///
    /// A reference to no known task, an assignment the task already
    /// has, and a worker ID outside the roster all change nothing.
    pub fn assign_task(&mut self, task: TaskTransfer, human_id: u32) -> (r: EventOutcome)
        requires
            old(self).inv(),
        ensures
            final(self).inv(),
            assign_task_post(*old(self), *final(self), task, human_id, r),
    {
        let found = find_task_index(self.stage_vec(task.from), task.id);
        let j: usize = match found {
            None => {
                return EventOutcome::Nothing;
            },
            Some(j) => j,
        };

        let already_assigned: bool = {
            let t = &self.stage_vec(task.from)[j];
            match t.assigned {
                Some(assigned_human) => assigned_human == human_id,
                None => false,
            }
        };
        if already_assigned {
            // already assigned to this worker, do nothing
            return EventOutcome::Nothing;
        }
        if (human_id as usize) >= self.humans.len() {
            // no such worker on the roster
            return EventOutcome::Nothing;
        }

        // record the assignment on the task
        match task.from {
            StageId::Backlog => set_assigned(&mut self.tasks_backlog, j, human_id),
            StageId::Candidate => set_assigned(&mut self.tasks_candidate, j, human_id),
            StageId::Progress => set_assigned(&mut self.tasks_progress, j, human_id),
            StageId::Review => set_assigned(&mut self.tasks_review, j, human_id),
            StageId::Done => set_assigned(&mut self.tasks_done, j, human_id),
        }

        EventOutcome::Update
    }

    /// Handle a request to move a task between stages.
    ///
    /// The transition table of the stage machine:
    ///
    /// * Backlog → Candidate: always; progress resets, now measuring
    ///   specification writing.
    /// * Candidate → Backlog: only while the task is not yet specified.
    /// * Candidate → Progress: only once specified and assigned;
    ///   progress resets, now measuring development.
    /// * Progress → Candidate: always; development progress is kept.
    /// * Progress → Review and Progress → Done: only once developed.
    /// * Review → Progress: always; a found, unfixed bug puts progress
    ///   back to two thirds for rework.
    /// * Review → Done: always.
    ///
    /// Moving into Done merges the task (see [`WorldState::merge_task`]).
    /// Every other pair, and a reference to no known task, is rejected
    /// as a no-op.
    pub fn handle_move_task(&mut self, task: TaskTransfer, to: StageId) -> (r: EventOutcome)
        requires
            old(self).inv(),
        ensures
            final(self).inv(),
            move_task_post(*old(self), *final(self), task, to, r),
    {
        let found = find_task_index(self.stage_vec(task.from), task.id);
        let j: usize = match found {
            None => {
                return EventOutcome::Nothing;
            },
            Some(j) => j,
        };

        // read what the transition table needs from the task
        let (t_stage, t_specified, t_assigned_some, t_progress): (StageId, bool, bool, u32) = {
            let t = &self.stage_vec(task.from)[j];
            (t.stage, t.specified, t.assigned.is_some(), t.progress)
        };

        let allowed: bool = match (t_stage, to) {
            (StageId::Backlog, StageId::Candidate) => true,
            (StageId::Candidate, StageId::Backlog) => !t_specified,
            (StageId::Candidate, StageId::Progress) => t_specified && t_assigned_some,
            (StageId::Progress, StageId::Candidate) => true,
            (StageId::Progress, StageId::Review) => t_progress >= PROGRESS_DONE,
            (StageId::Progress, StageId::Done) => t_progress >= PROGRESS_DONE,
            (StageId::Review, StageId::Progress) => true,
            (StageId::Review, StageId::Done) => true,
            _ => false,
        };
        if !allowed {
            // not a valid move
            return EventOutcome::Nothing;
        }

        // take the task out of its origin collection
        let mut moved = match task.from {
            StageId::Backlog => self.tasks_backlog.remove(j),
            StageId::Candidate => self.tasks_candidate.remove(j),
            StageId::Progress => self.tasks_progress.remove(j),
            StageId::Review => self.tasks_review.remove(j),
            StageId::Done => self.tasks_done.remove(j),
        };

        // entering specification or development work resets progress,
        // and rework after a found bug keeps only part of it
        match (moved.stage, to) {
            (StageId::Backlog, StageId::Candidate) => {
                moved.progress = 0;
            },
            (StageId::Candidate, StageId::Progress) => {
                moved.progress = 0;
            },
            (StageId::Review, StageId::Progress) => {
                if moved.bugs_found > 0 {
                    moved.progress = REWORK_PROGRESS;
                }
            },
            _ => {},
        }
        moved.stage = to;

        if to == StageId::Done {
            // merge: unassign, clear progress,
            // and fold the task's effects into the world totals
            moved.assigned = None;
            moved.progress = 0;
            let (kind, task_bugs, difficulty, score) = (
                moved.kind,
                moved.bugs,
                moved.difficulty,
                moved.score,
            );
            self.tasks_done.push(moved);
            self.apply_merge_effects(kind, task_bugs, difficulty, score);

            // tutorial step: the first merged task moves the script along
            let tutorial_step: bool = match self.tutorial {
                Some(p) => 6 <= p && p <= 8,
                None => false,
            };
            if tutorial_step {
                self.tutorial = Some(8);
                return self.advance_tutorial();
            }
            return EventOutcome::Update;
        }

        // place it on the new collection
        match to {
            StageId::Backlog => self.tasks_backlog.push(moved),
            StageId::Candidate => self.tasks_candidate.push(moved),
            StageId::Progress => self.tasks_progress.push(moved),
            StageId::Review => self.tasks_review.push(moved),
            StageId::Done => self.tasks_done.push(moved),
        }

        if task.from == StageId::Progress && to == StageId::Review {
            // tutorial step: the first task sent to review
            let at_review_step: bool = match self.tutorial {
                Some(p) => p == 7,
                None => false,
            };
            if at_review_step {
                return self.advance_tutorial();
            }
        }

        EventOutcome::Update
    }

    /// Commit the rollover to the next month.
    ///
    /// Before in-month time has reached the month length this is a
    /// no-op, and right after a rollover the in-month time is back to
    /// zero: repeated requests roll over at most once per month end.
    pub fn next_month(&mut self) -> (r: EventOutcome)
        requires
            old(self).inv(),
        ensures
            final(self).inv(),
            next_month_post(*old(self), *final(self), r),
    {
        // safe-guard: ignore the request if the month is not over
        if self.time_in_month < TICKS_PER_MONTH {
            return EventOutcome::Nothing;
        }

        // advance the month and reset the in-month counters
        self.month = self.month.saturating_add(1);
        self.time_in_month = 0;
        self.score_in_month = 0;
        self.bugs_fixed_in_month = 0;

        // devising tasks gets easier as the game goes on
        self.task_ingest_rate = self.task_ingest_rate.saturating_add(1);

        // hide tasks already done
        hide_all(&mut self.tasks_done);

        // a finished tutorial is cleared for good:
        // the scripted worker quits and leaves their tasks behind
        let had_tutorial: bool = match self.tutorial {
            Some(_) => true,
            None => false,
        };
        if had_tutorial {
            self.tutorial = None;

            if let Some(g) = find_human_named(&self.humans, "Guy") {
                let guy_id: u32 = self.humans[g].id;
                {
                    let guy = &mut self.humans[g];
                    guy.quit = true;
                }
                unassign_all(&mut self.tasks_backlog, guy_id);
                unassign_all(&mut self.tasks_candidate, guy_id);
                unassign_all(&mut self.tasks_progress, guy_id);
                unassign_all(&mut self.tasks_review, guy_id);
            }
        }

        EventOutcome::Update
    }

    /// The report as derived from the current state.
    pub open spec fn spec_month_report(self) -> MonthlyReport {
        MonthlyReport {
            month: self.month,
            total_score: (self.total_score as int / SCORE_UNIT as int) as u32,
            score: score_units_of(self.score_in_month) as i32,
            tasks_done: count_visible(self.tasks_done@) as usize,
            bugs_fixed: self.bugs_fixed_in_month,
            complexity: self.complexity,
        }
    }

    /// Compute the end-of-month report from the current state.
    fn month_report(&self) -> (rep: MonthlyReport)
        ensures
            rep == self.spec_month_report(),
    {
        // score is displayed in units
        let total_units: u32 = self.total_score / SCORE_UNIT;
        let month_units: i32 = if self.score_in_month >= 0 {
            ((self.score_in_month as u32) / SCORE_UNIT) as i32
        } else {
            let magnitude: u32 = (-(self.score_in_month as i64)) as u32;
            let units: u32 = magnitude / SCORE_UNIT;
            -(units as i32)
        };

        // only tasks done this month are still visible
        let n: usize = self.tasks_done.len();
        let mut visible: usize = 0;
        let mut i: usize = 0;
        while i < n
            invariant
                i <= n,
                n == self.tasks_done@.len(),
                visible <= i,
                visible == count_visible(self.tasks_done@.take(i as int)),
            decreases n - i,
        {
            proof {
                assert(self.tasks_done@.take(i as int + 1).drop_last() =~= self.tasks_done@.take(
                    i as int,
                ));
            }
            if self.tasks_done[i].visible {
                visible = visible + 1;
            }
            i = i + 1;
        }
        proof {
            assert(self.tasks_done@.take(n as int) =~= self.tasks_done@);
        }

        MonthlyReport {
            month: self.month,
            total_score: total_units,
            score: month_units,
            tasks_done: visible,
            bugs_fixed: self.bugs_fixed_in_month,
            complexity: self.complexity,
        }
    }

    /// Development work: each assigned, not-yet-developed task in
    /// progress receives work from its worker, if that worker has not
    /// acted this tick.  Progress added depends on the worker's
    /// experience against the task's difficulty and the world's
    /// complexity; each stint risks introducing a bug, and completing
    /// development records the developer, folds found bugs into the
    /// fixed tally, and teaches the worker.
    #[verifier::rlimit(100)]
    fn work_progress(&mut self, reactor: &mut EventReactor, worked: &mut Vec<bool>) -> (r: Option<
        EventOutcome,
    >)
        requires
            old(self).inv(),
            old(worked)@.len() == old(self).humans@.len(),
        ensures
            final(self).inv(),
            final(worked)@.len() == old(worked)@.len(),
            final(self).tasks_backlog@ == old(self).tasks_backlog@,
            final(self).tasks_candidate@ == old(self).tasks_candidate@,
            final(self).tasks_review@ == old(self).tasks_review@,
            final(self).tasks_done@ == old(self).tasks_done@,
            final(self).humans@.len() == old(self).humans@.len(),
            forall|i: int|
                0 <= i < old(self).humans@.len() ==> {
                    &&& (#[trigger] final(self).humans@[i]).id == old(self).humans@[i].id
                    &&& final(self).humans@[i].name == old(self).humans@[i].name
                    &&& final(self).humans@[i].color == old(self).humans@[i].color
                    &&& final(self).humans@[i].quit == old(self).humans@[i].quit
                    &&& final(self).humans@[i].experience >= old(self).humans@[i].experience
                },
            final(self).tasks_progress@.len() == old(self).tasks_progress@.len(),
            forall|j: int|
                0 <= j < old(self).tasks_progress@.len() ==> dev_worked_task(
                    old(self).tasks_progress@[j],
                    #[trigger] final(self).tasks_progress@[j],
                ),
            final(self).bugs_fixed_in_month >= old(self).bugs_fixed_in_month,
            final(self).bugs_fixed_in_total >= old(self).bugs_fixed_in_total,
            *final(self) == (WorldState {
                tasks_progress: final(self).tasks_progress,
                humans: final(self).humans,
                bugs_fixed_in_month: final(self).bugs_fixed_in_month,
                bugs_fixed_in_total: final(self).bugs_fixed_in_total,
                tutorial: final(self).tutorial,
                ..*old(self)
            }),
            match r {
                None => final(self).tutorial == old(self).tutorial,
                Some(o) => old(self).tutorial == Some(5u32) && final(self).tutorial == Some(6u32)
                    && o == EventOutcome::OpenMessage(Message::Tutorial(6)),
            },
    {
        let n: usize = self.tasks_progress.len();
        let mut j: usize = 0;
        while j < n
            invariant
                j <= n,
                n == self.tasks_progress@.len(),
                self.inv(),
                worked@.len() == old(worked)@.len(),
                worked@.len() == self.humans@.len(),
                self.tasks_backlog@ == old(self).tasks_backlog@,
                self.tasks_candidate@ == old(self).tasks_candidate@,
                self.tasks_review@ == old(self).tasks_review@,
                self.tasks_done@ == old(self).tasks_done@,
                self.humans@.len() == old(self).humans@.len(),
                forall|i: int|
                    0 <= i < old(self).humans@.len() ==> {
                        &&& (#[trigger] self.humans@[i]).id == old(self).humans@[i].id
                        &&& self.humans@[i].name == old(self).humans@[i].name
                        &&& self.humans@[i].color == old(self).humans@[i].color
                        &&& self.humans@[i].quit == old(self).humans@[i].quit
                        &&& self.humans@[i].experience >= old(self).humans@[i].experience
                    },
                self.tasks_progress@.len() == old(self).tasks_progress@.len(),
                forall|k: int|
                    0 <= k < j ==> dev_worked_task(
                        old(self).tasks_progress@[k],
                        #[trigger] self.tasks_progress@[k],
                    ),
                forall|k: int|
                    j <= k < n ==> #[trigger] self.tasks_progress@[k] == old(
                        self,
                    ).tasks_progress@[k],
                self.bugs_fixed_in_month >= old(self).bugs_fixed_in_month,
                self.bugs_fixed_in_total >= old(self).bugs_fixed_in_total,
                *self == (WorldState {
                    tasks_progress: self.tasks_progress,
                    humans: self.humans,
                    bugs_fixed_in_month: self.bugs_fixed_in_month,
                    bugs_fixed_in_total: self.bugs_fixed_in_total,
                    ..*old(self)
                }),
                self.tutorial == old(self).tutorial,
            decreases n - j,
        {
            if let Some(outcome) = self.work_progress_step(reactor, worked, j) {
                return Some(outcome);
            }
            j = j + 1;
        }
        None
    }

    /// One slot of the development sweep: let the assigned worker act
    /// on the task at the given index, if the task still needs work
    /// and the worker is free this tick.
    #[verifier::rlimit(60)]
    fn work_progress_step(
        &mut self,
        reactor: &mut EventReactor,
        worked: &mut Vec<bool>,
        j: usize,
    ) -> (r: Option<EventOutcome>)
        requires
            old(self).inv(),
            old(worked)@.len() == old(self).humans@.len(),
            j < old(self).tasks_progress@.len(),
        ensures
            final(self).inv(),
            final(worked)@.len() == old(worked)@.len(),
            final(self).tasks_backlog@ == old(self).tasks_backlog@,
            final(self).tasks_candidate@ == old(self).tasks_candidate@,
            final(self).tasks_review@ == old(self).tasks_review@,
            final(self).tasks_done@ == old(self).tasks_done@,
            final(self).humans@.len() == old(self).humans@.len(),
            forall|i: int|
                0 <= i < old(self).humans@.len() ==> {
                    &&& (#[trigger] final(self).humans@[i]).id == old(self).humans@[i].id
                    &&& final(self).humans@[i].name == old(self).humans@[i].name
                    &&& final(self).humans@[i].color == old(self).humans@[i].color
                    &&& final(self).humans@[i].quit == old(self).humans@[i].quit
                    &&& final(self).humans@[i].experience >= old(self).humans@[i].experience
                },
            final(self).tasks_progress@.len() == old(self).tasks_progress@.len(),
            forall|k: int|
                0 <= k < old(self).tasks_progress@.len() && k != j
                    ==> (#[trigger] final(self).tasks_progress@[k]) == old(
                    self,
                ).tasks_progress@[k],
            dev_worked_task(
                old(self).tasks_progress@[j as int],
                final(self).tasks_progress@[j as int],
            ),
            ({
                let t0 = old(self).tasks_progress@[j as int];
                let t1 = final(self).tasks_progress@[j as int];
                let completed = t0.progress < PROGRESS_DONE && t1.progress >= PROGRESS_DONE;
                &&& (completed ==> {
                    &&& final(self).bugs_fixed_in_month == cap_u32(
                        old(self).bugs_fixed_in_month + t0.bugs_found,
                    )
                    &&& final(self).bugs_fixed_in_total == cap_u32(
                        old(self).bugs_fixed_in_total + t0.bugs_found,
                    )
                    &&& (t0.assigned matches Some(h) ==> (old(self).tutorial != Some(5u32) ==> {
                        let e0 = old(self).humans@[h as int].experience;
                        final(self).humans@[h as int].experience == if e0 + t0.difficulty / 4
                            <= EXPERIENCE_CAP {
                            e0 + t0.difficulty / 4
                        } else {
                            EXPERIENCE_CAP as int
                        }
                    }))
                })
                &&& (!completed ==> {
                    &&& final(self).bugs_fixed_in_month == old(self).bugs_fixed_in_month
                    &&& final(self).bugs_fixed_in_total == old(self).bugs_fixed_in_total
                })
            }),
            *final(self) == (WorldState {
                tasks_progress: final(self).tasks_progress,
                humans: final(self).humans,
                bugs_fixed_in_month: final(self).bugs_fixed_in_month,
                bugs_fixed_in_total: final(self).bugs_fixed_in_total,
                tutorial: final(self).tutorial,
                ..*old(self)
            }),
            match r {
                None => final(self).tutorial == old(self).tutorial,
                Some(o) => old(self).tutorial == Some(5u32) && final(self).tutorial == Some(6u32)
                    && o == EventOutcome::OpenMessage(Message::Tutorial(6)),
            },
    {
        let (t_developed, t_assigned, t_difficulty): (bool, Option<u32>, u32) = {
            let t = &self.tasks_progress[j];
            (t.is_developed(), t.assigned, t.difficulty)
        };

        {
            if !t_developed {
                if let Some(human_id) = t_assigned {
                    let h: usize = human_id as usize;
                    if !worked[h] {
                        // do progress on the task
                        let experience: u32 = self.humans[h].experience;
                        let divisor: u32 = u32_mul_saturating(t_difficulty, 60).saturating_add(
                            u32_mul_saturating(self.complexity, 55),
                        );
                        let added: u32 = if divisor == 0 {
                            PROGRESS_DONE
                        } else {
                            5u32.saturating_add(
                                u32_mul_saturating(5u32.saturating_add(experience), 1_000)
                                    / divisor,
                            )
                        };
                        let complete: bool = {
                            let t = &mut self.tasks_progress[j];
                            t.add_progress(added)
                        };
                        {
                            let human = &mut self.humans[h];
                            human.status = HumanStatus::Coding;
                        }

                        // as this worker acted on the task,
                        // they cannot work on other things this tick
                        worked.set(h, true);

                        // roll for introducing a bug
                        let introduced: bool = reactor.human_introduced_bug(
                            &self.humans[h],
                            &self.tasks_progress[j],
                            self.complexity,
                        );
                        if introduced {
                            let t = &mut self.tasks_progress[j];
                            t.bugs = t.bugs.saturating_add(1);
                        }

                        if complete {
                            let found: u32 = {
                                let t = &mut self.tasks_progress[j];
                                // record who completed the development
                                t.developed_by = Some(human_id);
                                let found = t.bugs_found;
                                // found bugs were fixed along the way
                                t.bugs = t.bugs - found;
                                t.bugs_found = 0;
                                found
                            };
                            self.bugs_fixed_in_month = self.bugs_fixed_in_month.saturating_add(
                                found,
                            );
                            self.bugs_fixed_in_total = self.bugs_fixed_in_total.saturating_add(
                                found,
                            );

                            // the worker learns from the task
                            {
                                let human = &mut self.humans[h];
                                let grown: u32 = human.experience.saturating_add(
                                    t_difficulty / 4,
                                );
                                human.experience = u32_min(grown, EXPERIENCE_CAP);
                            }

                            // tutorial step: the first task developed
                            let at_step: bool = match self.tutorial {
                                Some(p) => p == 5,
                                None => false,
                            };
                            if at_step {
                                // make sure there is a bug to find,
                                // and a bit of experience to find it with
                                {
                                    let t = &mut self.tasks_progress[j];
                                    if t.bugs == 0 {
                                        t.bugs = 1;
                                    }
                                }
                                {
                                    let you = &mut self.humans[0];
                                    let grown: u32 = you.experience.saturating_add(1);
                                    you.experience = u32_min(grown, EXPERIENCE_CAP);
                                }
                                return Some(self.advance_tutorial());
                            }
                        }
                    }
                }
            }
        }
        None
    }

    /// Specification writing: if the player has not acted this tick,
    /// they write the specification of the first not-yet-specified
    /// sprint candidate, at a pace set by their experience against the
    /// task's difficulty.
    #[verifier::rlimit(60)]
    fn work_specification(&mut self, worked: &mut Vec<bool>) -> (r: Option<EventOutcome>)
        requires
            old(self).inv(),
            old(worked)@.len() == old(self).humans@.len(),
        ensures
            final(self).inv(),
            final(worked)@.len() == old(worked)@.len(),
            final(self).tasks_backlog@ == old(self).tasks_backlog@,
            final(self).tasks_progress@ == old(self).tasks_progress@,
            final(self).tasks_review@ == old(self).tasks_review@,
            final(self).tasks_done@ == old(self).tasks_done@,
            roster_kept(old(self).humans@, final(self).humans@),
            final(self).humans@.len() <= old(self).humans@.len() + 1,
            forall|i: int|
                0 <= i < old(self).humans@.len() ==> (#[trigger] final(self).humans@[i]).experience
                    == old(self).humans@[i].experience,
            final(self).tasks_candidate@.len() == old(self).tasks_candidate@.len(),
            forall|k: int|
                0 <= k < old(self).tasks_candidate@.len() ==> {
                    let t0 = old(self).tasks_candidate@[k];
                    let t1 = #[trigger] final(self).tasks_candidate@[k];
                    &&& t1.id == t0.id
                    &&& t1.kind == t0.kind
                    &&& t1.stage == t0.stage
                    &&& t1.score == t0.score
                    &&& t1.difficulty == t0.difficulty
                    &&& t1.deadline == t0.deadline
                    &&& t1.description == t0.description
                    &&& t1.assigned == t0.assigned
                    &&& t1.bugs == t0.bugs
                    &&& t1.bugs_found == t0.bugs_found
                    &&& t1.visible == t0.visible
                    &&& t1.progress >= t0.progress
                    &&& (t0.specified ==> t1.specified)
                },
            *final(self) == (WorldState {
                tasks_candidate: final(self).tasks_candidate,
                humans: final(self).humans,
                tutorial: final(self).tutorial,
                ..*old(self)
            }),
            old(worked)@[0] ==> *final(self) == *old(self) && final(worked)@ == old(worked)@
                && r is None,
            !old(worked)@[0] && first_unspecified(old(self).tasks_candidate@) is None
                ==> *final(self) == *old(self) && final(worked)@ == old(worked)@ && r is None,
            !old(worked)@[0] ==> (first_unspecified(old(self).tasks_candidate@) matches Some(j)
                ==> {
                let t0 = old(self).tasks_candidate@[j];
                let added = writing_progress_of(old(self).humans@[0].experience, t0.difficulty);
                let completed = t0.progress + added >= PROGRESS_DONE;
                let p2: u32 = if completed {
                    PROGRESS_DONE
                } else {
                    (t0.progress + added) as u32
                };
                &&& final(self).tasks_candidate@ == old(self).tasks_candidate@.update(
                    j,
                    (GameTask { progress: p2, specified: completed, ..t0 }),
                )
                &&& final(worked)@ == old(worked)@.update(0, true)
                &&& (r is None ==> final(self).humans@ == old(self).humans@.update(
                    0,
                    (GameHuman { status: HumanStatus::Writing, ..old(self).humans@[0] }),
                ))
                &&& (r is Some ==> completed)
            }),

            match r {
                None => final(self).tutorial == old(self).tutorial && final(self).humans@.len()
                    == old(self).humans@.len(),
                Some(o) => {
                    ||| {
                        &&& old(self).tutorial == Some(4u32)
                        &&& final(self).tutorial == Some(5u32)
                        &&& o == EventOutcome::OpenMessage(Message::Tutorial(5))
                        &&& final(self).humans@.len() == old(self).humans@.len()
                    }
                    ||| {
                        &&& old(self).tutorial == Some(10u32)
                        &&& final(self).tutorial == Some(11u32)
                        &&& o == EventOutcome::OpenMessage(Message::Tutorial(11))
                    }
                },
            },
    {
        // the player cannot write specifications
        // while also coding or reviewing
        if worked[0] {
            return None;
        }

        // work on the first candidate task still unspecified
        let n: usize = self.tasks_candidate.len();
        let mut j: usize = 0;
        while j < n
            invariant
                j <= n,
                n == self.tasks_candidate@.len(),
                *self == *old(self),
                self.inv(),
                !old(worked)@[0],
                worked@ == old(worked)@,
                worked@.len() == self.humans@.len(),
                forall|k: int| 0 <= k < j ==> (#[trigger] self.tasks_candidate@[k]).specified,
            decreases n - j,
        {
            let (t_specified, t_difficulty): (bool, u32) = {
                let t = &self.tasks_candidate[j];
                (t.specified, t.difficulty)
            };
            if !t_specified {
                proof {
                    lemma_first_unspecified_hit(self.tasks_candidate@, j as int);
                }
                // do writing progress on the task
                let experience: u32 = self.humans[0].experience;
                let divisor: u32 = u32_mul_saturating(t_difficulty, 128);
                let added: u32 = if divisor == 0 {
                    PROGRESS_DONE
                } else {
                    u32_mul_saturating(1u32.saturating_add(experience), 1_000) / divisor
                };
                let complete: bool = {
                    let t = &mut self.tasks_candidate[j];
                    t.add_progress(added)
                };
                {
                    let you = &mut self.humans[0];
                    you.status = HumanStatus::Writing;
                }
                worked.set(0, true);

                // tutorial step: a task specified for the first time
                let at_step: bool = match self.tutorial {
                    Some(p) => p == 4 || p == 10,
                    None => false,
                };
                if complete && at_step {
                    let ghost before_advance = self.humans@;
                    let outcome = self.advance_tutorial();
                    proof {
                        assert forall|i: int|
                            0 <= i < before_advance.len() implies #[trigger] self.humans@[i]
                            == before_advance[i] by {
                            if self.humans@.len() > before_advance.len() {
                                assert(self.humans@.subrange(0, before_advance.len() as int)[i]
                                    == self.humans@[i]);
                            }
                        }
                        assert(roster_kept(old(self).humans@, self.humans@));
                    }
                    return Some(outcome);
                }
                return None;
            }
            j = j + 1;
        }
        proof {
            lemma_first_unspecified_miss(self.tasks_candidate@);
        }
        None
    }

    /// Review work: each task under review with an assigned worker who
    /// has not acted this tick gets one round of bug discovery rolls.
    #[verifier::rlimit(60)]
    fn review_tasks(&mut self, reactor: &mut EventReactor, worked: &mut Vec<bool>) -> (r: Option<
        EventOutcome,
    >)
        requires
            old(self).inv(),
            old(worked)@.len() == old(self).humans@.len(),
        ensures
            final(self).inv(),
            final(worked)@.len() == old(worked)@.len(),
            final(self).tasks_backlog@ == old(self).tasks_backlog@,
            final(self).tasks_candidate@ == old(self).tasks_candidate@,
            final(self).tasks_progress@ == old(self).tasks_progress@,
            final(self).tasks_done@ == old(self).tasks_done@,
            roster_kept(old(self).humans@, final(self).humans@),
            final(self).humans@.len() == old(self).humans@.len(),
            forall|i: int|
                0 <= i < old(self).humans@.len() ==> (#[trigger] final(self).humans@[i]).experience
                    == old(self).humans@[i].experience,
            final(self).tasks_review@.len() == old(self).tasks_review@.len(),
            forall|k: int|
                0 <= k < old(self).tasks_review@.len() ==> {
                    let t0 = old(self).tasks_review@[k];
                    let t1 = #[trigger] final(self).tasks_review@[k];
                    &&& t1.id == t0.id
                    &&& t1.kind == t0.kind
                    &&& t1.stage == t0.stage
                    &&& t1.score == t0.score
                    &&& t1.difficulty == t0.difficulty
                    &&& t1.deadline == t0.deadline
                    &&& t1.description == t0.description
                    &&& t1.assigned == t0.assigned
                    &&& t1.specified == t0.specified
                    &&& t1.visible == t0.visible
                    &&& t1.progress == t0.progress
                    &&& t1.bugs == t0.bugs
                    &&& t0.bugs_found <= t1.bugs_found <= t0.bugs_found + 1
                },
            *final(self) == (WorldState {
                tasks_review: final(self).tasks_review,
                humans: final(self).humans,
                tutorial: final(self).tutorial,
                ..*old(self)
            }),
            match r {
                None => final(self).tutorial == old(self).tutorial,
                Some(o) => old(self).tutorial == Some(6u32) && final(self).tutorial == Some(7u32)
                    && o == EventOutcome::OpenMessage(Message::Tutorial(7)),
            },
    {
        let n: usize = self.tasks_review.len();
        let mut j: usize = 0;
        while j < n
            invariant
                j <= n,
                n == self.tasks_review@.len(),
                self.inv(),
                worked@.len() == old(worked)@.len(),
                worked@.len() == self.humans@.len(),
                self.tasks_backlog@ == old(self).tasks_backlog@,
                self.tasks_candidate@ == old(self).tasks_candidate@,
                self.tasks_progress@ == old(self).tasks_progress@,
                self.tasks_done@ == old(self).tasks_done@,
                roster_kept(old(self).humans@, self.humans@),
                self.humans@.len() == old(self).humans@.len(),
                forall|i: int|
                    0 <= i < old(self).humans@.len() ==> (#[trigger] self.humans@[i]).experience
                        == old(self).humans@[i].experience,
                self.tasks_review@.len() == old(self).tasks_review@.len(),
                forall|k: int|
                    0 <= k < j ==> {
                        let t0 = old(self).tasks_review@[k];
                        let t1 = #[trigger] self.tasks_review@[k];
                        &&& t1.id == t0.id
                        &&& t1.kind == t0.kind
                        &&& t1.stage == t0.stage
                        &&& t1.score == t0.score
                        &&& t1.difficulty == t0.difficulty
                        &&& t1.deadline == t0.deadline
                        &&& t1.description == t0.description
                        &&& t1.assigned == t0.assigned
                        &&& t1.specified == t0.specified
                        &&& t1.visible == t0.visible
                        &&& t1.progress == t0.progress
                        &&& t1.bugs == t0.bugs
                        &&& t0.bugs_found <= t1.bugs_found <= t0.bugs_found + 1
                    },
                forall|k: int|
                    j <= k < n ==> #[trigger] self.tasks_review@[k] == old(
                        self,
                    ).tasks_review@[k],
                *self == (WorldState {
                    tasks_review: self.tasks_review,
                    humans: self.humans,
                    ..*old(self)
                }),
                self.tutorial == old(self).tutorial,
            decreases n - j,
        {
            let t_assigned: Option<u32> = {
                let t = &self.tasks_review[j];
                t.assigned
            };

            if let Some(human_id) = t_assigned {
                let h: usize = human_id as usize;
                if !worked[h] {
                    // review: try to detect bugs
                    {
                        let human = &mut self.humans[h];
                        human.status = HumanStatus::Reviewing;
                    }
                    let detected: bool = reactor.human_detected_bug(
                        &self.humans[h],
                        &self.tasks_review[j],
                        self.complexity,
                    );
                    if detected {
                        {
                            let t = &mut self.tasks_review[j];
                            t.bugs_found = t.bugs_found + 1;
                        }

                        // tutorial step: the first bug found in review
                        let at_step: bool = match self.tutorial {
                            Some(p) => p == 6,
                            None => false,
                        };
                        if at_step {
                            return Some(self.advance_tutorial());
                        }
                    }

                    // as this worker acted on the task,
                    // they cannot work on other things this tick
                    worked.set(h, true);
                }
            }
            j = j + 1;
        }
        None
    }

    /// Start-of-month logic: skipped entirely while the tutorial is
    /// active; otherwise a batch of important deadline tasks is
    /// ingested, and if the team has fallen behind the target size —
    /// roughly one more worker every six months — a new worker is
    /// hired and announced.
    fn start_of_month(&mut self, reactor: &mut EventReactor) -> (r: Option<EventOutcome>)
        requires
            old(self).inv(),
        ensures
            final(self).inv(),
            final(self).product_name == old(self).product_name,
            final(self).month == old(self).month,
            final(self).time == old(self).time,
            final(self).time_in_month == old(self).time_in_month,
            final(self).total_score == old(self).total_score,
            final(self).score_in_month == old(self).score_in_month,
            final(self).bugs == old(self).bugs,
            final(self).bugs_fixed_in_month == old(self).bugs_fixed_in_month,
            final(self).bugs_fixed_in_total == old(self).bugs_fixed_in_total,
            final(self).complexity == old(self).complexity,
            final(self).score_linger_rate == old(self).score_linger_rate,
            final(self).task_ingest_rate == old(self).task_ingest_rate,
            final(self).tutorial == old(self).tutorial,
            old(self).tutorial is Some ==> *final(self) == *old(self) && r is None,
            old(self).tutorial is None ==> {
                &&& final(self).tasks_backlog@.len() >= old(self).tasks_backlog@.len() + 3
                &&& forall|k: int|
                    0 <= k < old(self).tasks_backlog@.len()
                        ==> (#[trigger] final(self).tasks_backlog@[k]) == old(
                        self,
                    ).tasks_backlog@[k]
                &&& forall|k: int|
                    old(self).tasks_backlog@.len() <= k < final(self).tasks_backlog@.len() ==> {
                        let e = #[trigger] final(self).tasks_backlog@[k];
                        let base_score = if 4 + old(self).month / 5 <= 1_000_000 {
                            4 + old(self).month as int / 5
                        } else {
                            1_000_000int
                        };
                        let base_difficulty = if 4 + old(self).month / 4 <= 1_000_000 {
                            4 + old(self).month as int / 4
                        } else {
                            1_000_000int
                        };
                        &&& e.id == cap_u32(
                            old(self).next_task_id + (k - old(self).tasks_backlog@.len()),
                        )
                        &&& e.created == old(self).time
                        &&& e.kind is Normal
                        &&& e.description@ == Seq::<char>::empty()
                        &&& e.deadline == Some(
                            cap_u32(old(self).time + TASK_DEADLINE_TICKS) as u32,
                        )
                        &&& e.assigned is None
                        &&& e.progress == 0
                        &&& !e.specified
                        &&& base_score <= e.score <= base_score + 6
                        &&& base_difficulty <= e.difficulty < base_difficulty + 10
                    }
                &&& final(self).tasks_candidate@ == old(self).tasks_candidate@
                &&& final(self).tasks_progress@ == old(self).tasks_progress@
                &&& final(self).tasks_review@ == old(self).tasks_review@
                &&& final(self).tasks_done@ == old(self).tasks_done@
                &&& roster_kept(old(self).humans@, final(self).humans@)
                &&& forall|i: int|
                    0 <= i < old(self).humans@.len() ==> (#[trigger] final(self).humans@[i]) == old(
                        self,
                    ).humans@[i]
                &&& final(self).next_task_id >= old(self).next_task_id
                &&& ({
                    let expected = 1 + cap_u32(old(self).month + 3) / 6;
                    let active = count_active(old(self).humans@);
                    if expected > active && old(self).humans@.len() < u32::MAX {
                        &&& final(self).humans@.len() == old(self).humans@.len() + 1
                        &&& final(self).humans@.last().id == old(self).humans@.len()
                        &&& !final(self).humans@.last().quit
                        &&& final(self).humans@.last().status is Idle
                        &&& 35 <= final(self).humans@.last().experience <= 80
                        &&& ({
                            let hired_name = final(self).humans@.last().name@;
                            r matches Some(o) && o matches EventOutcome::OpenMessage(m)
                                && m matches Message::Simple { title, message } && title@
                                == "A message from the board of directors"@ && message@
                                == hired_name
                                + " has been hired, and is now part of your development team!"@
                        })
                    } else {
                        &&& final(self).humans@ == old(self).humans@
                        &&& r == Some(EventOutcome::Update)
                    }
                })
                &&& *final(self) == (WorldState {
                    tasks_backlog: final(self).tasks_backlog,
                    next_task_id: final(self).next_task_id,
                    humans: final(self).humans,
                    ..*old(self)
                })
            },
    {
        let in_tutorial: bool = match self.tutorial {
            Some(_) => true,
            None => false,
        };
        if in_tutorial {
            // do nothing while the tutorial is active
            return None;
        }

        // check whether it is time to introduce another worker
        let n: usize = self.humans.len();
        let mut active: usize = 0;
        let mut i: usize = 0;
        while i < n
            invariant
                i <= n,
                n == self.humans@.len(),
                active <= i,
                active == count_active(self.humans@.take(i as int)),
                *self == *old(self),
            decreases n - i,
        {
            proof {
                assert(self.humans@.take(i as int + 1).drop_last() =~= self.humans@.take(i as int));
            }
            if !self.humans[i].quit {
                active = active + 1;
            }
            i = i + 1;
        }
        proof {
            assert(self.humans@.take(n as int) =~= self.humans@);
        }

        // ingest a batch of important tasks at once
        let batch = reactor.ingest_important_tasks(self.month, self.task_ingest_rate);
        let ghost batch_snap = batch@;
        let ghost pre_len = self.tasks_backlog@.len() as int;
        self.add_tasks(batch);
        proof {
            assert forall|k: int| pre_len <= k < self.tasks_backlog@.len() implies {
                #[trigger] self.tasks_backlog@[k] == built_with(
                    batch_snap[k - pre_len],
                    cap_u32(old(self).next_task_id + (k - pre_len)) as u32,
                    old(self).time,
                )
            } by {
                assert(self.tasks_backlog@[pre_len + (k - pre_len)] == built_with(
                    batch_snap[k - pre_len],
                    cap_u32(old(self).next_task_id + (k - pre_len)) as u32,
                    old(self).time,
                ));
            }
        }

        let expected_humans: u32 = 1 + self.month.saturating_add(3) / 6;

        if (expected_humans as usize) > active && self.humans.len() < u32::MAX as usize {
            // introduce a new worker
            let id: u32 = self.next_human_id();
            let new_human = reactor.new_human(id, self.month);

            let message = Message::new_human(&new_human);

            self.humans.push(new_human);

            return Some(EventOutcome::OpenMessage(message));
        }

        Some(EventOutcome::Update)
    }

    /// One tick of the simulation.
    ///
    /// In order: time advances, expired deadlines cost their scaled
    /// rewards, workers act (development, then the player's
    /// specification writing, then review — each worker at most once,
    /// the first eligible task in stored order winning contention),
    /// an idle player may devise a new task, the remaining workers go
    /// idle, and the month boundaries and coarse periodic events are
    /// checked.  At the month's final tick the report is produced and
    /// end-of-month is signalled; the rollover itself waits for an
    /// explicit next-month request.
    #[verifier::rlimit(100)]
    pub fn tick(&mut self, reactor: &mut EventReactor) -> (r: EventOutcome)
        requires
            old(self).inv(),
        ensures
            final(self).inv(),
            tick_post(*old(self), *final(self), r),
    {
        // move time forward
        self.time = self.time.saturating_add(1);
        self.time_in_month = self.time_in_month.saturating_add(1);

        // sweep expired deadlines, let the workers act, and put
        // everyone who did not act to rest
        if let Some(outcome) = self.sweep_and_work(reactor) {
            return outcome;
        }

        self.close_tick(reactor)
    }

    /// The closing half of a tick: the start-of-month logic early in
    /// the month, the end-of-month signal at the month length, the
    /// forced closing of a lingering tutorial near the month's end,
    /// and the coarse periodic events.
    #[verifier::rlimit(100)]
    fn close_tick(&mut self, reactor: &mut EventReactor) -> (r: EventOutcome)
        requires
            old(self).inv(),
        ensures
            final(self).inv(),
            final(self).time == old(self).time,
            final(self).time_in_month == old(self).time_in_month,
            final(self).month == old(self).month,
            final(self).product_name == old(self).product_name,
            final(self).bugs == old(self).bugs,
            final(self).bugs_fixed_in_month == old(self).bugs_fixed_in_month,
            final(self).bugs_fixed_in_total == old(self).bugs_fixed_in_total,
            final(self).next_task_id >= old(self).next_task_id,
            final(self).tasks_done@ == old(self).tasks_done@,
            final(self).tasks_candidate@ == old(self).tasks_candidate@,
            final(self).tasks_progress@ == old(self).tasks_progress@,
            final(self).tasks_review@ == old(self).tasks_review@,
            // backlog: append-only
            final(self).tasks_backlog@.len() >= old(self).tasks_backlog@.len(),
            forall|k: int|
                0 <= k < old(self).tasks_backlog@.len()
                    ==> (#[trigger] final(self).tasks_backlog@[k]) == old(self).tasks_backlog@[k],
            forall|k: int|
                old(self).tasks_backlog@.len() <= k < final(self).tasks_backlog@.len() ==> {
                    let e = #[trigger] final(self).tasks_backlog@[k];
                    &&& e.created == old(self).time
                    &&& e.progress == 0
                    &&& !e.specified
                    &&& e.assigned is None
                },
            (old(self).tutorial is None && old(self).time_in_month != 5 && old(self).time
                % TICKS_PER_MAJOR_TICK != 0) ==> final(self).tasks_backlog@.len() == old(
                self,
            ).tasks_backlog@.len(),
            old(self).tutorial is None && old(self).time_in_month == 5
                ==> final(self).tasks_backlog@.len() >= old(self).tasks_backlog@.len() + 3,
            // the scores only erode here, by a bounded amount
            final(self).total_score <= old(self).total_score,
            final(self).total_score >= old(self).total_score - 2_000 - old(self).total_score / 5,
            final(self).score_in_month <= old(self).score_in_month,
            final(self).score_in_month >= old(self).score_in_month - 2_000
                - old(self).total_score / 5,
            // at most one hire, and existing workers are untouched
            old(self).humans@.len() <= final(self).humans@.len() <= old(self).humans@.len() + 1,
            forall|i: int|
                0 <= i < old(self).humans@.len() ==> (#[trigger] final(self).humans@[i]) == old(
                    self,
                ).humans@[i],
            // the month boundary
            r matches EventOutcome::EndOfMonth(rep) ==> rep == final(self).spec_month_report()
                && final(self).time_in_month >= TICKS_PER_MONTH,
            final(self).time_in_month >= TICKS_PER_MONTH ==> (r matches EventOutcome::EndOfMonth(
                rep,
            ) && rep == final(self).spec_month_report()) || r is OpenMessage,
            old(self).tutorial is None && old(self).time_in_month >= TICKS_PER_MONTH
                ==> (r matches EventOutcome::EndOfMonth(rep) && rep
                == final(self).spec_month_report()),
    {
        // check for the start of the month
        if self.time_in_month == 5 {
            if let Some(outcome) = self.start_of_month(reactor) {
                return outcome;
            }
        }

        // check for the end of the month
        if self.time_in_month >= TICKS_PER_MONTH {
            // trigger the end of month; the rollover itself waits for
            // an explicit next-month request
            let report = self.month_report();
            return EventOutcome::EndOfMonth(report);
        }

        // force a lingering tutorial to its closing phase
        // when the month draws to an end
        let tutorial_lingers: bool = match self.tutorial {
            Some(p) => p < 13,
            None => false,
        };
        if self.time_in_month >= TICKS_PER_MONTH - TICKS_PER_MONTH / 16 && tutorial_lingers {
            self.tutorial = Some(12);
            return self.advance_tutorial();
        }

        if let Some(outcome) = self.periodic_events(reactor) {
            return outcome;
        }

        EventOutcome::Update
    }

    /// The working half of a tick: sweep expired deadlines, then
    /// allocate the workers.  The contract combines the exact deadline
    /// sweep with the per-collection work relations.
    #[verifier::rlimit(100)]
    fn sweep_and_work(&mut self, reactor: &mut EventReactor) -> (r: Option<EventOutcome>)
        requires
            old(self).inv(),
        ensures
            final(self).inv(),
            final(self).time == old(self).time,
            final(self).time_in_month == old(self).time_in_month,
            final(self).month == old(self).month,
            final(self).product_name == old(self).product_name,
            final(self).bugs == old(self).bugs,
            final(self).complexity == old(self).complexity,
            final(self).score_linger_rate == old(self).score_linger_rate,
            final(self).task_ingest_rate == old(self).task_ingest_rate,
            final(self).bugs_fixed_in_month >= old(self).bugs_fixed_in_month,
            final(self).bugs_fixed_in_total >= old(self).bugs_fixed_in_total,
            final(self).next_task_id >= old(self).next_task_id,
            final(self).tasks_done@ == old(self).tasks_done@,
            // the deadline sweep is exact on the scores
            (final(self).total_score as int, final(self).score_in_month as int)
                == penalties_after(
                penalties_after(
                    penalties_after(
                        penalties_after(
                            (old(self).total_score as int, old(self).score_in_month as int),
                            old(self).tasks_backlog@,
                            old(self).time,
                        ),
                        old(self).tasks_candidate@,
                        old(self).time,
                    ),
                    old(self).tasks_progress@,
                    old(self).time,
                ),
                old(self).tasks_review@,
                old(self).time,
            ),
            // backlog: swept in place, then append-only
            final(self).tasks_backlog@.len() >= old(self).tasks_backlog@.len(),
            final(self).tasks_backlog@.len() <= old(self).tasks_backlog@.len() + 1,
            forall|k: int|
                0 <= k < old(self).tasks_backlog@.len()
                    ==> (#[trigger] final(self).tasks_backlog@[k]) == swept_task(
                    old(self).tasks_backlog@[k],
                    old(self).time,
                ),
            forall|k: int|
                old(self).tasks_backlog@.len() <= k < final(self).tasks_backlog@.len() ==> {
                    let e = #[trigger] final(self).tasks_backlog@[k];
                    &&& e.created == old(self).time
                    &&& e.progress == 0
                    &&& !e.specified
                    &&& e.assigned is None
                },
            old(self).tasks_backlog@.len() >= 30 ==> final(self).tasks_backlog@.len() == old(
                self,
            ).tasks_backlog@.len(),
            final(self).tasks_candidate@.len() == old(self).tasks_candidate@.len(),
            forall|k: int|
                0 <= k < old(self).tasks_candidate@.len() ==> {
                    let t0 = old(self).tasks_candidate@[k];
                    let t1 = #[trigger] final(self).tasks_candidate@[k];
                    &&& t1.deadline == swept_deadline(t0, old(self).time)
                    &&& t1.id == t0.id
                    &&& t1.kind == t0.kind
                    &&& t1.stage == t0.stage
                    &&& t1.score == t0.score
                    &&& t1.difficulty == t0.difficulty
                    &&& t1.description == t0.description
                    &&& t1.assigned == t0.assigned
                    &&& t1.bugs == t0.bugs
                    &&& t1.bugs_found == t0.bugs_found
                    &&& t1.visible == t0.visible
                    &&& t1.progress >= t0.progress
                    &&& (t0.specified ==> t1.specified)
                },
            final(self).tasks_progress@.len() == old(self).tasks_progress@.len(),
            forall|k: int|
                0 <= k < old(self).tasks_progress@.len() ==> dev_worked_task(
                    swept_task(old(self).tasks_progress@[k], old(self).time),
                    #[trigger] final(self).tasks_progress@[k],
                ),
            final(self).tasks_review@.len() == old(self).tasks_review@.len(),
            forall|k: int|
                0 <= k < old(self).tasks_review@.len() ==> {
                    let t0 = old(self).tasks_review@[k];
                    let t1 = #[trigger] final(self).tasks_review@[k];
                    &&& t1.deadline == swept_deadline(t0, old(self).time)
                    &&& t1.id == t0.id
                    &&& t1.kind == t0.kind
                    &&& t1.stage == t0.stage
                    &&& t1.score == t0.score
                    &&& t1.difficulty == t0.difficulty
                    &&& t1.description == t0.description
                    &&& t1.assigned == t0.assigned
                    &&& t1.specified == t0.specified
                    &&& t1.visible == t0.visible
                    &&& t1.progress == t0.progress
                    &&& t1.bugs == t0.bugs
                    &&& t0.bugs_found <= t1.bugs_found <= t0.bugs_found + 1
                },
            old(self).humans@.len() <= final(self).humans@.len() <= old(self).humans@.len() + 1,
            forall|i: int|
                0 <= i < old(self).humans@.len() ==> {
                    &&& (#[trigger] final(self).humans@[i]).id == old(self).humans@[i].id
                    &&& final(self).humans@[i].name == old(self).humans@[i].name
                    &&& final(self).humans@[i].color == old(self).humans@[i].color
                    &&& final(self).humans@[i].quit == old(self).humans@[i].quit
                    &&& final(self).humans@[i].experience >= old(self).humans@[i].experience
                },
            old(self).tutorial is None ==> r is None && final(self).tutorial is None,
            match r {
                None => final(self).tutorial == old(self).tutorial && final(self).humans@.len()
                    == old(self).humans@.len(),
                Some(o) => o is OpenMessage,
            },
    {
        self.sweep_deadlines();
        self.allocate_work(reactor)
    }

    /// Work allocation for one tick: each worker may act on at most
    /// one task, the first eligible task in stored order winning
    /// contention — development first, then the player's specification
    /// writing, then review.  An idle player may devise one new task,
    /// and every worker who did not act goes idle.
    #[verifier::rlimit(100)]
    fn allocate_work(&mut self, reactor: &mut EventReactor) -> (r: Option<EventOutcome>)
        requires
            old(self).inv(),
        ensures
            final(self).inv(),
            final(self).time == old(self).time,
            final(self).time_in_month == old(self).time_in_month,
            final(self).month == old(self).month,
            final(self).product_name == old(self).product_name,
            final(self).total_score == old(self).total_score,
            final(self).score_in_month == old(self).score_in_month,
            final(self).bugs == old(self).bugs,
            final(self).complexity == old(self).complexity,
            final(self).score_linger_rate == old(self).score_linger_rate,
            final(self).task_ingest_rate == old(self).task_ingest_rate,
            final(self).bugs_fixed_in_month >= old(self).bugs_fixed_in_month,
            final(self).bugs_fixed_in_total >= old(self).bugs_fixed_in_total,
            final(self).next_task_id >= old(self).next_task_id,
            final(self).tasks_done@ == old(self).tasks_done@,
            // the backlog is append-only: at most one devised task,
            // and none over the backlog ceiling
            final(self).tasks_backlog@.len() >= old(self).tasks_backlog@.len(),
            final(self).tasks_backlog@.len() <= old(self).tasks_backlog@.len() + 1,
            forall|k: int|
                0 <= k < old(self).tasks_backlog@.len()
                    ==> (#[trigger] final(self).tasks_backlog@[k]) == old(self).tasks_backlog@[k],
            forall|k: int|
                old(self).tasks_backlog@.len() <= k < final(self).tasks_backlog@.len() ==> {
                    let e = #[trigger] final(self).tasks_backlog@[k];
                    &&& e.created == old(self).time
                    &&& e.progress == 0
                    &&& !e.specified
                    &&& e.assigned is None
                },
            old(self).tasks_backlog@.len() >= 30 ==> final(self).tasks_backlog@.len() == old(
                self,
            ).tasks_backlog@.len(),
            // candidates: the first unspecified one may gain writing
            // progress, nothing else moves
            final(self).tasks_candidate@.len() == old(self).tasks_candidate@.len(),
            forall|k: int|
                0 <= k < old(self).tasks_candidate@.len() ==> {
                    let t0 = old(self).tasks_candidate@[k];
                    let t1 = #[trigger] final(self).tasks_candidate@[k];
                    &&& t1.deadline == t0.deadline
                    &&& t1.id == t0.id
                    &&& t1.kind == t0.kind
                    &&& t1.stage == t0.stage
                    &&& t1.score == t0.score
                    &&& t1.difficulty == t0.difficulty
                    &&& t1.description == t0.description
                    &&& t1.assigned == t0.assigned
                    &&& t1.bugs == t0.bugs
                    &&& t1.bugs_found == t0.bugs_found
                    &&& t1.visible == t0.visible
                    &&& t1.progress >= t0.progress
                    &&& (t0.specified ==> t1.specified)
                },
            // tasks in progress: one development stint each at most
            final(self).tasks_progress@.len() == old(self).tasks_progress@.len(),
            forall|k: int|
                0 <= k < old(self).tasks_progress@.len() ==> dev_worked_task(
                    old(self).tasks_progress@[k],
                    #[trigger] final(self).tasks_progress@[k],
                ),
            // tasks under review: at most one new bug found each
            final(self).tasks_review@.len() == old(self).tasks_review@.len(),
            forall|k: int|
                0 <= k < old(self).tasks_review@.len() ==> {
                    let t0 = old(self).tasks_review@[k];
                    let t1 = #[trigger] final(self).tasks_review@[k];
                    &&& t1.deadline == t0.deadline
                    &&& t1.id == t0.id
                    &&& t1.kind == t0.kind
                    &&& t1.stage == t0.stage
                    &&& t1.score == t0.score
                    &&& t1.difficulty == t0.difficulty
                    &&& t1.description == t0.description
                    &&& t1.assigned == t0.assigned
                    &&& t1.specified == t0.specified
                    &&& t1.visible == t0.visible
                    &&& t1.progress == t0.progress
                    &&& t1.bugs == t0.bugs
                    &&& t0.bugs_found <= t1.bugs_found <= t0.bugs_found + 1
                },
            // the roster can gain at most the scripted tutorial worker,
            // and what a worker is never changes
            old(self).humans@.len() <= final(self).humans@.len() <= old(self).humans@.len() + 1,
            forall|i: int|
                0 <= i < old(self).humans@.len() ==> {
                    &&& (#[trigger] final(self).humans@[i]).id == old(self).humans@[i].id
                    &&& final(self).humans@[i].name == old(self).humans@[i].name
                    &&& final(self).humans@[i].color == old(self).humans@[i].color
                    &&& final(self).humans@[i].quit == old(self).humans@[i].quit
                    &&& final(self).humans@[i].experience >= old(self).humans@[i].experience
                },
            // outside the tutorial the whole allocation is silent
            old(self).tutorial is None ==> r is None && final(self).tutorial is None,
            match r {
                None => final(self).tutorial == old(self).tutorial && final(self).humans@.len()
                    == old(self).humans@.len(),
                Some(o) => o is OpenMessage,
            },
    {
        // each worker may act on at most one task this tick
        let mut worked: Vec<bool> = vec![false; self.humans.len()];

        // apply worker development, specification writing and review
        if let Some(outcome) = self.work_progress(reactor, &mut worked) {
            return Some(outcome);
        }
        if let Some(outcome) = self.work_specification(&mut worked) {
            return Some(outcome);
        }
        if let Some(outcome) = self.review_tasks(reactor, &mut worked) {
            return Some(outcome);
        }

        // an idle player thinks about new tasks to do
        let late_tutorial: bool = match self.tutorial {
            Some(p) => p < 12,
            None => false,
        };
        if !worked[0] && !late_tutorial {
            // roll for ingestion of a new task,
            // based on the ingestion rate and the player's experience
            let you_experience: u32 = self.humans[0].experience;
            let backlog_size: usize = self.tasks_backlog.len();
            if let Some(new_task) = reactor.ingest_task(
                you_experience,
                self.bugs,
                self.complexity,
                self.task_ingest_rate,
                backlog_size,
            ) {
                self.add_task(new_task);
            }
        }

        // workers who did not act this tick go idle
        idle_unworked(&mut self.humans, &worked);

        None
    }

    /// Sweep the four non-done collections for expired deadlines at
    /// the current time: each expired task loses its deadline and its
    /// scaled reward is deducted from both score totals.
    fn sweep_deadlines(&mut self)
        ensures
            final(self).tasks_backlog@ == old(self).tasks_backlog@.map_values(
                |t: GameTask| swept_task(t, old(self).time),
            ),
            final(self).tasks_candidate@ == old(self).tasks_candidate@.map_values(
                |t: GameTask| swept_task(t, old(self).time),
            ),
            final(self).tasks_progress@ == old(self).tasks_progress@.map_values(
                |t: GameTask| swept_task(t, old(self).time),
            ),
            final(self).tasks_review@ == old(self).tasks_review@.map_values(
                |t: GameTask| swept_task(t, old(self).time),
            ),
            (final(self).total_score as int, final(self).score_in_month as int) == penalties_after(
                penalties_after(
                    penalties_after(
                        penalties_after(
                            (old(self).total_score as int, old(self).score_in_month as int),
                            old(self).tasks_backlog@,
                            old(self).time,
                        ),
                        old(self).tasks_candidate@,
                        old(self).time,
                    ),
                    old(self).tasks_progress@,
                    old(self).time,
                ),
                old(self).tasks_review@,
                old(self).time,
            ),
            old(self).inv() ==> final(self).inv(),
            *final(self) == (WorldState {
                tasks_backlog: final(self).tasks_backlog,
                tasks_candidate: final(self).tasks_candidate,
                tasks_progress: final(self).tasks_progress,
                tasks_review: final(self).tasks_review,
                total_score: final(self).total_score,
                score_in_month: final(self).score_in_month,
                ..*old(self)
            }),
    {
        let now: u32 = self.time;
        apply_deadline_penalties_list(
            &mut self.tasks_backlog,
            now,
            &mut self.total_score,
            &mut self.score_in_month,
        );
        apply_deadline_penalties_list(
            &mut self.tasks_candidate,
            now,
            &mut self.total_score,
            &mut self.score_in_month,
        );
        apply_deadline_penalties_list(
            &mut self.tasks_progress,
            now,
            &mut self.total_score,
            &mut self.score_in_month,
        );
        apply_deadline_penalties_list(
            &mut self.tasks_review,
            now,
            &mut self.total_score,
            &mut self.score_in_month,
        );
    }

    /// The coarse periodic events of a tick: on its own interval the
    /// score erodes by a bounded roll around the linger rate, and on
    /// the major-event interval a random event may open a message and
    /// add tasks or complexity.  Both stand down during the tutorial.
    #[verifier::rlimit(100)]
    fn periodic_events(&mut self, reactor: &mut EventReactor) -> (r: Option<EventOutcome>)
        requires
            old(self).inv(),
        ensures
            final(self).inv(),
            final(self).time == old(self).time,
            final(self).time_in_month == old(self).time_in_month,
            final(self).month == old(self).month,
            final(self).product_name == old(self).product_name,
            final(self).bugs == old(self).bugs,
            final(self).task_ingest_rate == old(self).task_ingest_rate,
            final(self).tutorial == old(self).tutorial,
            final(self).humans@ == old(self).humans@,
            final(self).tasks_candidate@ == old(self).tasks_candidate@,
            final(self).tasks_progress@ == old(self).tasks_progress@,
            final(self).tasks_review@ == old(self).tasks_review@,
            final(self).tasks_done@ == old(self).tasks_done@,
            final(self).bugs_fixed_in_month == old(self).bugs_fixed_in_month,
            final(self).bugs_fixed_in_total == old(self).bugs_fixed_in_total,
            final(self).next_task_id >= old(self).next_task_id,
            // the scores only erode here, by a bounded amount
            final(self).total_score <= old(self).total_score,
            final(self).total_score >= old(self).total_score - 2_000 - old(self).total_score / 5,
            final(self).score_in_month <= old(self).score_in_month,
            final(self).score_in_month >= old(self).score_in_month - 2_000
                - old(self).total_score / 5,
            // the backlog is append-only, and grows only on a major tick
            final(self).tasks_backlog@.len() >= old(self).tasks_backlog@.len(),
            forall|k: int|
                0 <= k < old(self).tasks_backlog@.len()
                    ==> (#[trigger] final(self).tasks_backlog@[k]) == old(self).tasks_backlog@[k],
            forall|k: int|
                old(self).tasks_backlog@.len() <= k < final(self).tasks_backlog@.len() ==> {
                    let e = #[trigger] final(self).tasks_backlog@[k];
                    &&& e.created == old(self).time
                    &&& e.progress == 0
                    &&& !e.specified
                    &&& e.assigned is None
                },
            (old(self).time % TICKS_PER_MAJOR_TICK != 0 || old(self).tutorial is Some)
                ==> final(self).tasks_backlog@.len() == old(self).tasks_backlog@.len(),
            match r {
                None => true,
                Some(o) => o is OpenMessage,
            },
    {
        let in_tutorial: bool = match self.tutorial {
            Some(_) => true,
            None => false,
        };

        // on its own coarse interval, independently of major events,
        // lingering bugs and complexity erode the score
        if self.time_in_month % TICKS_PER_SCORE_DAMAGE == 0 && !in_tutorial {
            // roll for score damage
            let damage: u32 = reactor.score_damage(self.total_score, self.score_linger_rate);

            self.score_in_month = i32_add_i64_clamped(self.score_in_month, -(damage as i64));
            self.total_score = self.total_score - damage;
        }

        if self.time % TICKS_PER_MAJOR_TICK == 0 && !in_tutorial {
            // roll for random events
            match reactor.major_event(self.bugs) {
                Some(GameEvent::RandomReport(report_id)) => {
                    // just a flavor message
                    return Some(EventOutcome::OpenMessage(Message::random_report(report_id)));
                },
                Some(GameEvent::BugReported(task)) => {
                    // add the bug task and deduct score
                    self.add_task(task);
                    self.score_in_month = i32_add_i64_clamped(self.score_in_month, -2_000);
                    self.total_score = self.total_score.saturating_sub(2_000);

                    return Some(EventOutcome::OpenMessage(Message::bug_reported()));
                },
                Some(GameEvent::ExtraTechnicalDebt { message: _, extra_complexity }) => {
                    self.complexity = self.complexity.saturating_add(extra_complexity);
                    self.update_score_linger_rate();
                    return Some(EventOutcome::OpenMessage(Message::extra_technical_debt()));
                },
                Some(GameEvent::MajorFeatureRequested { message: _, tasks }) => {
                    let ghost batch_snap = tasks@;
                    let ghost pre_len = self.tasks_backlog@.len() as int;
                    let ghost pre_next = self.next_task_id;
                    self.add_tasks(tasks);
                    proof {
                        assert forall|k: int|
                            pre_len <= k < self.tasks_backlog@.len() implies {
                            #[trigger] self.tasks_backlog@[k] == built_with(
                                batch_snap[k - pre_len],
                                cap_u32(pre_next + (k - pre_len)) as u32,
                                old(self).time,
                            )
                        } by {
                            assert(self.tasks_backlog@[pre_len + (k - pre_len)] == built_with(
                                batch_snap[k - pre_len],
                                cap_u32(pre_next + (k - pre_len)) as u32,
                                old(self).time,
                            ));
                        }
                    }
                    return Some(EventOutcome::OpenMessage(Message::feature_requested()));
                },
                None => {
                    // do nothing
                },
            }

        }

        None
    }

    /// Apply the given request to the world state.
    ///
    /// This is the single mutating entry point of the engine: every
    /// discrete user request and every time tick passes through it,
    /// and the returned outcome tells the caller what happened.
    pub fn apply_event(&mut self, event: EventBusRequest, reactor: &mut EventReactor) -> (r:
        EventOutcome)
        requires
            old(self).inv(),
        ensures
            final(self).inv(),
            event matches EventBusRequest::MoveTask { task, to } ==> move_task_post(
                *old(self),
                *final(self),
                task,
                to,
                r,
            ),
            event matches EventBusRequest::AssignTask { task, human_id } ==> assign_task_post(
                *old(self),
                *final(self),
                task,
                human_id,
                r,
            ),
            event is Tick ==> tick_post(*old(self), *final(self), r),
            event is AdvanceTutorial ==> advance_tutorial_post(*old(self), *final(self), r),
            event matches EventBusRequest::DragTaskStart(_) ==> *final(self) == *old(self)
                && r is Nothing,
            event matches EventBusRequest::DragTaskEnd(_) ==> *final(self) == *old(self)
                && r is Nothing,
            event matches EventBusRequest::AddTask(task) ==> {
                &&& final(self).tasks_backlog@ == old(self).tasks_backlog@.push(
                    old(self).spec_built_task(task),
                )
                &&& final(self).next_task_id == cap_u32(old(self).next_task_id + 1)
                &&& *final(self) == (WorldState {
                    tasks_backlog: final(self).tasks_backlog,
                    next_task_id: final(self).next_task_id,
                    ..*old(self)
                })
                &&& r is Update
            },
            event is NextMonth ==> next_month_post(*old(self), *final(self), r),
    {
        match event {
            EventBusRequest::MoveTask { task, to } => self.handle_move_task(task, to),
            EventBusRequest::AssignTask { task, human_id } => self.assign_task(task, human_id),
            EventBusRequest::Tick => self.tick(reactor),
            EventBusRequest::AdvanceTutorial => self.advance_tutorial(),
            EventBusRequest::AddTask(task) => {
                self.add_task(task);
                EventOutcome::Update
            },
            EventBusRequest::NextMonth => self.next_month(),
            EventBusRequest::DragTaskStart(_) => EventOutcome::Nothing,
            EventBusRequest::DragTaskEnd(_) => EventOutcome::Nothing,
        }
    }

    /// Check the aggregate invariant of a state built outside the
    /// engine, such as one restored from a persisted blob.  Only a
    /// state that passes may be handed to the request entry point.
    pub fn is_well_formed(&self) -> (r: bool)
        ensures
            r == self.inv(),
    {
        if self.humans.len() < 1 {
            return false;
        }
        if self.humans.len() > u32::MAX as usize {
            return false;
        }
        let n: usize = self.humans.len();
        let mut i: usize = 0;
        while i < n
            invariant
                i <= n,
                n == self.humans@.len(),
                forall|k: int|
                    0 <= k < i ==> {
                        &&& (#[trigger] self.humans@[k]).id == k
                        &&& self.humans@[k].experience <= EXPERIENCE_CAP
                    },
            decreases n - i,
        {
            let h = &self.humans[i];
            if !((h.id as usize) == i && h.experience <= EXPERIENCE_CAP) {
                return false;
            }
            i = i + 1;
        }

        let roster_len: usize = self.humans.len();
        stage_collection_ok(&self.tasks_backlog, StageId::Backlog, roster_len)
            && stage_collection_ok(&self.tasks_candidate, StageId::Candidate, roster_len)
            && stage_collection_ok(&self.tasks_progress, StageId::Progress, roster_len)
            && stage_collection_ok(&self.tasks_review, StageId::Review, roster_len)
            && stage_collection_ok(&self.tasks_done, StageId::Done, roster_len)
    }

    /// A small mid-game fixture, for trying the engine out.
    pub fn dummy() -> (s: Self)
        ensures
            s.inv(),
    {
        let mut state = dummy_state();
        state.update_score_linger_rate();
        state
    }
}

/// Check one stage collection: every task sits in the given stage, is
/// well-formed, and is assigned only within the roster.
fn stage_collection_ok(tasks: &Vec<GameTask>, stage: StageId, roster_len: usize) -> (r: bool)
    ensures
        r == forall|i: int|
            0 <= i < tasks@.len() ==> {
                &&& (#[trigger] tasks@[i]).stage == stage
                &&& tasks@[i].inv()
                &&& tasks@[i].assigned matches Some(h) ==> (h as int) < roster_len
            },
{
    let n: usize = tasks.len();
    let mut i: usize = 0;
    while i < n
        invariant
            i <= n,
            n == tasks@.len(),
            forall|k: int|
                0 <= k < i ==> {
                    &&& (#[trigger] tasks@[k]).stage == stage
                    &&& tasks@[k].inv()
                    &&& tasks@[k].assigned matches Some(h) ==> (h as int) < roster_len
                },
        decreases n - i,
    {
        let t = &tasks[i];
        let ok_stage: bool = t.stage == stage;
        let ok_task: bool = t.progress <= PROGRESS_DONE && t.bugs_found <= t.bugs;
        let ok_assigned: bool = match t.assigned {
            Some(h) => (h as usize) < roster_len,
            None => true,
        };
        if !(ok_stage && ok_task && ok_assigned) {
            return false;
        }
        i = i + 1;
    }
    true
}

/// Any worker who did not act this tick goes idle.
fn idle_unworked(humans: &mut Vec<GameHuman>, worked: &Vec<bool>)
    requires
        old(humans)@.len() == worked@.len(),
    ensures
        final(humans)@.len() == old(humans)@.len(),
        forall|i: int|
            0 <= i < old(humans)@.len() ==> #[trigger] final(humans)@[i] == if worked@[i] {
                old(humans)@[i]
            } else {
                GameHuman { status: HumanStatus::Idle, ..old(humans)@[i] }
            },
{
    let n: usize = humans.len();
    let mut i: usize = 0;
    while i < n
        invariant
            i <= n,
            n == humans@.len(),
            humans@.len() == old(humans)@.len(),
            n == worked@.len(),
            forall|k: int|
                0 <= k < i ==> #[trigger] humans@[k] == if worked@[k] {
                    old(humans)@[k]
                } else {
                    GameHuman { status: HumanStatus::Idle, ..old(humans)@[k] }
                },
            forall|k: int| i <= k < n ==> humans@[k] == old(humans)@[k],
        decreases n - i,
    {
        if !worked[i] {
            let human = &mut humans[i];
            human.status = HumanStatus::Idle;
        }
        i = i + 1;
    }
}

/// Hide every task of the collection.
fn hide_all(tasks: &mut Vec<GameTask>)
    ensures
        final(tasks)@ == old(tasks)@.map_values(|t: GameTask| GameTask { visible: false, ..t }),
{
    let n: usize = tasks.len();
    let mut i: usize = 0;
    while i < n
        invariant
            i <= n,
            n == tasks@.len(),
            tasks@.len() == old(tasks)@.len(),
            forall|k: int|
                0 <= k < i ==> tasks@[k] == (GameTask {
                    visible: false,
                    ..(#[trigger] old(tasks)@[k])
                }),
            forall|k: int| i <= k < n ==> tasks@[k] == old(tasks)@[k],
        decreases n - i,
    {
        let t = &mut tasks[i];
        t.visible = false;
        i = i + 1;
    }
    proof {
        assert(tasks@ =~= old(tasks)@.map_values(|t: GameTask| GameTask { visible: false, ..t }));
    }
}

/// A mid-game state with a few tasks on the board and two workers.
fn dummy_state() -> (s: WorldState)
    ensures
        s.inv(),
{
    let progress_task = GameTask {
        id: 4,
        created: 5_200,
        deadline: None,
        description: String::from_str("Test a task in progress"),
        kind: TaskKind::Normal,
        stage: StageId::Progress,
        assigned: None,
        developed_by: None,
        score: 7,
        difficulty: 10,
        progress: 250,
        specified: true,
        bugs: 1,
        bugs_found: 0,
        visible: true,
    };
    WorldState {
        product_name: String::from_str("Test Product"),
        month: 6,
        time: 6 * TICKS_PER_MONTH + 200,
        time_in_month: 200,
        next_task_id: 5,
        bugs: 4,
        bugs_fixed_in_month: 0,
        bugs_fixed_in_total: 10,
        total_score: 420_500,
        score_in_month: 20_500,
        complexity: 30,
        task_ingest_rate: 20,
        // not relevant, will be recalculated
        score_linger_rate: 0,
        tasks_backlog: vec![
            GameTask::new(
                1,
                6_000,
                String::from_str("Test tasks in general"),
                TaskKind::Normal,
                6,
                20,
            ),
            GameTask::new(
                2,
                6_000,
                String::from_str("Test bugs in general"),
                TaskKind::Bug,
                2,
                12,
            ),
            GameTask::new(
                3,
                6_000,
                String::from_str("Test chores in general"),
                TaskKind::Chore,
                0,
                10,
            ),
        ],
        tasks_candidate: Vec::new(),
        tasks_progress: vec![progress_task],
        tasks_review: Vec::new(),
        tasks_done: Vec::new(),
        humans: vec![
            GameHuman::new(0, String::from_str("You"), String::from_str("#fff"), 100),
            GameHuman::new(1, String::from_str("Guy"), String::from_str("#333"), 100),
        ],
        tutorial: None,
    }
}

/// How one development stint may change a task in progress: nothing
/// but progress, bugs and the completion effects move.  Progress only
/// grows; an unfinished stint can introduce at most one bug; and the
/// stint that completes development records the assigned worker as
/// developer and folds the found bugs away, leaving at most one newly
/// introduced bug behind.
pub open spec fn dev_worked_task(t0: GameTask, t1: GameTask) -> bool {
    let completed = t0.progress < PROGRESS_DONE && t1.progress >= PROGRESS_DONE;
    &&& t1.id == t0.id
    &&& t1.kind == t0.kind
    &&& t1.stage == t0.stage
    &&& t1.score == t0.score
    &&& t1.difficulty == t0.difficulty
    &&& t1.deadline == t0.deadline
    &&& t1.description == t0.description
    &&& t1.assigned == t0.assigned
    &&& t1.specified == t0.specified
    &&& t1.visible == t0.visible
    &&& t1.progress >= t0.progress
    &&& (completed ==> {
        &&& t1.developed_by == t0.assigned
        &&& t1.bugs_found == 0
        &&& t0.bugs - t0.bugs_found <= t1.bugs <= t0.bugs - t0.bugs_found + 1
    })
    &&& (!completed ==> {
        &&& t1.developed_by == t0.developed_by
        &&& t1.bugs_found == t0.bugs_found
        &&& t0.bugs <= t1.bugs <= t0.bugs + 1
    })
}

/// The roster can only be appended to, and what a worker is — ID,
/// name, color, and whether they quit — stays; only status and
/// experience move with the work.
pub open spec fn roster_kept(pre: Seq<GameHuman>, post: Seq<GameHuman>) -> bool {
    &&& post.len() >= pre.len()
    &&& forall|i: int|
        0 <= i < pre.len() ==> {
            &&& (#[trigger] post[i]).id == pre[i].id
            &&& post[i].name == pre[i].name
            &&& post[i].color == pre[i].color
            &&& post[i].quit == pre[i].quit
        }
}

/// Whether the task's deadline has passed at the given time.
pub open spec fn deadline_expired(t: GameTask, now: u32) -> bool {
    match t.deadline {
        Some(d) => d < now,
        None => false,
    }
}

/// One step of the deadline sweep: an expired task costs its scaled
/// reward from both score totals (the total floors at zero) and its
/// deadline is cleared so the penalty is never repeated.
pub open spec fn penalty_step(totals: (int, int), t: GameTask, now: u32) -> (int, int) {
    if deadline_expired(t, now) {
        (cap_u32(totals.0 - t.score * SCORE_UNIT), cap_i32(totals.1 - t.score * SCORE_UNIT))
    } else {
        totals
    }
}

/// The score totals after sweeping the given tasks for expired
/// deadlines, in stored order.
pub open spec fn penalties_after(totals: (int, int), tasks: Seq<GameTask>, now: u32) -> (int, int)
    decreases tasks.len(),
{
    if tasks.len() == 0 {
        totals
    } else {
        penalties_after(penalty_step(totals, tasks[0], now), tasks.skip(1), now)
    }
}

/// A task's deadline after the sweep at the given time: cleared if it
/// expired, kept otherwise.
pub open spec fn swept_deadline(t: GameTask, now: u32) -> Option<u32> {
    if deadline_expired(t, now) {
        None
    } else {
        t.deadline
    }
}

/// A task after the deadline sweep at the given time.
pub open spec fn swept_task(t: GameTask, now: u32) -> GameTask {
    GameTask { deadline: swept_deadline(t, now), ..t }
}

/// The two score totals after a tick's deadline sweep: the four
/// non-done collections are swept in stage order at the new time.
pub open spec fn swept_scores(pre: WorldState) -> (int, int) {
    let now = cap_u32(pre.time + 1) as u32;
    penalties_after(
        penalties_after(
            penalties_after(
                penalties_after(
                    (pre.total_score as int, pre.score_in_month as int),
                    pre.tasks_backlog@,
                    now,
                ),
                pre.tasks_candidate@,
                now,
            ),
            pre.tasks_progress@,
            now,
        ),
        pre.tasks_review@,
        now,
    )
}

/// Sweep one collection for expired deadlines: each expired task loses
/// its deadline and costs its scaled reward from the running totals.
fn apply_deadline_penalties_list(
    tasks: &mut Vec<GameTask>,
    now: u32,
    total_score: &mut u32,
    score_in_month: &mut i32,
)
    ensures
        final(tasks)@ == old(tasks)@.map_values(
            |t: GameTask|
                if deadline_expired(t, now) {
                    GameTask { deadline: None, ..t }
                } else {
                    t
                },
        ),
        (*final(total_score) as int, *final(score_in_month) as int) == penalties_after(
            (*old(total_score) as int, *old(score_in_month) as int),
            old(tasks)@,
            now,
        ),
{
    let ghost whole = penalties_after(
        (*old(total_score) as int, *old(score_in_month) as int),
        old(tasks)@,
        now,
    );
    let n: usize = tasks.len();
    let mut i: usize = 0;
    proof {
        assert(old(tasks)@.skip(0) =~= old(tasks)@);
    }
    while i < n
        invariant
            i <= n,
            n == tasks@.len(),
            tasks@.len() == old(tasks)@.len(),
            forall|k: int|
                0 <= k < i ==> tasks@[k] == if deadline_expired(#[trigger] old(tasks)@[k], now) {
                    GameTask { deadline: None, ..old(tasks)@[k] }
                } else {
                    old(tasks)@[k]
                },
            forall|k: int| i <= k < n ==> tasks@[k] == old(tasks)@[k],
            penalties_after(
                (*total_score as int, *score_in_month as int),
                old(tasks)@.skip(i as int),
                now,
            ) == whole,
        decreases n - i,
    {
        proof {
            assert(old(tasks)@.skip(i as int).skip(1) =~= old(tasks)@.skip(i as int + 1));
        }
        let expired: bool = {
            let t = &tasks[i];
            match t.deadline {
                Some(d) => d < now,
                None => false,
            }
        };
        if expired {
            let scaled: i64 = {
                let t = &tasks[i];
                t.score as i64 * 1_000i64
            };
            assert(scaled == old(tasks)@[i as int].score * SCORE_UNIT);

            // apply the penalty
            *total_score = u32_add_i64_clamped(*total_score, -scaled);
            *score_in_month = i32_add_i64_clamped(*score_in_month, -scaled);

            // reset the deadline so the penalty is applied only once
            let t = &mut tasks[i];
            t.deadline = None;
        }
        i = i + 1;
    }
    proof {
        assert(old(tasks)@.skip(n as int) =~= Seq::<GameTask>::empty());
        assert(tasks@ =~= old(tasks)@.map_values(
            |t: GameTask|
                if deadline_expired(t, now) {
                    GameTask { deadline: None, ..t }
                } else {
                    t
                },
        ));
    }
}

/// Law: a legal move takes exactly one task out of its origin stage
/// collection, puts exactly one into the target stage collection, and
/// leaves the size of every other stage collection unchanged.
///
/// The premises are what [`WorldState::handle_move_task`] ensures of a
/// legal, permitted move.
pub proof fn lemma_legal_move_counts(
    pre: WorldState,
    post: WorldState,
    task: TaskTransfer,
    to: StageId,
)
    requires
        task.from != to,
        spec_find(pre.stage_list(task.from), task.id) matches Some(j) && {
            let t = pre.stage_list(task.from)[j];
            &&& move_allowed(t, to)
            &&& post.stage_list(task.from) == pre.stage_list(task.from).remove(j)
            &&& (to is Done ==> post.tasks_done@ == pre.tasks_done@.push(
                merged_task(moved_task(t, to)),
            ))
            &&& (!(to is Done) ==> post.stage_list(to) == pre.stage_list(to).push(
                moved_task(t, to),
            ))
        },
        forall|s: StageId|
            s != task.from && s != to ==> #[trigger] post.stage_list(s) == pre.stage_list(s),
    ensures
        post.stage_list(task.from).len() == pre.stage_list(task.from).len() - 1,
        post.stage_list(to).len() == pre.stage_list(to).len() + 1,
        forall|s: StageId|
            s != task.from && s != to ==> #[trigger] post.stage_list(s).len() == pre.stage_list(
                s,
            ).len(),
{
    lemma_spec_find_some(pre.stage_list(task.from), task.id);
}

/// Law: merging a task never lowers the total score, and short of the
/// counter's cap the task's scaled reward is credited in full.
pub proof fn lemma_merge_score(total_score: u32, score: u32)
    ensures
        cap_u32(total_score + score * SCORE_UNIT) >= total_score,
        total_score + score * SCORE_UNIT <= u32::MAX ==> cap_u32(total_score + score * SCORE_UNIT)
            == total_score + score * SCORE_UNIT,
{
}

/// Law: merging a task grows the world bug count by the task's latent
/// bugs, less the one bug a bug-kind task fixes.
///
/// The premises keep the counter within its range: the count saturates
/// at its extremes instead.
pub proof fn lemma_merge_bug_count(bugs: u32, kind: TaskKind, task_bugs: u32)
    requires
        bugs + task_bugs <= u32::MAX,
        kind is Bug ==> bugs + task_bugs >= 1,
    ensures
        merge_bugs(bugs, kind, task_bugs) == bugs + task_bugs - (if kind is Bug {
            1int
        } else {
            0int
        }),
{
}

/// Law: a committed rollover leaves the world ineligible for another
/// one, so repeated next-month requests roll over only once per month
/// end.
pub proof fn lemma_rollover_resets(pre: WorldState, post: WorldState)
    requires
        rolled_over(pre, post),
    ensures
        post.time_in_month < TICKS_PER_MONTH,
{
}

/// Set the assigned worker of the task at the given index.
fn set_assigned(tasks: &mut Vec<GameTask>, j: usize, human_id: u32)
    requires
        j < old(tasks)@.len(),
    ensures
        final(tasks)@ == old(tasks)@.update(
            j as int,
            (GameTask { assigned: Some(human_id), ..old(tasks)@[j as int] }),
        ),
{
    let t = &mut tasks[j];
    t.assigned = Some(human_id);
}

/// Unassign the task at the given index and remove its progress, as
/// happens on a merge; returns its kind, latent bugs, difficulty and
/// score for the merge calculations.
fn clear_for_merge(tasks: &mut Vec<GameTask>, j: usize) -> (r: (TaskKind, u32, u32, u32))
    requires
        j < old(tasks)@.len(),
    ensures
        final(tasks)@ == old(tasks)@.update(j as int, merged_task(old(tasks)@[j as int])),
        r == {
            let t = old(tasks)@[j as int];
            (t.kind, t.bugs, t.difficulty, t.score)
        },
{
    let t = &mut tasks[j];
    t.assigned = None;
    t.progress = 0;
    (t.kind, t.bugs, t.difficulty, t.score)
}

} // verus!
